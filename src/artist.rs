use vstd::prelude::*;

verus! {

/// A point in time, as microseconds since the Unix epoch (UTC).
#[derive(Debug, Clone, Copy, PartialEq, Eq, Structural)]
pub struct Timestamp {
    pub micros: i64,
}

/// An artist known to the store, followed or not.
#[derive(Debug)]
pub struct Artist {
    pub id: i32,
    pub date_added: Timestamp,
    pub name: String,
    pub following: bool,
    pub date_followed: Option<Timestamp>,
}

impl Artist {
    /// A followed artist carries the time it was followed; an unfollowed one carries none.
    pub open spec fn wf(&self) -> bool {
        self.following == self.date_followed.is_some()
    }

    pub fn new(
        id: i32,
        date_added: Timestamp,
        name: String,
        following: bool,
        date_followed: Option<Timestamp>,
    ) -> (r: Self)
        ensures
            r.id == id,
            r.date_added == date_added,
            r.name == name,
            r.following == following,
            r.date_followed == date_followed,
    {
        Artist { id, date_added, name, following, date_followed }
    }

    /// A copy of this record.
    pub fn duplicate(&self) -> (r: Artist)
        ensures
            r == *self,
    {
        Artist {
            id: self.id,
            date_added: self.date_added,
            name: self.name.clone(),
            following: self.following,
            date_followed: self.date_followed,
        }
    }

    pub fn id(&self) -> (r: i32)
        ensures
            r == self.id,
    {
        self.id
    }

    pub fn date_added(&self) -> (r: Timestamp)
        ensures
            r == self.date_added,
    {
        self.date_added
    }

    pub fn name(&self) -> (r: &str)
        ensures
            r@ == self.name@,
    {
        self.name.as_str()
    }

    pub fn following(&self) -> (r: bool)
        ensures
            r == self.following,
    {
        self.following
    }

    pub fn date_followed(&self) -> (r: Option<Timestamp>)
        ensures
            r == self.date_followed,
    {
        self.date_followed
    }
}

/// The name under which an artist is followed.
#[derive(Debug)]
pub struct ArtistArgs {
    pub name: String,
}

impl ArtistArgs {
    pub fn new(name: String) -> (r: Self)
        ensures
            r.name == name,
    {
        ArtistArgs { name }
    }

    pub fn name(&self) -> (r: &str)
        ensures
            r@ == self.name@,
    {
        self.name.as_str()
    }
}

#[derive(Debug)]
pub enum FollowArtistError {
    /// The artist is followed already, since the given time.
    AlreadyFollowedError(Timestamp),
    Unknown(String),
}

#[derive(Debug)]
pub enum UnfollowArtistError {
    UnknownArtist { id: i32 },
    ArtistNotFollowed { name: String },
    Unknown(String),
}

#[derive(Debug)]
pub enum GetArtistsError {
    Unknown(String),
}

/// The artists among `artists` that are followed, in their order.
pub open spec fn followed_of(artists: Seq<Artist>) -> Seq<Artist> {
    artists.filter(|a: Artist| a.following)
}

/// Keeps the followed artists, in their order.
pub fn followed_artists(artists: Vec<Artist>) -> (r: Vec<Artist>)
    ensures
        r@ == followed_of(artists@),
{
    let mut r: Vec<Artist> = Vec::new();
    let mut rest = artists;
    let ghost all = rest@;
    let n: usize = rest.len();
    let mut i: usize = 0;
    while i < n
        invariant
            0 <= i <= n,
            n == all.len(),
            rest@ == all.subrange(i as int, n as int),
            r@ == all.subrange(0, i as int).filter(|a: Artist| a.following),
        decreases n - i,
    {
        let a = rest.remove(0);
        proof {
            assert(a == all[i as int]);
            assert(all.subrange(0, i as int + 1) == all.subrange(0, i as int).push(a));
            all.subrange(0, i as int).lemma_filter_push(a, |a: Artist| a.following);
        }
        if a.following {
            r.push(a);
        }
        i = i + 1;
        assert(rest@ =~= all.subrange(i as int, n as int));
    }
    proof {
        assert(all.subrange(0, n as int) == all);
    }
    r
}

/// What following an artist comes to in the store.
#[derive(Debug, Clone, Copy, PartialEq, Eq, Structural)]
pub enum FollowAction {
    /// No artist of that name is stored: store one, followed.
    Insert,
    /// The artist is stored and not followed: mark it followed.
    Refollow,
}

/// Decides a follow request from the stored artist of that name, if any: a
/// followed artist is refused with the time it was followed since.
pub fn follow_decision(existing: Option<&Artist>) -> (r: Result<FollowAction, FollowArtistError>)
    requires
        existing matches Some(a) ==> a.wf(),
    ensures
        match existing {
            None => r == Ok::<FollowAction, FollowArtistError>(FollowAction::Insert),
            Some(a) => if a.following {
                r matches Err(FollowArtistError::AlreadyFollowedError(t)) && a.date_followed == Some(
                    t,
                )
            } else {
                r == Ok::<FollowAction, FollowArtistError>(FollowAction::Refollow)
            },
        },
{
    match existing {
        None => Ok(FollowAction::Insert),
        Some(a) => {
            if a.following {
                match a.date_followed {
                    Some(t) => Err(FollowArtistError::AlreadyFollowedError(t)),
                    None => Ok(FollowAction::Refollow),
                }
            } else {
                Ok(FollowAction::Refollow)
            }
        },
    }
}

/// Decides an unfollow request for id `artist_id` from the stored artist with
/// that id, if any: an unknown id and an artist not followed are refused.
pub fn unfollow_decision(existing: Option<&Artist>, artist_id: i32) -> (r: Result<
    (),
    UnfollowArtistError,
>)
    ensures
        match existing {
            None => r matches Err(UnfollowArtistError::UnknownArtist { id }) && id == artist_id,
            Some(a) => if a.following {
                r is Ok
            } else {
                r matches Err(UnfollowArtistError::ArtistNotFollowed { name }) && name == a.name
            },
        },
{
    match existing {
        None => Err(UnfollowArtistError::UnknownArtist { id: artist_id }),
        Some(a) => {
            if a.following {
                Ok(())
            } else {
                Err(UnfollowArtistError::ArtistNotFollowed { name: a.name.clone() })
            }
        },
    }
}

} // verus!
