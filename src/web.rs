use vstd::prelude::*;
use crate::artist::{Artist, FollowArtistError, UnfollowArtistError};

verus! {

#[derive(Debug, Clone)]
pub struct HttpServerConfig {
    pub port: u16,
    pub assets_dir: Option<String>,
}

/// Query of the overview page: the artist whose items are shown, if any.
#[derive(Debug)]
pub struct OverviewParams {
    pub selected_artist: Option<i32>,
}

#[derive(Debug)]
pub struct PostArtistForm {
    pub name: String,
}

#[derive(Debug)]
pub struct DeleteArtistForm {
    pub selected_artist_id: i32,
}

#[derive(Debug)]
pub struct AddTitleSkipSequenceForm {
    pub title_skip_sequence: String,
}

#[derive(Debug)]
pub struct DeleteTitleSkipSequenceForm {
    pub title_skip_sequence: String,
}

/// How a failed request is answered: an expected conflict is the caller's
/// fault, an unknown artist is missing, anything else is a failure of ours.
#[derive(Debug, Clone, Copy, PartialEq, Eq, Structural)]
pub enum ResponseClass {
    BadRequest,
    NotFound,
    ServerError,
}

impl FollowArtistError {
    pub fn response_class(&self) -> (r: ResponseClass)
        ensures
            r == (if self is AlreadyFollowedError {
                ResponseClass::BadRequest
            } else {
                ResponseClass::ServerError
            }),
    {
        match self {
            FollowArtistError::AlreadyFollowedError(_) => ResponseClass::BadRequest,
            FollowArtistError::Unknown(_) => ResponseClass::ServerError,
        }
    }
}

impl UnfollowArtistError {
    pub fn response_class(&self) -> (r: ResponseClass)
        ensures
            r == (match self {
                UnfollowArtistError::UnknownArtist { .. } => ResponseClass::NotFound,
                UnfollowArtistError::ArtistNotFollowed { .. } => ResponseClass::BadRequest,
                UnfollowArtistError::Unknown(_) => ResponseClass::ServerError,
            }),
    {
        match self {
            UnfollowArtistError::UnknownArtist { .. } => ResponseClass::NotFound,
            UnfollowArtistError::ArtistNotFollowed { .. } => ResponseClass::BadRequest,
            UnfollowArtistError::Unknown(_) => ResponseClass::ServerError,
        }
    }
}

/// The position of the first artist of `artists` with id `selected`, if an
/// id is given and some artist has it.
pub fn select_artist(artists: &Vec<Artist>, selected: Option<i32>) -> (r: Option<usize>)
    ensures
        match r {
            Some(i) => selected is Some && i < artists@.len() && artists@[i as int].id
                == selected->0 && forall|k: int|
                0 <= k < i ==> (#[trigger] artists@[k]).id != selected->0,
            None => selected is None || forall|k: int|
                0 <= k < artists@.len() ==> (#[trigger] artists@[k]).id != selected->0,
        },
{
    match selected {
        None => None,
        Some(id) => {
            let mut i: usize = 0;
            while i < artists.len()
                invariant
                    0 <= i <= artists@.len(),
                    selected == Some(id),
                    forall|k: int| 0 <= k < i ==> (#[trigger] artists@[k]).id != id,
                decreases artists@.len() - i,
            {
                if artists[i].id == id {
                    return Some(i);
                }
                i = i + 1;
            }
            None
        },
    }
}

} // verus!
