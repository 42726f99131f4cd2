use vstd::prelude::*;
use crate::artist::{
    follow_decision, unfollow_decision, Artist, ArtistArgs, FollowArtistError, GetArtistsError,
    Timestamp, UnfollowArtistError,
};
use crate::product::{
    copy_artists, copy_strings, copy_text, refuse_duplicate, AddSkippingUrlError, AddTitleSkippSequenceError,
    CreateProductArgs, CreateProductError, DeleteTitleSkippSequenceError, GetProductsError,
    GetSkippingUrlsError, GetTitleSkippSequencesError, Product, UpdateProductArgs,
    UpdateProductError,
};
use crate::reconcile::mentions;

verus! {

/// A url rejected because the source attributed it to other names than the
/// entity it was listed for; those names are kept with it.
#[derive(Debug)]
pub struct SkipEntry {
    pub url: String,
    pub artists: Vec<String>,
}

/// A store that keeps everything in memory: artists, items, skip entries and
/// title skip sequences. Ids are handed out from one counter.
#[derive(Debug)]
pub struct MemoryStore {
    pub artists: Vec<Artist>,
    pub products: Vec<Product>,
    pub skip_entries: Vec<SkipEntry>,
    pub title_skip_sequences: Vec<String>,
    pub next_id: i32,
}

/// The entry is not attributed to `name`.
pub open spec fn unattributed(name: Seq<char>) -> spec_fn(SkipEntry) -> bool {
    |e: SkipEntry| !mentions(e.artists@, name)
}

pub open spec fn skip_url_of() -> spec_fn(SkipEntry) -> String {
    |e: SkipEntry| e.url
}

impl MemoryStore {
    /// Artist names, artist ids and item urls are unique, every artist record
    /// is well formed, every id lies below the counter, and items are kept
    /// newest first (by the time they were added).
    pub open spec fn wf(&self) -> bool {
        &&& 1 <= self.next_id
        &&& forall|i: int|
            0 <= i < self.artists@.len() ==> (#[trigger] self.artists@[i]).wf()
                && self.artists@[i].id < self.next_id
        &&& forall|i: int, j: int|
            0 <= i < j < self.artists@.len() ==> (#[trigger] self.artists@[i]).name@
                != (#[trigger] self.artists@[j]).name@
        &&& forall|i: int, j: int|
            0 <= i < j < self.artists@.len() ==> (#[trigger] self.artists@[i]).id
                != (#[trigger] self.artists@[j]).id
        &&& newest_first(self.products@)
        &&& forall|i: int|
            0 <= i < self.products@.len() ==> (#[trigger] self.products@[i]).id < self.next_id
        &&& forall|i: int, j: int|
            0 <= i < j < self.products@.len() ==> (#[trigger] self.products@[i]).url@
                != (#[trigger] self.products@[j]).url@
    }

    /// Some artist is named `name`.
    pub open spec fn has_artist(&self, name: Seq<char>) -> bool {
        exists|i: int| 0 <= i < self.artists@.len() && #[trigger] self.artists@[i].name@ == name
    }

    /// Some artist named `name` is followed.
    pub open spec fn follows(&self, name: Seq<char>) -> bool {
        exists|i: int|
            0 <= i < self.artists@.len() && #[trigger] self.artists@[i].name@ == name
                && self.artists@[i].following
    }

    /// Some item is stored under `url`.
    pub open spec fn has_product(&self, url: Seq<char>) -> bool {
        exists|i: int| 0 <= i < self.products@.len() && #[trigger] self.products@[i].url@ == url
    }

    /// The urls on the skip list, in the order they were added.
    pub open spec fn skip_urls(&self) -> Seq<String> {
        self.skip_entries@.map_values(skip_url_of())
    }

    pub fn new() -> (r: MemoryStore)
        ensures
            r.wf(),
            r.next_id == 1,
            r.artists@.len() == 0,
            r.products@.len() == 0,
            r.skip_entries@.len() == 0,
            r.title_skip_sequences@.len() == 0,
    {
        MemoryStore {
            artists: Vec::new(),
            products: Vec::new(),
            skip_entries: Vec::new(),
            title_skip_sequences: Vec::new(),
            next_id: 1,
        }
    }

    fn find_artist_by_name(&self, name: &String) -> (r: Option<usize>)
        ensures
            match r {
                Some(i) => i < self.artists@.len() && self.artists@[i as int].name@ == name@,
                None => !self.has_artist(name@),
            },
    {
        let mut i: usize = 0;
        while i < self.artists.len()
            invariant
                0 <= i <= self.artists@.len(),
                forall|k: int| 0 <= k < i ==> (#[trigger] self.artists@[k]).name@ != name@,
            decreases self.artists@.len() - i,
        {
            if self.artists[i].name.eq(name) {
                return Some(i);
            }
            i = i + 1;
        }
        None
    }

    fn find_artist_by_id(&self, id: i32) -> (r: Option<usize>)
        ensures
            match r {
                Some(i) => i < self.artists@.len() && self.artists@[i as int].id == id
                    && forall|k: int| 0 <= k < i ==> (#[trigger] self.artists@[k]).id != id,
                None => forall|k: int|
                    0 <= k < self.artists@.len() ==> (#[trigger] self.artists@[k]).id != id,
            },
    {
        let mut i: usize = 0;
        while i < self.artists.len()
            invariant
                0 <= i <= self.artists@.len(),
                forall|k: int| 0 <= k < i ==> (#[trigger] self.artists@[k]).id != id,
            decreases self.artists@.len() - i,
        {
            if self.artists[i].id == id {
                return Some(i);
            }
            i = i + 1;
        }
        None
    }

    /// What following `name` at time `now` does to the store: an artist who
    /// is followed already is refused with the time of that follow; otherwise
    /// the artist (created if new) is followed since `now`, and every skip
    /// entry attributed to the name is dropped. Without a free id for a new
    /// artist the store stays as it was.
    pub open spec fn follow_outcome(
        before: MemoryStore,
        after: MemoryStore,
        name: Seq<char>,
        now: Timestamp,
        r: Result<(), FollowArtistError>,
    ) -> bool {
        &&& before.follows(name) <==> r is Err && r->Err_0 is AlreadyFollowedError
        &&& r matches Err(FollowArtistError::AlreadyFollowedError(t)) ==> after == before
            && exists|i: int|
            0 <= i < before.artists@.len() && #[trigger] before.artists@[i].name@ == name
                && before.artists@[i].date_followed == Some(t)
        &&& r matches Err(FollowArtistError::Unknown(_)) ==> after == before
            && !before.has_artist(name) && before.next_id == i32::MAX
        &&& r is Ok ==> {
            &&& (exists|i: int|
                0 <= i < before.artists@.len() && #[trigger] before.artists@[i].name@ == name
                    && after.artists@ == before.artists@.update(
                    i,
                    Artist {
                        id: before.artists@[i].id,
                        date_added: before.artists@[i].date_added,
                        name: before.artists@[i].name,
                        following: true,
                        date_followed: Some(now),
                    },
                ) && after.next_id == before.next_id) || (!before.has_artist(name)
                && after.artists@.len() == before.artists@.len() + 1 && after.artists@.subrange(
                0,
                before.artists@.len() as int,
            ) == before.artists@ && after.artists@.last().id == before.next_id
                && after.artists@.last().date_added == now && after.artists@.last().name@ == name
                && after.artists@.last().following && after.artists@.last().date_followed == Some(
                now,
            ) && after.next_id == before.next_id + 1)
            &&& after.skip_entries@ == before.skip_entries@.filter(unattributed(name))
            &&& after.products == before.products
            &&& after.title_skip_sequences == before.title_skip_sequences
        }
        &&& r is Ok <==> !before.follows(name) && (before.has_artist(name) || before.next_id
            < i32::MAX)
    }

    fn drop_skip_entries_for(&mut self, name: &String)
        ensures
            final(self).skip_entries@ == old(self).skip_entries@.filter(unattributed(name@)),
            final(self).artists == old(self).artists,
            final(self).products == old(self).products,
            final(self).title_skip_sequences == old(self).title_skip_sequences,
            final(self).next_id == old(self).next_id,
    {
        let mut rest: Vec<SkipEntry> = Vec::new();
        core::mem::swap(&mut rest, &mut self.skip_entries);
        let ghost all = rest@;
        let n: usize = rest.len();
        let mut i: usize = 0;
        while i < n
            invariant
                0 <= i <= n,
                n == all.len(),
                all == old(self).skip_entries@,
                rest@ == all.subrange(i as int, n as int),
                self.skip_entries@ == all.subrange(0, i as int).filter(unattributed(name@)),
                self.artists == old(self).artists,
                self.products == old(self).products,
                self.title_skip_sequences == old(self).title_skip_sequences,
                self.next_id == old(self).next_id,
            decreases n - i,
        {
            let e = rest.remove(0);
            proof {
                assert(e == all[i as int]);
                assert(all.subrange(0, i as int + 1) == all.subrange(0, i as int).push(e));
                all.subrange(0, i as int).lemma_filter_push(e, unattributed(name@));
            }
            if !crate::reconcile::contains_name(e.artists.as_slice(), name) {
                self.skip_entries.push(e);
            }
            i = i + 1;
            assert(rest@ =~= all.subrange(i as int, n as int));
        }
        proof {
            assert(all.subrange(0, n as int) == all);
        }
    }

    /// Follows the artist named in `args` since `now`, and drops the skip
    /// entries attributed to that name.
    pub fn follow_melonbooks_artist(&mut self, args: &ArtistArgs, now: Timestamp) -> (r: Result<
        (),
        FollowArtistError,
    >)
        requires
            old(self).wf(),
        ensures
            final(self).wf(),
            Self::follow_outcome(*old(self), *final(self), args.name@, now, r),
    {
        let ghost mut idx: int = 0;
        match self.find_artist_by_name(&args.name) {
            Some(i) => {
                proof {
                    assert(self.artists@[i as int].wf());
                }
                match follow_decision(Some(&self.artists[i])) {
                    Err(e) => {
                        return Err(e);
                    },
                    Ok(_) => {},
                }
                let mut a = self.artists.remove(i);
                a.following = true;
                a.date_followed = Some(now);
                self.artists.insert(i, a);
                proof {
                    idx = i as int;
                    assert(self.artists@ =~= old(self).artists@.update(i as int, a));
                    assert forall|k: int, j: int|
                        0 <= k < j < self.artists@.len() implies (#[trigger] self.artists@[k]).id
                        != (#[trigger] self.artists@[j]).id by {
                        assert(k == i || self.artists@[k] == old(self).artists@[k]);
                        assert(j == i || self.artists@[j] == old(self).artists@[j]);
                    }
                    assert forall|k: int|
                        0 <= k < old(self).artists@.len() && #[trigger] old(
                            self,
                        ).artists@[k].name@ == args.name@ implies !old(self).artists@[k].following by {
                        if k != i {
                            assert(old(self).artists@[k].name@ != old(self).artists@[i as int].name@);
                        }
                    }
                    assert forall|k: int, j: int|
                        0 <= k < j < self.artists@.len() implies (#[trigger] self.artists@[k]).name@
                        != (#[trigger] self.artists@[j]).name@ by {
                        assert(k == i || self.artists@[k] == old(self).artists@[k]);
                        assert(j == i || self.artists@[j] == old(self).artists@[j]);
                    }
                    assert forall|k: int| 0 <= k < self.artists@.len() implies (
                    #[trigger] self.artists@[k]).wf() && self.artists@[k].id < self.next_id by {
                        assert(k == i || self.artists@[k] == old(self).artists@[k]);
                    }
                }
            },
            None => {
                if self.next_id == i32::MAX {
                    return Err(FollowArtistError::Unknown(String::from_str("no free artist id")));
                }
                let a = Artist {
                    id: self.next_id,
                    date_added: now,
                    name: args.name.clone(),
                    following: true,
                    date_followed: Some(now),
                };
                self.artists.push(a);
                self.next_id = self.next_id + 1;
                proof {
                    let n = self.artists@.len() - 1;
                    idx = n;
                    assert(self.artists@[n].name@ == args.name@);
                    assert(self.artists@.subrange(0, n) =~= old(self).artists@);
                    assert forall|k: int, j: int|
                        0 <= k < j < self.artists@.len() implies (#[trigger] self.artists@[k]).id
                        != (#[trigger] self.artists@[j]).id by {
                        assert(old(self).artists@[k] == self.artists@[k]);
                        if j < n {
                            assert(old(self).artists@[j] == self.artists@[j]);
                        }
                    }
                    assert forall|k: int, j: int|
                        0 <= k < j < self.artists@.len() implies (#[trigger] self.artists@[k]).name@
                        != (#[trigger] self.artists@[j]).name@ by {
                        if j == n {
                            assert(old(self).artists@[k] == self.artists@[k]);
                        } else {
                            assert(old(self).artists@[k] == self.artists@[k]);
                            assert(old(self).artists@[j] == self.artists@[j]);
                        }
                    }
                }
            },
        }
        let ghost mid = *self;
        self.drop_skip_entries_for(&args.name);
        proof {
            assert(self.artists == mid.artists);
            assert(self.artists@[idx].name@ == args.name@);
        }
        Ok(())
    }

    /// Stops following the artist with id `artist_id`.
    pub fn unfollow_melonbooks_artist(&mut self, artist_id: i32) -> (r: Result<
        (),
        UnfollowArtistError,
    >)
        requires
            old(self).wf(),
        ensures
            final(self).wf(),
            match r {
                Err(UnfollowArtistError::UnknownArtist { id }) => id == artist_id && *final(self)
                    == *old(self) && forall|k: int|
                    0 <= k < old(self).artists@.len() ==> (#[trigger] old(self).artists@[k]).id
                        != artist_id,
                Err(UnfollowArtistError::ArtistNotFollowed { name }) => *final(self) == *old(self)
                    && exists|k: int|
                    0 <= k < old(self).artists@.len() && (#[trigger] old(self).artists@[k]).id
                        == artist_id && old(self).artists@[k].name == name
                        && !old(self).artists@[k].following,
                Err(UnfollowArtistError::Unknown(_)) => false,
                Ok(()) => exists|k: int|
                    0 <= k < old(self).artists@.len() && (#[trigger] old(self).artists@[k]).id
                        == artist_id && old(self).artists@[k].following
                        && final(self).artists@ == old(self).artists@.update(
                        k,
                        Artist {
                            id: old(self).artists@[k].id,
                            date_added: old(self).artists@[k].date_added,
                            name: old(self).artists@[k].name,
                            following: false,
                            date_followed: None,
                        },
                    ) && final(self).products == old(self).products && final(self).skip_entries
                        == old(self).skip_entries && final(self).title_skip_sequences == old(
                        self,
                    ).title_skip_sequences,
            },
    {
        match self.find_artist_by_id(artist_id) {
            None => unfollow_decision(None, artist_id),
            Some(i) => {
                match unfollow_decision(Some(&self.artists[i]), artist_id) {
                    Err(e) => {
                        return Err(e);
                    },
                    Ok(()) => {},
                }
                let mut a = self.artists.remove(i);
                a.following = false;
                a.date_followed = None;
                self.artists.insert(i, a);
                proof {
                    assert(self.artists@ =~= old(self).artists@.update(i as int, a));
                    assert forall|k: int, j: int|
                        0 <= k < j < self.artists@.len() implies (#[trigger] self.artists@[k]).id
                        != (#[trigger] self.artists@[j]).id by {
                        assert(k == i || self.artists@[k] == old(self).artists@[k]);
                        assert(j == i || self.artists@[j] == old(self).artists@[j]);
                    }
                    assert forall|k: int, j: int|
                        0 <= k < j < self.artists@.len() implies (#[trigger] self.artists@[k]).name@
                        != (#[trigger] self.artists@[j]).name@ by {
                        assert(k == i || self.artists@[k] == old(self).artists@[k]);
                        assert(j == i || self.artists@[j] == old(self).artists@[j]);
                    }
                    assert forall|k: int| 0 <= k < self.artists@.len() implies (
                    #[trigger] self.artists@[k]).wf() && self.artists@[k].id < self.next_id by {
                        assert(k == i || self.artists@[k] == old(self).artists@[k]);
                    }
                }
                Ok(())
            },
        }
    }

    /// All artists, followed or not.
    pub fn get_melonbooks_artists(&self) -> (r: Result<Vec<Artist>, GetArtistsError>)
        ensures
            r matches Ok(v) && v@ == self.artists@,
    {
        Ok(copy_artists(&self.artists))
    }

    fn find_product_by_url(&self, url: &String) -> (r: Option<usize>)
        ensures
            match r {
                Some(i) => i < self.products@.len() && self.products@[i as int].url@ == url@,
                None => !self.has_product(url@),
            },
    {
        let mut i: usize = 0;
        while i < self.products.len()
            invariant
                0 <= i <= self.products@.len(),
                forall|k: int| 0 <= k < i ==> (#[trigger] self.products@[k]).url@ != url@,
            decreases self.products@.len() - i,
        {
            if self.products[i].url.eq(url) {
                return Some(i);
            }
            i = i + 1;
        }
        None
    }

    /// What storing `args` at time `now` does: a url that is stored already is
    /// refused as a duplicate and nothing changes; otherwise the item is
    /// inserted, among the items kept newest first, with the given fields,
    /// attributed to an artist record of each given name, and returned. A
    /// name with no record gets a new unfollowed one, added at `now`; no
    /// other record is added or changed. Without enough free ids the store
    /// stays as it was.
    pub open spec fn create_outcome(
        before: MemoryStore,
        after: MemoryStore,
        args: CreateProductArgs,
        now: Timestamp,
        r: Result<Product, CreateProductError>,
    ) -> bool {
        &&& before.has_product(args.url@) <==> r is Err && r->Err_0 is DuplicateProduct
        &&& r matches Err(CreateProductError::DuplicateProduct { url, title }) ==> after == before
            && exists|i: int|
            0 <= i < before.products@.len() && #[trigger] before.products@[i].url == url && url@
                == args.url@ && before.products@[i].title == title
        &&& r matches Err(CreateProductError::Unknown(_)) ==> after == before
            && before.next_id + args.artists@.len() + 1 > i32::MAX
        &&& r matches Ok(p) ==> {
            &&& p.url == args.url
            &&& p.title == args.title
            &&& p.circle == args.circle
            &&& p.image_url == args.image_url
            &&& p.category == args.category
            &&& p.tags@ == args.tags@
            &&& p.flags@ == args.flags@
            &&& p.price == args.price
            &&& p.availability == args.availability
            &&& p.date_added == now
            &&& p.artists@.len() == args.artists@.len()
            &&& forall|k: int|
                0 <= k < args.artists@.len() ==> (#[trigger] p.artists@[k]).name@
                    == args.artists@[k]@
            &&& records_among(p.artists@, after.artists@)
            &&& exists|k: int|
                0 <= k <= before.products@.len() && after.products@ == before.products@.insert(
                    k,
                    after.products@[k],
                ) && after.products@[k].same_item(&p)
            &&& before.artists@.len() <= after.artists@.len()
            &&& after.artists@.subrange(0, before.artists@.len() as int) == before.artists@
            &&& forall|x: int|
                before.artists@.len() <= x < after.artists@.len() ==> {
                    &&& !(#[trigger] after.artists@[x]).following
                    &&& after.artists@[x].date_followed is None
                    &&& after.artists@[x].date_added == now
                    &&& mentions(args.artists@, after.artists@[x].name@)
                    &&& !before.has_artist(after.artists@[x].name@)
                }
            &&& forall|j: int|
                0 <= j < args.artists@.len() ==> after.has_artist(#[trigger] args.artists@[j]@)
            &&& after.skip_entries == before.skip_entries
            &&& after.title_skip_sequences == before.title_skip_sequences
        }
        &&& r is Ok <==> !before.has_product(args.url@) && before.next_id + args.artists@.len() + 1
            <= i32::MAX
    }

    /// Stores a new item under `args.url`, refusing a url that is stored already.
    pub fn create_melonbooks_product(&mut self, args: &CreateProductArgs, now: Timestamp) -> (r:
        Result<Product, CreateProductError>)
        requires
            old(self).wf(),
        ensures
            final(self).wf(),
            Self::create_outcome(*old(self), *final(self), *args, now, r),
    {
        let existing = self.find_product_by_url(&args.url);
        let stored = match existing {
            Some(i) => Some((&self.products[i].url, &self.products[i].title)),
            None => None,
        };
        match refuse_duplicate(stored) {
            Err(e) => {
                proof {
                    let i = existing->0 as int;
                    assert(self.products@[i].url == self.products@[i].url);
                }
                return Err(e);
            },
            Ok(()) => {},
        }
        if args.artists.len() >= (i32::MAX - self.next_id) as usize {
            return Err(CreateProductError::Unknown(String::from_str("no free id")));
        }
        let mut linked: Vec<Artist> = Vec::new();
        let mut k: usize = 0;
        while k < args.artists.len()
            invariant
                self.wf(),
                0 <= k <= args.artists@.len(),
                old(self).next_id + args.artists@.len() + 1 <= i32::MAX,
                self.next_id <= old(self).next_id + k,
                linked@.len() == k,
                forall|j: int|
                    0 <= j < k ==> (#[trigger] linked@[j]).name@ == args.artists@[j]@,
                forall|j: int|
                    0 <= j < k ==> exists|x: int|
                        0 <= x < self.artists@.len() && self.artists@[x] == #[trigger] linked@[j],
                forall|j: int| 0 <= j < k ==> self.has_artist(#[trigger] args.artists@[j]@),
                old(self).artists@.len() <= self.artists@.len(),
                self.artists@.subrange(0, old(self).artists@.len() as int) == old(self).artists@,
                forall|x: int|
                    old(self).artists@.len() <= x < self.artists@.len() ==> {
                        &&& !(#[trigger] self.artists@[x]).following
                        &&& self.artists@[x].date_followed is None
                        &&& self.artists@[x].date_added == now
                        &&& mentions(args.artists@, self.artists@[x].name@)
                        &&& !old(self).has_artist(self.artists@[x].name@)
                    },
                self.products == old(self).products,
                self.skip_entries == old(self).skip_entries,
                self.title_skip_sequences == old(self).title_skip_sequences,
                !self.has_product(args.url@),
            decreases args.artists@.len() - k,
        {
            let ghost prev = self.artists@;
            let ghost prev_linked = linked@;
            proof {
                assert forall|y: int| 0 <= y < old(self).artists@.len() implies old(
                    self,
                ).artists@[y] == #[trigger] prev[y] by {
                    assert(prev.subrange(0, old(self).artists@.len() as int)[y] == prev[y]);
                }
            }
            match self.find_artist_by_name(&args.artists[k]) {
                Some(i) => {
                    linked.push(self.artists[i].duplicate());
                    proof {
                        assert(linked@[k as int] == self.artists@[i as int]);
                        assert forall|j: int| 0 <= j < k + 1 implies exists|x: int|
                            0 <= x < self.artists@.len() && self.artists@[x]
                                == #[trigger] linked@[j] by {
                            if j < k {
                                assert(linked@[j] == prev_linked[j]);
                            }
                        }
                    }
                },
                None => {
                    let a = Artist {
                        id: self.next_id,
                        date_added: now,
                        name: args.artists[k].clone(),
                        following: false,
                        date_followed: None,
                    };
                    linked.push(a.duplicate());
                    self.artists.push(a);
                    self.next_id = self.next_id + 1;
                    proof {
                        let n = self.artists@.len() - 1;
                        assert forall|y: int| 0 <= y < n implies #[trigger] self.artists@[y]
                            == prev[y] by {}
                        assert forall|x: int, y: int|
                            0 <= x < y < self.artists@.len() implies (
                            #[trigger] self.artists@[x]).name@ != (
                            #[trigger] self.artists@[y]).name@ by {
                            assert(prev[x] == self.artists@[x]);
                            if y < n {
                                assert(prev[y] == self.artists@[y]);
                            }
                        }
                        assert forall|x: int, y: int|
                            0 <= x < y < self.artists@.len() implies (
                            #[trigger] self.artists@[x]).id != (#[trigger] self.artists@[y]).id by {
                            assert(prev[x] == self.artists@[x]);
                            if y < n {
                                assert(prev[y] == self.artists@[y]);
                            }
                        }
                        assert(self.artists@.subrange(0, old(self).artists@.len() as int)
                            =~= prev.subrange(0, old(self).artists@.len() as int));
                        assert(mentions(args.artists@, self.artists@[n].name@)) by {
                            assert(args.artists@[k as int]@ == self.artists@[n].name@);
                        }
                        if old(self).has_artist(self.artists@[n].name@) {
                            let y = choose|y: int|
                                0 <= y < old(self).artists@.len() && #[trigger] old(
                                    self,
                                ).artists@[y].name@ == self.artists@[n].name@;
                            assert(prev[y] == old(self).artists@[y]);
                        }
                        assert forall|x: int|
                            old(self).artists@.len() <= x < self.artists@.len() implies {
                            &&& !(#[trigger] self.artists@[x]).following
                            &&& self.artists@[x].date_followed is None
                            &&& self.artists@[x].date_added == now
                            &&& mentions(args.artists@, self.artists@[x].name@)
                            &&& !old(self).has_artist(self.artists@[x].name@)
                        } by {
                            if x < n {
                                assert(prev[x] == self.artists@[x]);
                            }
                        }
                        assert forall|j: int| 0 <= j < k implies self.has_artist(
                            #[trigger] args.artists@[j]@,
                        ) by {
                            let y = choose|y: int|
                                0 <= y < prev.len() && #[trigger] prev[y].name@
                                    == args.artists@[j]@;
                            assert(self.artists@[y] == prev[y]);
                        }
                        assert(self.artists@[n].name@ == args.artists@[k as int]@);
                        assert forall|j: int| 0 <= j < k + 1 implies exists|x: int|
                            0 <= x < self.artists@.len() && self.artists@[x]
                                == #[trigger] linked@[j] by {
                            if j < k {
                                assert(linked@[j] == prev_linked[j]);
                                let x = choose|x: int|
                                    0 <= x < prev.len() && prev[x] == prev_linked[j];
                                assert(self.artists@[x] == prev[x]);
                            } else {
                                assert(self.artists@[n] == linked@[j]);
                            }
                        }
                    }
                },
            }
            k = k + 1;
        }
        let ghost linked_view = linked@;
        let ghost artists_now = self.artists@;
        proof {
            assert forall|j: int| 0 <= j < linked_view.len() implies exists|x: int|
                0 <= x < artists_now.len() && artists_now[x] == #[trigger] linked_view[j] by {
                assert(linked@[j] == linked_view[j]);
            }
        }
        let product = Product {
            id: self.next_id,
            date_added: now,
            url: args.url.clone(),
            title: args.title.clone(),
            circle: copy_text(&args.circle),
            artists: linked,
            image_url: args.image_url.clone(),
            category: args.category.clone(),
            tags: copy_strings(&args.tags),
            flags: copy_strings(&args.flags),
            price: copy_text(&args.price),
            availability: args.availability,
        };
        self.next_id = self.next_id + 1;
        let out = product.duplicate();
        let mut pos: usize = 0;
        while pos < self.products.len() && self.products[pos].date_added.micros > now.micros
            invariant
                0 <= pos <= self.products@.len(),
                forall|x: int| 0 <= x < pos ==> (#[trigger] self.products@[x]).date_added.micros
                    > now.micros,
            decreases self.products@.len() - pos,
        {
            pos = pos + 1;
        }
        let ghost prev = self.products@;
        self.products.insert(pos, product);
        proof {
            let t = self.products@;
            assert(t == prev.insert(pos as int, t[pos as int]));
            assert forall|x: int, y: int|
                0 <= x < y < t.len() implies (#[trigger] t[x]).url@ != (#[trigger] t[y]).url@ by {
                if x != pos && y != pos {
                    let x0 = if x < pos { x } else { x - 1 };
                    let y0 = if y < pos { y } else { y - 1 };
                    assert(t[x] == prev[x0] && t[y] == prev[y0]);
                } else if x == pos {
                    assert(t[y] == prev[y - 1]);
                } else {
                    assert(t[x] == prev[x]);
                }
            }
            assert forall|x: int| 0 <= x < t.len() implies (#[trigger] t[x]).id < self.next_id by {
                if x < pos {
                    assert(t[x] == prev[x]);
                } else if x > pos {
                    assert(t[x] == prev[x - 1]);
                }
            }
            assert forall|x: int, y: int|
                0 <= x < y < t.len() implies (#[trigger] t[x]).date_added.micros >= (
                #[trigger] t[y]).date_added.micros by {
                if y < pos {
                    assert(t[x] == prev[x] && t[y] == prev[y]);
                } else if y == pos {
                    assert(t[x] == prev[x]);
                } else if x == pos {
                    assert(t[y] == prev[y - 1]);
                    assert(prev[pos as int].date_added.micros <= now.micros);
                    if y - 1 > pos {
                        assert(prev[pos as int].date_added.micros >= prev[y - 1].date_added.micros);
                    }
                } else if x < pos {
                    assert(t[x] == prev[x] && t[y] == prev[y - 1]);
                } else {
                    assert(t[x] == prev[x - 1] && t[y] == prev[y - 1]);
                }
            }
            assert(t[pos as int].same_item(&out));
            assert forall|j: int| 0 <= j < out.artists@.len() implies self.artists@.contains(
                #[trigger] out.artists@[j],
            ) by {
                assert(out.artists@[j] == linked_view[j]);
                assert(self.artists@ == artists_now);
                let x = choose|x: int| 0 <= x < artists_now.len() && artists_now[x] == linked_view[j];
                assert(self.artists@[x] == out.artists@[j]);
            }
            assert(records_among(out.artists@, self.artists@));
            assert(0 <= pos <= old(self).products@.len() && t == old(self).products@.insert(
                pos as int,
                t[pos as int],
            ) && t[pos as int].same_item(&out));
        }
        Ok(out)
    }

    /// Sets the availability of the item stored under `args.url`.
    pub fn update_melonbooks_product(&mut self, args: &UpdateProductArgs) -> (r: Result<
        Product,
        UpdateProductError,
    >)
        requires
            old(self).wf(),
        ensures
            final(self).wf(),
            r is Ok <==> old(self).has_product(args.url@),
            match r {
                Err(UpdateProductError::ProductMissing { url }) => url@ == args.url@ && *final(self)
                    == *old(self),
                Err(UpdateProductError::Unknown(_)) => false,
                Ok(p) => exists|i: int|
                    0 <= i < old(self).products@.len() && (#[trigger] old(self).products@[i]).url@
                        == args.url@ && final(self).products@.len() == old(self).products@.len()
                        && (forall|k: int|
                        0 <= k < old(self).products@.len() && k != i ==> final(self).products@[k]
                            == old(self).products@[k]) && final(self).products@[i].same_item(&p)
                        && p.availability == args.availability && relisted(
                        &old(self).products@[i],
                        &p,
                    ) && final(self).artists == old(self).artists && final(self).skip_entries
                        == old(self).skip_entries && final(self).title_skip_sequences == old(
                        self,
                    ).title_skip_sequences,
            },
    {
        match self.find_product_by_url(&args.url) {
            None => Err(UpdateProductError::ProductMissing { url: args.url.clone() }),
            Some(i) => {
                let mut p = self.products.remove(i);
                p.availability = args.availability;
                let out = p.duplicate();
                self.products.insert(i, p);
                proof {
                    assert forall|x: int, y: int|
                        0 <= x < y < self.products@.len() implies (
                        #[trigger] self.products@[x]).url@ != (#[trigger] self.products@[y]).url@ by {
                        assert(x == i || self.products@[x] == old(self).products@[x]);
                        assert(y == i || self.products@[y] == old(self).products@[y]);
                    }
                    assert forall|x: int| 0 <= x < self.products@.len() implies (
                    #[trigger] self.products@[x]).id < self.next_id by {
                        assert(x == i || self.products@[x] == old(self).products@[x]);
                    }
                    assert forall|x: int, y: int|
                        0 <= x < y < self.products@.len() implies (
                        #[trigger] self.products@[x]).date_added.micros >= (
                        #[trigger] self.products@[y]).date_added.micros by {
                        assert(self.products@[x].date_added == old(self).products@[x].date_added);
                        assert(self.products@[y].date_added == old(self).products@[y].date_added);
                    }
                }
                Ok(out)
            },
        }
    }

    /// All stored items, newest first.
    pub fn get_melonbooks_products(&self) -> (r: Result<Vec<Product>, GetProductsError>)
        requires
            self.wf(),
        ensures
            r matches Ok(v) && v@.len() == self.products@.len() && (forall|k: int|
                0 <= k < v@.len() ==> (#[trigger] v@[k]).same_item(&self.products@[k]))
                && newest_first(v@),
    {
        let mut v: Vec<Product> = Vec::new();
        let mut i: usize = 0;
        while i < self.products.len()
            invariant
                0 <= i <= self.products@.len(),
                v@.len() == i,
                forall|k: int| 0 <= k < i ==> (#[trigger] v@[k]).same_item(&self.products@[k]),
            decreases self.products@.len() - i,
        {
            v.push(self.products[i].duplicate());
            i = i + 1;
        }
        assert forall|x: int, y: int|
            0 <= x < y < v@.len() implies (#[trigger] v@[x]).date_added.micros >= (
            #[trigger] v@[y]).date_added.micros by {
            assert(v@[x].same_item(&self.products@[x]));
            assert(v@[y].same_item(&self.products@[y]));
        }
        Ok(v)
    }

    fn is_attributed(p: &Product, artist_id: i32) -> (r: bool)
        ensures
            r == attributed_to(*p, artist_id),
    {
        let mut j: usize = 0;
        while j < p.artists.len()
            invariant
                0 <= j <= p.artists@.len(),
                forall|k: int| 0 <= k < j ==> (#[trigger] p.artists@[k]).id != artist_id,
            decreases p.artists@.len() - j,
        {
            if p.artists[j].id == artist_id {
                return true;
            }
            j = j + 1;
        }
        false
    }

    /// The stored items attributed to the artist with id `artist_id`, newest first.
    pub fn get_melonbooks_products_by_artist(&self, artist_id: i32) -> (r: Result<
        Vec<Product>,
        GetProductsError,
    >)
        requires
            self.wf(),
        ensures
            r matches Ok(v) && newest_first(v@),
            r matches Ok(v) && v@.len() == self.products@.filter(by_artist(artist_id)).len()
                && forall|k: int|
                0 <= k < v@.len() ==> (#[trigger] v@[k]).same_item(
                    &self.products@.filter(by_artist(artist_id))[k],
                ),
    {
        let mut v: Vec<Product> = Vec::new();
        let mut i: usize = 0;
        while i < self.products.len()
            invariant
                0 <= i <= self.products@.len(),
                v@.len() == self.products@.subrange(0, i as int).filter(by_artist(artist_id)).len(),
                forall|k: int|
                    0 <= k < v@.len() ==> (#[trigger] v@[k]).same_item(
                        &self.products@.subrange(0, i as int).filter(by_artist(artist_id))[k],
                    ),
                self.wf(),
                newest_first(v@),
                v@.len() > 0 ==> forall|y: int|
                    i <= y < self.products@.len() ==> v@.last().date_added.micros >= (
                    #[trigger] self.products@[y]).date_added.micros,
            decreases self.products@.len() - i,
        {
            let ghost p = self.products@[i as int];
            proof {
                assert(self.products@.subrange(0, i as int + 1) == self.products@.subrange(
                    0,
                    i as int,
                ).push(p));
                self.products@.subrange(0, i as int).lemma_filter_push(p, by_artist(artist_id));
            }
            let ghost before = v@;
            if Self::is_attributed(&self.products[i], artist_id) {
                v.push(self.products[i].duplicate());
                proof {
                    assert forall|x: int, y: int|
                        0 <= x < y < v@.len() implies (#[trigger] v@[x]).date_added.micros >= (
                        #[trigger] v@[y]).date_added.micros by {
                        if y == v@.len() - 1 {
                            assert(v@[x] == before[x]);
                            if x < before.len() - 1 {
                                assert(before[x].date_added.micros >= before.last().date_added.micros);
                            }
                        } else {
                            assert(v@[x] == before[x] && v@[y] == before[y]);
                        }
                    }
                }
            }
            i = i + 1;
        }
        proof {
            assert(self.products@.subrange(0, self.products@.len() as int) == self.products@);
        }
        Ok(v)
    }

    /// Remembers `url` as rejected, with the names it was attributed to.
    pub fn add_melonbooks_skipping_url(&mut self, url: &str, artists: &Vec<String>) -> (r: Result<
        (),
        AddSkippingUrlError,
    >)
        requires
            old(self).wf(),
        ensures
            final(self).wf(),
            r is Ok,
            final(self).skip_entries@.len() == old(self).skip_entries@.len() + 1,
            final(self).skip_entries@.subrange(0, old(self).skip_entries@.len() as int) == old(
                self,
            ).skip_entries@,
            final(self).skip_entries@.last().url@ == url@,
            final(self).skip_entries@.last().artists@ == artists@,
            final(self).artists == old(self).artists,
            final(self).products == old(self).products,
            final(self).title_skip_sequences == old(self).title_skip_sequences,
    {
        let e = SkipEntry { url: String::from_str(url), artists: copy_strings(artists) };
        self.skip_entries.push(e);
        assert(self.skip_entries@.subrange(0, old(self).skip_entries@.len() as int) =~= old(
            self,
        ).skip_entries@);
        Ok(())
    }

    /// The urls on the skip list.
    pub fn get_melonbooks_skipping_urls(&self) -> (r: Result<Vec<String>, GetSkippingUrlsError>)
        ensures
            r matches Ok(v) && v@ == self.skip_urls(),
    {
        let mut v: Vec<String> = Vec::new();
        let mut i: usize = 0;
        while i < self.skip_entries.len()
            invariant
                0 <= i <= self.skip_entries@.len(),
                v@ == self.skip_entries@.subrange(0, i as int).map_values(skip_url_of()),
            decreases self.skip_entries@.len() - i,
        {
            v.push(self.skip_entries[i].url.clone());
            i = i + 1;
            assert(v@ =~= self.skip_entries@.subrange(0, i as int).map_values(skip_url_of()));
        }
        assert(self.skip_entries@.subrange(0, i as int) == self.skip_entries@);
        Ok(v)
    }

    pub fn add_melonbooks_title_skip_sequence(&mut self, sequence: &str) -> (r: Result<
        (),
        AddTitleSkippSequenceError,
    >)
        requires
            old(self).wf(),
        ensures
            final(self).wf(),
            r is Ok,
            final(self).title_skip_sequences@.len() == old(self).title_skip_sequences@.len() + 1,
            final(self).title_skip_sequences@.subrange(
                0,
                old(self).title_skip_sequences@.len() as int,
            ) == old(self).title_skip_sequences@,
            final(self).title_skip_sequences@.last()@ == sequence@,
            final(self).artists == old(self).artists,
            final(self).products == old(self).products,
            final(self).skip_entries == old(self).skip_entries,
    {
        self.title_skip_sequences.push(String::from_str(sequence));
        assert(self.title_skip_sequences@.subrange(0, old(self).title_skip_sequences@.len() as int)
            =~= old(self).title_skip_sequences@);
        Ok(())
    }

    /// Removes every copy of `sequence`; fails, changing nothing, where there is none.
    pub fn delete_melonbooks_title_skip_sequence(&mut self, sequence: &str) -> (r: Result<
        (),
        DeleteTitleSkippSequenceError,
    >)
        requires
            old(self).wf(),
        ensures
            final(self).wf(),
            r is Ok <==> mentions(old(self).title_skip_sequences@, sequence@),
            r is Ok ==> final(self).title_skip_sequences@ == old(
                self,
            ).title_skip_sequences@.filter(other_than(sequence@)),
            r is Err ==> *final(self) == *old(self),
            final(self).artists == old(self).artists,
            final(self).products == old(self).products,
            final(self).skip_entries == old(self).skip_entries,
    {
        let target = String::from_str(sequence);
        if !crate::reconcile::contains_name(self.title_skip_sequences.as_slice(), &target) {
            return Err(
                DeleteTitleSkippSequenceError::Unknown(String::from_str("no such title skip sequence")),
            );
        }
        let mut rest: Vec<String> = Vec::new();
        core::mem::swap(&mut rest, &mut self.title_skip_sequences);
        let ghost all = rest@;
        let n: usize = rest.len();
        let mut i: usize = 0;
        while i < n
            invariant
                0 <= i <= n,
                n == all.len(),
                all == old(self).title_skip_sequences@,
                rest@ == all.subrange(i as int, n as int),
                self.title_skip_sequences@ == all.subrange(0, i as int).filter(
                    other_than(sequence@),
                ),
                target@ == sequence@,
                self.artists == old(self).artists,
                self.products == old(self).products,
                self.skip_entries == old(self).skip_entries,
                self.next_id == old(self).next_id,
            decreases n - i,
        {
            let t = rest.remove(0);
            proof {
                assert(t == all[i as int]);
                assert(all.subrange(0, i as int + 1) == all.subrange(0, i as int).push(t));
                all.subrange(0, i as int).lemma_filter_push(t, other_than(sequence@));
            }
            if !t.eq(&target) {
                self.title_skip_sequences.push(t);
            }
            i = i + 1;
            assert(rest@ =~= all.subrange(i as int, n as int));
        }
        proof {
            assert(all.subrange(0, n as int) == all);
        }
        Ok(())
    }

    pub fn get_melonbooks_title_skip_sequences(&self) -> (r: Result<
        Vec<String>,
        GetTitleSkippSequencesError,
    >)
        ensures
            r matches Ok(v) && v@ == self.title_skip_sequences@,
    {
        Ok(copy_strings(&self.title_skip_sequences))
    }
}

/// Every record of `linked` is one of `records`.
pub open spec fn records_among(linked: Seq<Artist>, records: Seq<Artist>) -> bool {
    forall|k: int| 0 <= k < linked.len() ==> records.contains(#[trigger] linked[k])
}

/// Items are ordered newest first, by the time they were added.
pub open spec fn newest_first(s: Seq<Product>) -> bool {
    forall|i: int, j: int|
        0 <= i < j < s.len() ==> (#[trigger] s[i]).date_added.micros >= (
        #[trigger] s[j]).date_added.micros
}

/// Some artist record of `p` has id `artist_id`.
pub open spec fn attributed_to(p: Product, artist_id: i32) -> bool {
    exists|j: int| 0 <= j < p.artists@.len() && (#[trigger] p.artists@[j]).id == artist_id
}

pub open spec fn by_artist(artist_id: i32) -> spec_fn(Product) -> bool {
    |p: Product| attributed_to(p, artist_id)
}

pub open spec fn other_than(sequence: Seq<char>) -> spec_fn(String) -> bool {
    |t: String| t@ != sequence
}

/// `p` is `before` with only its availability changed.
pub open spec fn relisted(before: &Product, p: &Product) -> bool {
    &&& p.id == before.id
    &&& p.date_added == before.date_added
    &&& p.url == before.url
    &&& p.title == before.title
    &&& p.circle == before.circle
    &&& p.artists@ == before.artists@
    &&& p.image_url == before.image_url
    &&& p.category == before.category
    &&& p.tags@ == before.tags@
    &&& p.flags@ == before.flags@
    &&& p.price == before.price
}

/// Following an artist takes every skip entry attributed to it off the skip
/// list: afterwards no entry names the artist, and a url whose entries all
/// named it is no longer skipped.
pub proof fn lemma_follow_clears_skips(
    before: MemoryStore,
    after: MemoryStore,
    name: Seq<char>,
    now: Timestamp,
    u: Seq<char>,
)
    requires
        MemoryStore::follow_outcome(before, after, name, now, Ok(())),
        forall|k: int|
            0 <= k < before.skip_entries@.len() && (#[trigger] before.skip_entries@[k]).url@ == u
                ==> mentions(before.skip_entries@[k].artists@, name),
    ensures
        forall|k: int|
            0 <= k < after.skip_entries@.len() ==> !mentions(
                (#[trigger] after.skip_entries@[k]).artists@,
                name,
            ),
        !mentions(after.skip_urls(), u),
{
    broadcast use vstd::seq_lib::group_filter_ensures;

    let kept = before.skip_entries@.filter(unattributed(name));
    assert forall|k: int| 0 <= k < after.skip_entries@.len() implies !mentions(
        (#[trigger] after.skip_entries@[k]).artists@,
        name,
    ) by {
        assert(unattributed(name)(kept[k]));
    }
    if mentions(after.skip_urls(), u) {
        let k = choose|k: int|
            0 <= k < after.skip_urls().len() && #[trigger] after.skip_urls()[k]@ == u;
        let e = kept[k];
        assert(kept.contains(e));
        before.skip_entries@.lemma_filter_contains_rev(unattributed(name), e);
        let j = choose|j: int| 0 <= j < before.skip_entries@.len() && before.skip_entries@[j] == e;
        assert(before.skip_entries@[j].url@ == u);
    }
}

/// Creating an item twice under the same url: the second call fails as a
/// duplicate and leaves the store, with the item that the first call stored,
/// as it was.
pub proof fn lemma_create_twice(
    s0: MemoryStore,
    s1: MemoryStore,
    s2: MemoryStore,
    args: CreateProductArgs,
    now1: Timestamp,
    now2: Timestamp,
    p: Product,
    r2: Result<Product, CreateProductError>,
)
    requires
        MemoryStore::create_outcome(s0, s1, args, now1, Ok(p)),
        MemoryStore::create_outcome(s1, s2, args, now2, r2),
    ensures
        r2 matches Err(CreateProductError::DuplicateProduct { url, .. }) && url@ == args.url@,
        s2 == s1,
        exists|k: int| 0 <= k < s2.products@.len() && (#[trigger] s2.products@[k]).same_item(&p),
{
    let k = choose|k: int|
        0 <= k <= s0.products@.len() && s1.products@ == s0.products@.insert(k, s1.products@[k])
            && s1.products@[k].same_item(&p);
    assert(s1.products@[k].url@ == args.url@);
    assert(s1.has_product(args.url@));
}

} // verus!
