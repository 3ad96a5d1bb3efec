//! The registry's state: the counter, the club table and the membership
//! table, with the reads and writes that the operations are built from.

use crate::types::{
    AccountId, Club, ClubId, ClubMemberMetadata, ClubView, Config, MemberView,
};
use vstd::prelude::*;

verus! {

/// What a `Pallet` holds, as mathematical values.
pub ghost struct PalletView {
    /// The constants it was set up with.
    pub config: Config,
    /// The identifier that the next club will get.
    pub next_club_id: ClubId,
    /// The clubs, by identifier.
    pub clubs: Map<ClubId, ClubView>,
    /// The member records, by club and account.
    pub members: Map<(ClubId, AccountId), MemberView>,
}

impl PalletView {
    /// What holds of every registry: the clubs on record are those with an
    /// identifier below the counter, every member belongs to a club on
    /// record, and no name is longer than the configured limit.
    pub open spec fn inv(self) -> bool {
        &&& forall|id: ClubId| #[trigger] self.clubs.contains_key(id) <==> id < self.next_club_id
        &&& forall|id: ClubId| #[trigger]
            self.clubs.contains_key(id) ==> self.clubs[id].name.len() <= self.config.string_limit
        &&& forall|key: (ClubId, AccountId)| #[trigger]
            self.members.contains_key(key) ==> {
                &&& key.0 < self.next_club_id
                &&& self.members[key].name.len() <= self.config.string_limit
            }
    }

    /// The registry before anything happened.
    pub open spec fn initial(config: Config) -> PalletView {
        PalletView { config, next_club_id: 0, clubs: Map::empty(), members: Map::empty() }
    }
}

/// A copy of a name, byte for byte.
pub fn copy_name(name: &Vec<u8>) -> (r: Vec<u8>)
    ensures
        r@ == name@,
{
    let r = name.clone();
    assert(r@ =~= name@);
    r
}

/// One row of the membership table.
struct MemberRecord {
    club_id: ClubId,
    account: AccountId,
    data: ClubMemberMetadata,
}

/// The registry of clubs and memberships.
pub struct Pallet {
    config: Config,
    next_club_id: ClubId,
    clubs: Vec<Club>,
    members: Vec<MemberRecord>,
}

impl View for Pallet {
    type V = PalletView;

    closed spec fn view(&self) -> PalletView {
        PalletView {
            config: self.config,
            next_club_id: self.next_club_id,
            clubs: Map::new(
                |id: ClubId| (id as int) < self.clubs@.len(),
                |id: ClubId| self.clubs@[id as int]@,
            ),
            members: Map::new(
                |key: (ClubId, AccountId)| exists|i: int| self.row_is(i, key),
                |key: (ClubId, AccountId)| self.members@[choose|i: int| self.row_is(i, key)].data@,
            ),
        }
    }
}

impl Pallet {
    /// Row `i` of the membership table is the record of `key`.
    spec fn row_is(&self, i: int, key: (ClubId, AccountId)) -> bool {
        &&& 0 <= i < self.members@.len()
        &&& self.members@[i].club_id == key.0
        &&& self.members@[i].account == key.1
    }

    /// The representation is sound: one club per identifier below the
    /// counter, at most one row per club and account, names within the limit.
    pub closed spec fn wf(&self) -> bool {
        &&& self.clubs@.len() == self.next_club_id
        &&& forall|i: int|
            0 <= i < self.clubs@.len() ==> (#[trigger] self.clubs@[i]).name@.len()
                <= self.config.string_limit
        &&& forall|i: int|
            0 <= i < self.members@.len() ==> {
                &&& (#[trigger] self.members@[i]).club_id < self.next_club_id
                &&& self.members@[i].data.name@.len() <= self.config.string_limit
            }
        &&& forall|i: int, j: int|
            0 <= i < j < self.members@.len() ==> !(#[trigger] self.members@[i].club_id
                == #[trigger] self.members@[j].club_id && self.members@[i].account
                == self.members@[j].account)
    }

    /// A sound registry satisfies the invariant of its view.
    pub proof fn lemma_inv(&self)
        requires
            self.wf(),
        ensures
            self@.inv(),
    {
        assert forall|key: (ClubId, AccountId)| #[trigger] self@.members.contains_key(key) implies {
            &&& key.0 < self@.next_club_id
            &&& self@.members[key].name.len() <= self@.config.string_limit
        } by {
            let i = choose|i: int| self.row_is(i, key);
            assert(self.row_is(i, key));
        }
    }

    /// An empty registry with the given constants.
    pub fn new(config: Config) -> (r: Pallet)
        ensures
            r.wf(),
            r@ == PalletView::initial(config),
    {
        let r = Pallet { config, next_club_id: 0, clubs: Vec::new(), members: Vec::new() };
        assert(r@.clubs =~= Map::empty());
        assert(r@.members =~= Map::empty());
        r
    }

    /// The row of the membership table that records `key` is the one that the view shows.
    proof fn lemma_row(&self, i: int, key: (ClubId, AccountId))
        requires
            self.wf(),
            self.row_is(i, key),
        ensures
            self@.members.contains_key(key),
            self@.members[key] == self.members@[i].data@,
    {
        let j = choose|j: int| self.row_is(j, key);
        assert(self.row_is(j, key));
        assert(i == j);
    }

    /// Where the record of `account` in club `club_id` stands, if there is one.
    fn find_member(&self, club_id: ClubId, account: AccountId) -> (r: Option<usize>)
        ensures
            match r {
                Some(i) => self.row_is(i as int, (club_id, account)),
                None => forall|i: int| !self.row_is(i, (club_id, account)),
            },
    {
        let mut i: usize = 0;
        while i < self.members.len()
            invariant
                i <= self.members@.len(),
                forall|j: int| 0 <= j < i ==> !self.row_is(j, (club_id, account)),
            decreases self.members@.len() - i,
        {
            if self.members[i].club_id == club_id && self.members[i].account == account {
                return Some(i);
            }
            i += 1;
        }
        None
    }

    /// The club with the identifier `id`, if there is one.
    pub fn club(&self, id: ClubId) -> (r: Option<Club>)
        requires
            self.wf(),
        ensures
            r is Some <==> self@.clubs.contains_key(id),
            r matches Some(club) ==> club@ == self@.clubs[id],
    {
        if id < self.next_club_id {
            let found = &self.clubs[id as usize];
            Some(Club { name: copy_name(&found.name), fee: found.fee, owner: found.owner })
        } else {
            None
        }
    }

    /// What is recorded of `account` in club `club_id`, if anything.
    pub fn member(&self, club_id: ClubId, account: AccountId) -> (r: Option<ClubMemberMetadata>)
        requires
            self.wf(),
        ensures
            r is Some <==> self@.members.contains_key((club_id, account)),
            r matches Some(data) ==> data@ == self@.members[(club_id, account)],
    {
        match self.find_member(club_id, account) {
            Some(i) => {
                proof {
                    self.lemma_row(i as int, (club_id, account));
                }
                let found = &self.members[i].data;
                Some(ClubMemberMetadata { name: copy_name(&found.name), status: found.status })
            },
            None => None,
        }
    }

    /// Records `club` under the counter's value and moves the counter to `next`.
    pub(crate) fn insert_club(&mut self, club: Club, next: ClubId)
        requires
            old(self).wf(),
            next == old(self)@.next_club_id + 1,
            club@.name.len() <= old(self)@.config.string_limit,
        ensures
            final(self).wf(),
            final(self)@ == (PalletView {
                next_club_id: next,
                clubs: old(self)@.clubs.insert(old(self)@.next_club_id, club@),
                ..old(self)@
            }),
    {
        self.clubs.push(club);
        self.next_club_id = next;
        proof {
            assert(final(self)@.clubs =~= old(self)@.clubs.insert(old(self)@.next_club_id, club@));
            final(self).lemma_same_rows(old(self));
        }
    }

    /// The membership table shows the same records before and after a
    /// change that left its rows alone.
    proof fn lemma_same_rows(&self, other: &Pallet)
        requires
            self.wf(),
            other.wf(),
            self.members@ == other.members@,
        ensures
            self@.members == other@.members,
    {
        assert forall|key: (ClubId, AccountId)| #[trigger]
            self@.members.contains_key(key) == other@.members.contains_key(key) && (
            self@.members.contains_key(key) ==> self@.members[key] == other@.members[key]) by {
            if self@.members.contains_key(key) {
                let i = choose|i: int| self.row_is(i, key);
                assert(other.row_is(i, key));
                self.lemma_row(i, key);
                other.lemma_row(i, key);
            }
            if other@.members.contains_key(key) {
                let i = choose|i: int| other.row_is(i, key);
                assert(self.row_is(i, key));
            }
        }
        assert(self@.members =~= other@.members);
    }

    /// Replaces the club recorded under `id`.
    pub(crate) fn set_club(&mut self, id: ClubId, club: Club)
        requires
            old(self).wf(),
            old(self)@.clubs.contains_key(id),
            club@.name.len() <= old(self)@.config.string_limit,
        ensures
            final(self).wf(),
            final(self)@ == (PalletView {
                clubs: old(self)@.clubs.insert(id, club@),
                ..old(self)@
            }),
    {
        self.clubs[id as usize] = club;
        proof {
            assert(final(self)@.clubs =~= old(self)@.clubs.insert(id, club@));
            final(self).lemma_same_rows(old(self));
        }
    }

    /// Records `data` for `account` in club `club_id`, in place of what was
    /// recorded for them before, if anything.
    pub(crate) fn set_member(&mut self, club_id: ClubId, account: AccountId, data: ClubMemberMetadata)
        requires
            old(self).wf(),
            old(self)@.clubs.contains_key(club_id),
            data@.name.len() <= old(self)@.config.string_limit,
        ensures
            final(self).wf(),
            final(self)@ == (PalletView {
                members: old(self)@.members.insert((club_id, account), data@),
                ..old(self)@
            }),
    {
        let row = MemberRecord { club_id, account, data };
        let found = self.find_member(club_id, account);
        let ghost at: int = match found {
            Some(i) => i as int,
            None => self.members@.len() as int,
        };
        match found {
            Some(i) => {
                self.members[i] = row;
            },
            None => {
                self.members.push(row);
            },
        }
        proof {
            let key = (club_id, account);
            assert(final(self).row_is(at, key));
            assert((club_id as int) < old(self).clubs@.len());
            assert forall|i: int, j: int| 0 <= i < j < final(self).members@.len() implies !(
            #[trigger] final(self).members@[i].club_id == #[trigger] final(self).members@[j].club_id
                && final(self).members@[i].account == final(self).members@[j].account) by {
                if i != at && j != at {
                    assert(final(self).members@[i] == old(self).members@[i]);
                    assert(final(self).members@[j] == old(self).members@[j]);
                } else if i == at {
                    assert(final(self).members@[j] == old(self).members@[j]);
                    assert(!old(self).row_is(j, key) || old(self).row_is(at, key));
                } else {
                    assert(final(self).members@[i] == old(self).members@[i]);
                    assert(!old(self).row_is(i, key) || old(self).row_is(at, key));
                }
            }
            assert(final(self).wf());
            assert(final(self)@.clubs =~= old(self)@.clubs);
            assert forall|k: (ClubId, AccountId)| #[trigger]
                final(self)@.members.contains_key(k) == old(self)@.members.insert(key, data@).contains_key(k)
                && (final(self)@.members.contains_key(k) ==> final(self)@.members[k]
                == old(self)@.members.insert(key, data@)[k]) by {
                if k == key {
                    final(self).lemma_row(at, key);
                } else {
                    if old(self)@.members.contains_key(k) {
                        let i = choose|i: int| old(self).row_is(i, k);
                        assert(final(self).row_is(i, k));
                        final(self).lemma_row(i, k);
                        old(self).lemma_row(i, k);
                    }
                    if final(self)@.members.contains_key(k) {
                        let i = choose|i: int| final(self).row_is(i, k);
                        assert(old(self).row_is(i, k));
                    }
                }
            }
            assert(final(self)@.members =~= old(self)@.members.insert(key, data@));
        }
    }

    /// The constants that the registry was set up with.
    pub fn config(&self) -> (r: Config)
        ensures
            r == self@.config,
    {
        self.config
    }

    /// The identifier that the next club will get.
    pub fn next_club_id(&self) -> (r: ClubId)
        ensures
            r == self@.next_club_id,
    {
        self.next_club_id
    }
}

} // verus!
