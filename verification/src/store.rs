//! The records of all players, found by the player's identity.
//!
//! A record comes into being when its player is first looked up for
//! writing, and is never removed. The players are kept in the order in
//! which they first came.
use vstd::prelude::*;
use crate::ids::ActorId;
use crate::session::{SessionInfo, SessionInfoView};

verus! {

/// A map from players to their records.
pub struct SessionStore {
    /// The known players, each once.
    players: Vec<ActorId>,
    /// At each place the record of the player at that place.
    records: Vec<SessionInfo>,
}

impl View for SessionStore {
    type V = Map<ActorId, SessionInfoView>;

    /// The record of each known player.
    closed spec fn view(&self) -> Map<ActorId, SessionInfoView> {
        Map::new(
            |user: ActorId| self.players@.contains(user),
            |user: ActorId| self.records[self.players@.index_of(user)]@,
        )
    }
}

impl SessionStore {
    /// Each player stands once among the players and has one record.
    #[verifier::type_invariant]
    closed spec fn inv(self) -> bool {
        &&& self.players.len() == self.records.len()
        &&& self.players@.no_duplicates()
    }

    /// The known players, in the order in which they first came.
    pub closed spec fn users(self) -> Seq<ActorId> {
        self.players@
    }

    /// The known players are those that have a record.
    pub proof fn lemma_users_are_domain(self)
        ensures
            forall|user: ActorId| self@.contains_key(user) <==> self.users().contains(user),
    {
    }

    /// A store without players.
    pub fn new() -> (r: SessionStore)
        ensures
            r@ == Map::<ActorId, SessionInfoView>::empty(),
            r.users() == Seq::<ActorId>::empty(),
    {
        let r = SessionStore { players: Vec::new(), records: Vec::new() };
        assert(r@ =~= Map::<ActorId, SessionInfoView>::empty());
        r
    }

    /// The number of known players, none of whom is counted twice.
    pub fn len(&self) -> (r: usize)
        ensures
            r == self.users().len(),
            self.users().no_duplicates(),
    {
        proof {
            use_type_invariant(self);
        }
        self.players.len()
    }

    /// The place of `user` among the players, if the player is known.
    fn find(&self, user: &ActorId) -> (r: Option<usize>)
        ensures
            match r {
                Some(i) => i < self.players.len() && self.players[i as int] == *user,
                None => !self.players@.contains(*user),
            },
    {
        let mut i: usize = 0;
        while i < self.players.len()
            invariant
                i <= self.players.len(),
                forall|j: int| 0 <= j < i ==> self.players[j] != *user,
            decreases self.players.len() - i,
        {
            if self.players[i] == *user {
                return Some(i);
            }
            i += 1;
        }
        None
    }

    /// At place `i` stands the record that the view gives to the player at
    /// place `i`.
    proof fn lemma_record_at(self, i: int)
        requires
            self.inv(),
            0 <= i < self.players.len(),
        ensures
            self@.contains_key(self.players[i]),
            self@[self.players[i]] == self.records[i]@,
    {
        let user = self.players[i];
        let k = self.players@.index_of(user);
        assert(self.players@[i] == user);
        assert(0 <= k < self.players.len() && self.players@[k] == user);
    }

    /// Writing the record at place `i` changes the view at its player and
    /// nowhere else.
    proof fn lemma_rewrite(self, after: SessionStore, i: int)
        requires
            self.inv(),
            0 <= i < self.players.len(),
            after.players == self.players,
            after.records@ == self.records@.update(i, after.records[i]),
        ensures
            after@ == self@.insert(self.players[i], after.records[i]@),
    {
        self.lemma_record_at(i);
        assert forall|user: ActorId| #[trigger] after@.contains_key(user) implies after@[user]
            == self@.insert(self.players[i], after.records[i]@)[user] by {
            let k = self.players@.index_of(user);
            assert(self.players@[k] == user);
        }
        assert(after@ =~= self@.insert(self.players[i], after.records[i]@));
    }

    /// The record of `user`, if the player is known.
    pub fn get(&self, user: &ActorId) -> (r: Option<&SessionInfo>)
        ensures
            match r {
                Some(info) => self@.contains_key(*user) && info@ == self@[*user],
                None => !self@.contains_key(*user),
            },
    {
        proof {
            use_type_invariant(self);
        }
        match self.find(user) {
            Some(i) => {
                proof {
                    self.lemma_record_at(i as int);
                }
                Some(&self.records[i])
            },
            None => None,
        }
    }

    /// The record of `user` for writing, if the player is known. What is
    /// written through the reference becomes the player's record; nothing
    /// else changes.
    pub fn get_mut(&mut self, user: &ActorId) -> (r: Option<&mut SessionInfo>)
        ensures
            match r {
                Some(info) => {
                    &&& old(self)@.contains_key(*user)
                    &&& info@ == old(self)@[*user]
                    &&& final(self)@ == old(self)@.insert(*user, final(info)@)
                },
                None => !old(self)@.contains_key(*user) && final(self)@ == old(self)@,
            },
            final(self).users() == old(self).users(),
            final(self).users().no_duplicates(),
    {
        proof {
            use_type_invariant(&*self);
        }
        match self.find(user) {
            Some(i) => {
                let ghost before = *self;
                let info = &mut self.records[i];
                proof {
                    before.lemma_record_at(i as int);
                    before.lemma_rewrite(after_borrow(*self), i as int);
                }
                Some(info)
            },
            None => None,
        }
    }

    /// Makes `user` known, with the record of a player never heard of, and
    /// says at which place the player stands.
    fn enrol(&mut self, user: ActorId) -> (i: usize)
        requires
            !old(self).players@.contains(user),
        ensures
            final(self).players@ == old(self).players@.push(user),
            final(self).records@.len() == old(self).records@.len() + 1,
            forall|j: int|
                0 <= j < old(self).records@.len() ==> final(self).records[j] == old(
                    self,
                ).records[j],
            i == old(self).players@.len(),
            final(self).records[i as int]@ == SessionInfoView::init(),
    {
        proof {
            use_type_invariant(&*self);
        }
        let mut taken = SessionStore::new();
        core::mem::swap(self, &mut taken);
        let SessionStore { players: mut players, records: mut records } = taken;
        let i: usize = players.len();
        players.push(user);
        records.push(SessionInfo::default());
        *self = SessionStore { players, records };
        i
    }

    /// The record of `user` for writing. A player never heard of gets a
    /// fresh record first and is from then on the last of the known
    /// players. What is written through the reference becomes the player's
    /// record; nothing else changes.
    pub fn get_or_create(&mut self, user: ActorId) -> (r: &mut SessionInfo)
        ensures
            r@ == if old(self)@.contains_key(user) {
                old(self)@[user]
            } else {
                SessionInfoView::init()
            },
            final(self)@ == old(self)@.insert(user, final(r)@),
            final(self).users() == if old(self)@.contains_key(user) {
                old(self).users()
            } else {
                old(self).users().push(user)
            },
            final(self).users().no_duplicates(),
    {
        proof {
            use_type_invariant(&*self);
        }
        let ghost start = *self;
        let i: usize = match self.find(&user) {
            Some(i) => i,
            None => self.enrol(user),
        };
        let ghost before = *self;
        proof {
            use_type_invariant(&*self);
            before.lemma_record_at(i as int);
            if start@.contains_key(user) {
                assert(before@ == start@);
            } else {
                start.lemma_enrolled(before, user);
            }
        }
        let info = &mut self.records[i];
        proof {
            before.lemma_rewrite(after_borrow(*self), i as int);
            assert(before@.insert(user, final(info)@) =~= start@.insert(user, final(info)@));
        }
        info
    }

    /// A player who joins at the end gets a record, and the others keep
    /// theirs.
    proof fn lemma_enrolled(self, after: SessionStore, user: ActorId)
        requires
            self.inv(),
            after.inv(),
            !self.players@.contains(user),
            after.players@ == self.players@.push(user),
            after.records@.len() == self.records@.len() + 1,
            forall|j: int| 0 <= j < self.records@.len() ==> after.records[j] == self.records[j],
        ensures
            after@ == self@.insert(user, after.records[self.players@.len() as int]@),
    {
        let n = self.players@.len() as int;
        after.lemma_record_at(n);
        assert forall|other: ActorId| #[trigger] self@.contains_key(other) implies after@[other]
            == self@[other] && after@.contains_key(other) by {
            let k = self.players@.index_of(other);
            assert(self.players@[k] == other);
            assert(after.players@[k] == other);
            after.lemma_record_at(k);
            self.lemma_record_at(k);
        }
        assert forall|other: ActorId| #[trigger]
            after@.contains_key(other) && other != user implies self@.contains_key(other) by {
            let k = after.players@.index_of(other);
            assert(after.players@[k] == other);
            assert(k < n);
            assert(self.players@[k] == other);
        }
        assert(after@ =~= self@.insert(user, after.records[n]@));
    }

    /// Every known player with a copy of the player's record, in the order
    /// in which the players first came.
    pub fn to_vec(&self) -> (r: Vec<(ActorId, SessionInfo)>)
        ensures
            r@.len() == self.users().len(),
            forall|i: int|
                0 <= i < r@.len() ==> r[i].0 == self.users()[i] && r[i].1@ == self@[self.users()[i]],
            self.users().no_duplicates(),
    {
        proof {
            use_type_invariant(self);
        }
        let mut listing: Vec<(ActorId, SessionInfo)> = Vec::new();
        let mut i: usize = 0;
        while i < self.players.len()
            invariant
                self.inv(),
                i <= self.players.len(),
                listing@.len() == i,
                forall|j: int|
                    0 <= j < i ==> listing[j].0 == self.players[j] && listing[j].1@
                        == self@[self.players[j]],
            decreases self.players.len() - i,
        {
            proof {
                self.lemma_record_at(i as int);
            }
            listing.push((self.players[i], self.records[i].clone()));
            i += 1;
        }
        listing
    }
}

} // verus!
