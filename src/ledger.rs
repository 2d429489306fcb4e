//! The player table: one record per (round id, account) pair.

use vstd::prelude::*;
use crate::types::{AccountId, Player};

verus! {

/// A key of the player table.
pub type PlayerKey = (u64, AccountId);

/// One row of the player table.
pub struct PlayerEntry {
    pub game_id: u64,
    pub account: AccountId,
    pub player: Player,
}

/// Player records keyed by round id and account, each key held at most once.
pub struct PlayerTable {
    entries: Vec<PlayerEntry>,
    contents: Ghost<Map<PlayerKey, Player>>,
}

impl View for PlayerTable {
    type V = Map<PlayerKey, Player>;

    closed spec fn view(&self) -> Map<PlayerKey, Player> {
        self.contents@
    }
}

impl PlayerTable {
    spec fn key_at(&self, i: int) -> PlayerKey {
        (self.entries@[i].game_id, self.entries@[i].account)
    }

    /// Each row stands for its key's record, and each record has a row.
    pub closed spec fn wf(&self) -> bool {
        &&& forall|i: int|
            #![trigger self.entries@[i]]
            0 <= i < self.entries@.len() ==> self.contents@.contains_key(self.key_at(i))
                && self.contents@[self.key_at(i)] == self.entries@[i].player
        &&& forall|k: PlayerKey|
            #![trigger self.contents@.contains_key(k)]
            self.contents@.contains_key(k) ==> exists|i: int|
                0 <= i < self.entries@.len() && self.key_at(i) == k
        &&& forall|i: int, j: int|
            #![trigger self.entries@[i], self.entries@[j]]
            0 <= i < self.entries@.len() && 0 <= j < self.entries@.len() && i != j
                ==> self.key_at(i) != self.key_at(j)
    }

    /// An empty table.
    pub fn new() -> (r: PlayerTable)
        ensures
            r.wf(),
            r@ == Map::<PlayerKey, Player>::empty(),
    {
        PlayerTable { entries: Vec::new(), contents: Ghost(Map::empty()) }
    }

    /// The row that holds a key, if any.
    fn find(&self, game_id: u64, account: &AccountId) -> (r: Option<usize>)
        requires
            self.wf(),
        ensures
            match r {
                Some(i) => i < self.entries@.len() && self.key_at(i as int) == (game_id, *account),
                None => !self@.contains_key((game_id, *account)),
            },
    {
        let mut i: usize = 0;
        while i < self.entries.len()
            invariant
                self.wf(),
                0 <= i <= self.entries@.len(),
                forall|j: int|
                    #![trigger self.entries@[j]]
                    0 <= j < i ==> self.key_at(j) != (game_id, *account),
            decreases self.entries@.len() - i,
        {
            let e = &self.entries[i];
            if e.game_id == game_id && e.account.same(account) {
                return Some(i);
            }
            i = i + 1;
        }
        proof {
            if self@.contains_key((game_id, *account)) {
                let j = choose|j: int|
                    0 <= j < self.entries@.len() && self.key_at(j) == (game_id, *account);
                assert(self.entries@[j] == self.entries@[j]);
            }
        }
        None
    }

    /// The record under a key.
    pub fn get(&self, game_id: u64, account: &AccountId) -> (r: Option<Player>)
        requires
            self.wf(),
        ensures
            r == (if self@.contains_key((game_id, *account)) {
                Some(self@[(game_id, *account)])
            } else {
                None
            }),
    {
        match self.find(game_id, account) {
            Some(i) => {
                assert(self.entries@[i as int] == self.entries@[i as int]);
                Some(self.entries[i].player)
            },
            None => None,
        }
    }

    /// Stores a record under a key, replacing any record held there.
    pub fn put(&mut self, game_id: u64, account: &AccountId, player: Player)
        requires
            old(self).wf(),
        ensures
            final(self).wf(),
            final(self)@ == old(self)@.insert((game_id, *account), player),
    {
        let k: Ghost<PlayerKey> = Ghost((game_id, *account));
        match self.find(game_id, account) {
            Some(i) => {
                let ghost old_entries = self.entries@;
                self.entries.set(i, PlayerEntry { game_id, account: *account, player });
                self.contents = Ghost(self.contents@.insert(k@, player));
                assert forall|j: int|
                    #![trigger self.entries@[j]]
                    0 <= j < self.entries@.len() && j != i implies self.entries@[j]
                        == old_entries[j] by {}
                assert forall|key: PlayerKey|
                    #![trigger self.contents@.contains_key(key)]
                    self.contents@.contains_key(key) implies exists|j: int|
                        0 <= j < self.entries@.len() && self.key_at(j) == key by {
                    if key != k@ {
                        let j = choose|j: int|
                            0 <= j < old_entries.len() && (old_entries[j].game_id,
                            old_entries[j].account) == key;
                        assert(self.entries@[j] == old_entries[j]);
                        assert(self.key_at(j) == key);
                    } else {
                        assert(self.key_at(i as int) == key);
                    }
                }
            },
            None => {
                let ghost old_entries = self.entries@;
                self.entries.push(PlayerEntry { game_id, account: *account, player });
                self.contents = Ghost(self.contents@.insert(k@, player));
                assert forall|j: int|
                    #![trigger self.entries@[j]]
                    0 <= j < old_entries.len() implies self.entries@[j] == old_entries[j] by {}
                assert forall|key: PlayerKey|
                    #![trigger self.contents@.contains_key(key)]
                    self.contents@.contains_key(key) implies exists|j: int|
                        0 <= j < self.entries@.len() && self.key_at(j) == key by {
                    if key != k@ {
                        let j = choose|j: int|
                            0 <= j < old_entries.len() && (old_entries[j].game_id,
                            old_entries[j].account) == key;
                        assert(self.entries@[j] == old_entries[j]);
                        assert(self.key_at(j) == key);
                    } else {
                        assert(self.key_at(old_entries.len() as int) == key);
                    }
                }
            },
        }
    }
}

} // verus!
