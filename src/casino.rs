//! The casino: round lifecycle, deposits, exits and the interval setting.
//!
//! The host hands each operation the calling identity and the block number;
//! the transfer of a payout happens outside, between `quote_exit` and
//! `exit_game`.

use vstd::prelude::*;
use crate::types::{AccountId, Balance, Error, Game, Player, GAME_PRICE, TOKEN_SCALE};
use crate::oracle::{entropy_of, is_crash, pseudo_random, seed_bytes};
use crate::ledger::PlayerTable;
use crate::model::{initial_state, tokens_for, CasinoState};

verus! {

/// The whole state of the casino.
pub struct CrashCasino {
    owner: AccountId,
    game_interval: u32,
    last_game_block: u32,
    current_game_id: u64,
    casino_pool: Balance,
    games: Vec<Game>,
    players: PlayerTable,
}

impl View for CrashCasino {
    type V = CasinoState;

    closed spec fn view(&self) -> CasinoState {
        CasinoState {
            owner: self.owner,
            game_interval: self.game_interval,
            last_game_block: self.last_game_block,
            current_game_id: self.current_game_id,
            casino_pool: self.casino_pool,
            games: self.games@,
            players: self.players@,
        }
    }
}

impl CrashCasino {
    /// The player table is well formed and the state keeps its invariant.
    pub closed spec fn wf(&self) -> bool {
        self.players.wf() && self@.inv()
    }

    /// A casino owned by `caller`, created at `block`, with no round yet.
    pub fn new(caller: AccountId, block: u32, game_interval: u32) -> (r: CrashCasino)
        ensures
            r.wf(),
            r@ == initial_state(caller, block, game_interval),
    {
        CrashCasino {
            owner: caller,
            game_interval,
            last_game_block: block,
            current_game_id: 0,
            casino_pool: 0,
            games: Vec::new(),
            players: PlayerTable::new(),
        }
    }

    /// Index of the current round in `games`, if there is one.
    fn current_index(&self) -> (r: Option<usize>)
        requires
            self.wf(),
        ensures
            match r {
                Some(i) => self@.current_game() == Some(self.games@[i as int])
                    && i == self.current_game_id - 1 && i < self.games@.len(),
                None => self@.current_game() is None,
            },
    {
        let n = self.games.len();
        if n == 0 {
            None
        } else {
            Some(n - 1)
        }
    }

    /// Crashes the current round when it is open and the entropy byte is even.
    pub fn settle_current_game(&mut self, entropy: u8)
        requires
            old(self).wf(),
        ensures
            final(self).wf(),
            final(self)@ == old(self)@.settled(entropy),
    {
        if let Some(i) = self.current_index() {
            let g = self.games[i];
            if !g.crashed && is_crash(entropy) {
                self.games.set(i, Game { crashed: true, ..g });
                assert(self@ == old(self)@.with_current_game(Game { crashed: true, ..g }));
            }
        }
    }

    /// Rolls for the current round with the seed of this block and caller.
    fn end_previous_game_if_active(&mut self, block: u32, caller: &AccountId)
        requires
            old(self).wf(),
        ensures
            final(self).wf(),
            final(self)@ == old(self)@.settled(entropy_of(old(self).current_game_id, block, *caller)),
    {
        if let Some(i) = self.current_index() {
            if self.games[i].crashed {
                return;
            }
            let salt = seed_bytes(self.current_game_id, block, caller);
            let entropy = pseudo_random(&salt);
            self.settle_current_game(entropy);
        }
    }

    /// Opens round `current_game_id + 1` at this block.
    fn start_new_game(&mut self, block: u32)
        requires
            old(self).wf(),
            old(self).current_game_id < u64::MAX,
        ensures
            final(self).wf(),
            final(self)@ == old(self)@.with_new_game(block),
    {
        let game_id = self.current_game_id + 1;
        let new_game = Game {
            id: game_id,
            start_block: block,
            price: GAME_PRICE,
            crashed: false,
            game_pool: 0,
        };
        self.games.push(new_game);
        self.current_game_id = game_id;
        self.last_game_block = block;
    }

    /// Once `game_interval` blocks have passed since the current round opened,
    /// rolls for that round and opens the next; otherwise does nothing.
    pub fn tick(&mut self, current_block: u32, caller: &AccountId)
        requires
            old(self).wf(),
            old(self)@.tick_due(current_block) ==> old(self)@.current_game_id < u64::MAX,
        ensures
            final(self).wf(),
            final(self)@ == old(self)@.after_tick(current_block, *caller),
    {
        if current_block as u64 >= self.last_game_block as u64 + self.game_interval as u64 {
            self.end_previous_game_if_active(current_block, caller);
            self.start_new_game(current_block);
        }
    }

    /// Buys tokens of the current round with `amount`, the value sent along.
    pub fn enter_game(&mut self, caller: &AccountId, amount: Balance) -> (r: Result<(), Error>)
        requires
            old(self).wf(),
            old(self)@.deposit_fits(*caller, amount),
        ensures
            final(self).wf(),
            (final(self)@, r) == old(self)@.enter_spec(*caller, amount),
    {
        let i = match self.current_index() {
            Some(i) => i,
            None => return Err(Error::NoActiveRound),
        };
        let g = self.games[i];
        if g.crashed {
            return Err(Error::RoundCrashed);
        }
        if amount == 0 {
            return Err(Error::NoFundsSent);
        }
        let tokens = amount * TOKEN_SCALE / g.price;
        assert(tokens == tokens_for(amount as int, g.price as int));
        let game_id = self.current_game_id;
        let balance = match self.players.get(game_id, caller) {
            Some(p) => p.token_balance,
            None => 0,
        };
        self.players.put(game_id, caller, Player { token_balance: balance + tokens, exited: false });
        self.games.set(i, Game { game_pool: g.game_pool + amount, ..g });
        self.casino_pool = self.casino_pool + amount;
        Ok(())
    }

    /// Whether the sums of a deposit of `amount` by `caller` fit in a `Balance`.
    pub fn deposit_fits(&self, caller: &AccountId, amount: Balance) -> (r: bool)
        requires
            self.wf(),
        ensures
            r == self@.deposit_fits(*caller, amount),
    {
        let i = match self.current_index() {
            Some(i) => i,
            None => return true,
        };
        let g = self.games[i];
        if amount > Balance::MAX / TOKEN_SCALE {
            return false;
        }
        let tokens = amount * TOKEN_SCALE / g.price;
        let balance = match self.players.get(self.current_game_id, caller) {
            Some(p) => p.token_balance,
            None => 0,
        };
        balance <= Balance::MAX - tokens && g.game_pool <= Balance::MAX - amount
            && self.casino_pool <= Balance::MAX - amount
    }

    /// Whether the payout of an exit by `caller` can be computed in a `Balance`.
    pub fn payout_fits(&self, caller: &AccountId) -> (r: bool)
        requires
            self.wf(),
        ensures
            r == self@.payout_fits(*caller),
    {
        let i = match self.current_index() {
            Some(i) => i,
            None => return true,
        };
        let balance = match self.players.get(self.current_game_id, caller) {
            Some(p) => p.token_balance,
            None => 0,
        };
        let price = self.games[i].price;
        assert(price > 0);
        assert((balance <= Balance::MAX / price) == (balance * price <= Balance::MAX))
            by (nonlinear_arith)
            requires
                price > 0,
        ;
        balance <= Balance::MAX / price
    }

    /// Validates an exit by `caller` without changing anything: the payout
    /// to transfer, or why the exit is refused.
    pub fn quote_exit(&self, caller: &AccountId) -> (r: Result<Balance, Error>)
        requires
            self.wf(),
            self@.payout_fits(*caller),
        ensures
            r == (match self@.exit_error(*caller) {
                Some(e) => Err(e),
                None => Ok(self@.payout_of(*caller) as Balance),
            }),
    {
        let i = match self.current_index() {
            Some(i) => i,
            None => return Err(Error::NoActiveRound),
        };
        let g = self.games[i];
        let p = match self.players.get(self.current_game_id, caller) {
            Some(p) => p,
            None => return Err(Error::PlayerNotFound),
        };
        if p.exited {
            return Err(Error::AlreadyExited);
        }
        if g.crashed {
            return Err(Error::RoundCrashed);
        }
        let payout = p.token_balance * g.price / TOKEN_SCALE;
        if self.casino_pool < payout {
            return Err(Error::InsufficientCasinoFunds);
        }
        Ok(payout)
    }

    /// Completes an exit by `caller` whose payout, as `quote_exit` gave it,
    /// was `transferred` or not: on success the pool pays it and the record
    /// is marked exited.
    pub fn exit_game(&mut self, caller: &AccountId, transferred: bool) -> (r: Result<Balance, Error>)
        requires
            old(self).wf(),
            old(self)@.payout_fits(*caller),
        ensures
            final(self).wf(),
            (final(self)@, r) == old(self)@.exit_spec(*caller, transferred),
    {
        let payout = match self.quote_exit(caller) {
            Ok(payout) => payout,
            Err(e) => return Err(e),
        };
        if !transferred {
            return Err(Error::TransferFailed);
        }
        let game_id = self.current_game_id;
        let p = match self.players.get(game_id, caller) {
            Some(p) => p,
            None => return Err(Error::PlayerNotFound),
        };
        self.casino_pool = self.casino_pool - payout;
        self.players.put(game_id, caller, Player { exited: true, ..p });
        Ok(payout)
    }

    /// Sets the interval between rounds; only the owner may.
    pub fn set_game_interval(&mut self, caller: &AccountId, new_interval: u32) -> (r: Result<(), Error>)
        requires
            old(self).wf(),
        ensures
            final(self).wf(),
            (final(self)@, r) == old(self)@.set_interval_spec(*caller, new_interval),
    {
        if !caller.same(&self.owner) {
            return Err(Error::PermissionDenied);
        }
        self.game_interval = new_interval;
        Ok(())
    }

    /// The current round, if any.
    pub fn get_current_game(&self) -> (r: Option<Game>)
        requires
            self.wf(),
        ensures
            r == self@.current_game(),
    {
        match self.current_index() {
            Some(i) => Some(self.games[i]),
            None => None,
        }
    }

    /// The caller's record in the current round, if any.
    pub fn get_my_status(&self, caller: &AccountId) -> (r: Option<Player>)
        requires
            self.wf(),
        ensures
            r == self@.my_status(*caller),
    {
        self.players.get(self.current_game_id, caller)
    }

    /// The currency held for payouts.
    pub fn get_casino_pool(&self) -> (r: Balance)
        ensures
            r == self@.casino_pool,
    {
        self.casino_pool
    }
}

} // verus!
