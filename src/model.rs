//! The abstract state of the casino and what each operation does to it.

use vstd::prelude::*;
use crate::types::{AccountId, Balance, Error, Game, Player, GAME_PRICE, TOKEN_SCALE};
use crate::oracle::{crashes, entropy_of};

verus! {

/// The casino as a mathematical value.
pub struct CasinoState {
    /// The identity allowed to change the interval.
    pub owner: AccountId,
    /// Blocks that must pass between two round openings.
    pub game_interval: u32,
    /// The block at which the current round was opened.
    pub last_game_block: u32,
    /// Id of the most recent round, 0 before the first.
    pub current_game_id: u64,
    /// Currency held for payouts across all rounds.
    pub casino_pool: Balance,
    /// Every round opened so far; the round with id `n` is at index `n - 1`.
    pub games: Seq<Game>,
    /// Player records by round id and account.
    pub players: Map<(u64, AccountId), Player>,
}

/// Tokens bought with `amount` at `price`, rounded down.
pub open spec fn tokens_for(amount: int, price: int) -> int {
    amount * (TOKEN_SCALE as int) / price
}

/// Currency paid for `tokens` at `price`, rounded down.
pub open spec fn payout_for(tokens: int, price: int) -> int {
    tokens * price / (TOKEN_SCALE as int)
}

/// The state right after construction.
pub open spec fn initial_state(owner: AccountId, block: u32, game_interval: u32) -> CasinoState {
    CasinoState {
        owner,
        game_interval,
        last_game_block: block,
        current_game_id: 0,
        casino_pool: 0,
        games: Seq::empty(),
        players: Map::empty(),
    }
}

impl CasinoState {
    /// Round ids are dense from 1, the newest is current, and every round
    /// carries the fixed price.
    pub open spec fn inv(self) -> bool {
        &&& self.games.len() == self.current_game_id
        &&& forall|i: int|
            #![trigger self.games[i]]
            0 <= i < self.games.len() ==> self.games[i].id == i + 1 && self.games[i].price
                == GAME_PRICE
    }

    /// The round with this id, if it was opened.
    pub open spec fn game(self, id: u64) -> Option<Game> {
        if 1 <= id && id <= self.games.len() {
            Some(self.games[id - 1])
        } else {
            None
        }
    }

    /// The current round, if any.
    pub open spec fn current_game(self) -> Option<Game> {
        self.game(self.current_game_id)
    }

    /// The record of `who` in round `id`, if any.
    pub open spec fn player(self, id: u64, who: AccountId) -> Option<Player> {
        if self.players.contains_key((id, who)) {
            Some(self.players[(id, who)])
        } else {
            None
        }
    }

    /// The record of `who` in the current round, if any.
    pub open spec fn my_status(self, who: AccountId) -> Option<Player> {
        self.player(self.current_game_id, who)
    }

    /// Replaces the current round's record.
    pub open spec fn with_current_game(self, g: Game) -> CasinoState {
        CasinoState { games: self.games.update(self.current_game_id - 1, g), ..self }
    }

    /// Whether enough blocks have passed to open the next round.
    pub open spec fn tick_due(self, block: u32) -> bool {
        block >= self.last_game_block + self.game_interval
    }

    /// The current round after a roll with this entropy byte: it crashes when
    /// it exists, has not crashed yet, and the byte says so.
    pub open spec fn settled(self, entropy: u8) -> CasinoState {
        match self.current_game() {
            Some(g) => if !g.crashed && crashes(entropy) {
                self.with_current_game(Game { crashed: true, ..g })
            } else {
                self
            },
            None => self,
        }
    }

    /// Opens the next round at this block.
    pub open spec fn with_new_game(self, block: u32) -> CasinoState {
        let id = (self.current_game_id + 1) as u64;
        CasinoState {
            current_game_id: id,
            last_game_block: block,
            games: self.games.push(
                Game { id, start_block: block, price: GAME_PRICE, crashed: false, game_pool: 0 },
            ),
            ..self
        }
    }

    /// The state after a tick at `block` triggered by `caller`.
    pub open spec fn after_tick(self, block: u32, caller: AccountId) -> CasinoState {
        if self.tick_due(block) {
            self.settled(entropy_of(self.current_game_id, block, caller)).with_new_game(block)
        } else {
            self
        }
    }

    /// Why a deposit of `amount` is refused, if it is.
    pub open spec fn enter_error(self, amount: Balance) -> Option<Error> {
        match self.current_game() {
            None => Some(Error::NoActiveRound),
            Some(g) => if g.crashed {
                Some(Error::RoundCrashed)
            } else if amount == 0 {
                Some(Error::NoFundsSent)
            } else {
                None
            },
        }
    }

    /// The caller's token balance in the current round, 0 without a record.
    pub open spec fn balance_of(self, who: AccountId) -> Balance {
        match self.my_status(who) {
            Some(p) => p.token_balance,
            None => 0,
        }
    }

    /// The sums of an accepted deposit fit in a `Balance`.
    pub open spec fn deposit_fits(self, who: AccountId, amount: Balance) -> bool {
        match self.current_game() {
            Some(g) => {
                &&& amount * TOKEN_SCALE <= Balance::MAX
                &&& self.balance_of(who) + tokens_for(amount as int, g.price as int)
                    <= Balance::MAX
                &&& g.game_pool + amount <= Balance::MAX
                &&& self.casino_pool + amount <= Balance::MAX
            },
            None => true,
        }
    }

    /// The state after an accepted deposit.
    pub open spec fn after_enter(self, who: AccountId, amount: Balance) -> CasinoState {
        let g = self.current_game().unwrap();
        let tokens = tokens_for(amount as int, g.price as int);
        CasinoState {
            players: self.players.insert(
                (self.current_game_id, who),
                Player { token_balance: (self.balance_of(who) + tokens) as Balance, exited: false },
            ),
            casino_pool: (self.casino_pool + amount) as Balance,
            ..self.with_current_game(Game { game_pool: (g.game_pool + amount) as Balance, ..g })
        }
    }

    /// The state and result of a deposit.
    pub open spec fn enter_spec(self, who: AccountId, amount: Balance) -> (CasinoState, Result<(), Error>) {
        match self.enter_error(amount) {
            Some(e) => (self, Err(e)),
            None => (self.after_enter(who, amount), Ok(())),
        }
    }

    /// What an exit by `who` would pay.
    pub open spec fn payout_of(self, who: AccountId) -> int {
        payout_for(self.balance_of(who) as int, self.current_game().unwrap().price as int)
    }

    /// The payout of an exit fits in a `Balance` before it is divided.
    pub open spec fn payout_fits(self, who: AccountId) -> bool {
        match self.current_game() {
            Some(g) => self.balance_of(who) * g.price <= Balance::MAX,
            None => true,
        }
    }

    /// Why an exit by `who` is refused before any transfer, if it is.
    pub open spec fn exit_error(self, who: AccountId) -> Option<Error> {
        match self.current_game() {
            None => Some(Error::NoActiveRound),
            Some(g) => match self.my_status(who) {
                None => Some(Error::PlayerNotFound),
                Some(p) => if p.exited {
                    Some(Error::AlreadyExited)
                } else if g.crashed {
                    Some(Error::RoundCrashed)
                } else if self.casino_pool < self.payout_of(who) {
                    Some(Error::InsufficientCasinoFunds)
                } else {
                    None
                },
            },
        }
    }

    /// The state after a paid exit.
    pub open spec fn after_exit(self, who: AccountId) -> CasinoState {
        CasinoState {
            casino_pool: (self.casino_pool - self.payout_of(who)) as Balance,
            players: self.players.insert(
                (self.current_game_id, who),
                Player { exited: true, ..self.my_status(who).unwrap() },
            ),
            ..self
        }
    }

    /// The state and result of an exit, given whether the transfer of the
    /// payout went through.
    pub open spec fn exit_spec(self, who: AccountId, transferred: bool) -> (CasinoState, Result<Balance, Error>) {
        match self.exit_error(who) {
            Some(e) => (self, Err(e)),
            None => if transferred {
                (self.after_exit(who), Ok(self.payout_of(who) as Balance))
            } else {
                (self, Err(Error::TransferFailed))
            },
        }
    }

    /// The state and result of an interval change.
    pub open spec fn set_interval_spec(self, caller: AccountId, new_interval: u32) -> (CasinoState, Result<(), Error>) {
        if caller == self.owner {
            (CasinoState { game_interval: new_interval, ..self }, Ok(()))
        } else {
            (self, Err(Error::PermissionDenied))
        }
    }
}

} // verus!
