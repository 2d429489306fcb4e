//! Properties of the casino's operations, proved over the abstract state.

use vstd::prelude::*;
use crate::types::{AccountId, Balance, Error, Game, Player, GAME_PRICE};
use crate::model::{initial_state, payout_for, tokens_for, CasinoState};

verus! {

/// A new casino has no round: its current id is 0 and there is no current
/// round to report.
pub proof fn law_fresh_casino_has_no_round(owner: AccountId, block: u32, game_interval: u32)
    ensures
        initial_state(owner, block, game_interval).inv(),
        initial_state(owner, block, game_interval).current_game_id == 0,
        initial_state(owner, block, game_interval).current_game() is None,
{
}

/// A tick before the interval has passed changes nothing.
pub proof fn law_early_tick_is_noop(m: CasinoState, block: u32, caller: AccountId)
    requires
        !m.tick_due(block),
    ensures
        m.after_tick(block, caller) == m,
{
}

/// A due tick opens the round whose id is one more than the current one, at
/// the fixed price, open and empty, and keeps the invariant.
pub proof fn law_tick_opens_next_round(m: CasinoState, block: u32, caller: AccountId)
    requires
        m.inv(),
        m.tick_due(block),
        m.current_game_id < u64::MAX,
    ensures
        m.after_tick(block, caller).inv(),
        m.after_tick(block, caller).current_game_id == m.current_game_id + 1,
        m.after_tick(block, caller).last_game_block == block,
        m.after_tick(block, caller).current_game() == Some(
            Game {
                id: (m.current_game_id + 1) as u64,
                start_block: block,
                price: GAME_PRICE,
                crashed: false,
                game_pool: 0,
            },
        ),
{
    let s = m.settled(crate::oracle::entropy_of(m.current_game_id, block, caller));
    assert(s.inv());
    let t = s.with_new_game(block);
    assert(t.games[t.games.len() - 1] == t.games.last());
}

/// A deposit credits exactly `floor(amount * TOKEN_SCALE / price)` tokens,
/// which at the fixed price is `amount`, and clears the exited flag.
pub proof fn law_deposit_buys_floor_tokens(m: CasinoState, who: AccountId, amount: Balance)
    requires
        m.inv(),
        m.enter_error(amount) is None,
        m.deposit_fits(who, amount),
    ensures
        m.enter_spec(who, amount).1 == Ok::<(), Error>(()),
        m.enter_spec(who, amount).0.my_status(who) == Some(
            Player {
                token_balance: (m.balance_of(who) + tokens_for(
                    amount as int,
                    m.current_game().unwrap().price as int,
                )) as Balance,
                exited: false,
            },
        ),
        tokens_for(amount as int, m.current_game().unwrap().price as int) == amount,
        m.enter_spec(who, amount).0.casino_pool == m.casino_pool + amount,
{
    assert(m.games[m.current_game_id - 1].price == GAME_PRICE);
}

/// A deposit into a round where the caller has no record, followed at once by
/// an exit whose transfer goes through, pays
/// `floor(tokens * price / TOKEN_SCALE)`, which at the fixed price is the
/// amount deposited.
pub proof fn law_deposit_then_exit_round_trip(m: CasinoState, who: AccountId, amount: Balance)
    requires
        m.inv(),
        m.enter_error(amount) is None,
        m.deposit_fits(who, amount),
        m.my_status(who) is None,
    ensures
        ({
            let m2 = m.enter_spec(who, amount).0;
            let price = m.current_game().unwrap().price as int;
            &&& m2.payout_fits(who)
            &&& m2.exit_error(who) is None
            &&& m2.payout_of(who) == payout_for(tokens_for(amount as int, price), price)
            &&& m2.exit_spec(who, true).1 == Ok::<Balance, Error>(amount)
        }),
{
    let g = m.games[m.current_game_id - 1];
    assert(g.price == GAME_PRICE);
    let m2 = m.after_enter(who, amount);
    assert(m2.current_game() == Some(Game { game_pool: (g.game_pool + amount) as Balance, ..g }));
    assert(m2.my_status(who) == Some(Player { token_balance: amount, exited: false }));
    assert(payout_for(amount as int, GAME_PRICE as int) == amount);
}

/// An exit by a caller whose record is already marked exited fails with
/// `AlreadyExited` and changes nothing.
pub proof fn law_exit_after_exited_fails(m: CasinoState, who: AccountId, transferred: bool)
    requires
        m.current_game() is Some,
        m.my_status(who) is Some,
        m.my_status(who).unwrap().exited,
    ensures
        m.exit_spec(who, transferred) == (m, Err::<Balance, Error>(Error::AlreadyExited)),
{
}

/// After a successful exit, a second exit by the same caller fails with
/// `AlreadyExited` and leaves the state as the first exit left it.
pub proof fn law_second_exit_fails(m: CasinoState, who: AccountId, first: bool, second: bool)
    requires
        m.exit_spec(who, first).1 is Ok,
    ensures
        ({
            let m2 = m.exit_spec(who, first).0;
            m2.exit_spec(who, second) == (m2, Err::<Balance, Error>(Error::AlreadyExited))
        }),
{
    let m2 = m.after_exit(who);
    assert(m2.current_game() == m.current_game());
    assert(m2.my_status(who) == Some(Player { exited: true, ..m.my_status(who).unwrap() }));
}

/// A deposit into a crashed round fails with `RoundCrashed` and changes nothing.
pub proof fn law_crashed_round_refuses_deposit(m: CasinoState, who: AccountId, amount: Balance)
    requires
        m.current_game() is Some,
        m.current_game().unwrap().crashed,
    ensures
        m.enter_spec(who, amount) == (m, Err::<(), Error>(Error::RoundCrashed)),
{
}

/// An exit from a crashed round by a caller who holds a record not yet
/// exited fails with `RoundCrashed` and changes nothing.
pub proof fn law_crashed_round_refuses_exit(m: CasinoState, who: AccountId, transferred: bool)
    requires
        m.current_game() is Some,
        m.current_game().unwrap().crashed,
        m.my_status(who) is Some,
        !m.my_status(who).unwrap().exited,
    ensures
        m.exit_spec(who, transferred) == (m, Err::<Balance, Error>(Error::RoundCrashed)),
{
}

/// An exit whose payout exceeds the casino pool, in a round still open and by
/// a caller who has not exited, fails with `InsufficientCasinoFunds` and
/// changes nothing.
pub proof fn law_exit_beyond_pool_fails(m: CasinoState, who: AccountId, transferred: bool)
    requires
        m.current_game() is Some,
        !m.current_game().unwrap().crashed,
        m.my_status(who) is Some,
        !m.my_status(who).unwrap().exited,
        m.payout_of(who) > m.casino_pool,
    ensures
        m.exit_spec(who, transferred) == (m, Err::<Balance, Error>(Error::InsufficientCasinoFunds)),
{
}

/// A successful exit pays no more than the pool holds and takes exactly the
/// payout from it.
pub proof fn law_exit_never_overdraws(m: CasinoState, who: AccountId, transferred: bool)
    requires
        m.exit_spec(who, transferred).1 is Ok,
    ensures
        ({
            let (m2, r) = m.exit_spec(who, transferred);
            &&& r.unwrap() <= m.casino_pool
            &&& m2.casino_pool == m.casino_pool - r.unwrap()
        }),
{
}

/// Changing the interval from any identity but the owner fails with
/// `PermissionDenied` and changes nothing.
pub proof fn law_only_owner_sets_interval(m: CasinoState, caller: AccountId, new_interval: u32)
    requires
        caller != m.owner,
    ensures
        m.set_interval_spec(caller, new_interval) == (m, Err::<(), Error>(Error::PermissionDenied)),
{
}

/// Every operation keeps the invariant.
pub proof fn law_operations_keep_invariant(
    m: CasinoState,
    who: AccountId,
    amount: Balance,
    transferred: bool,
    block: u32,
    new_interval: u32,
)
    requires
        m.inv(),
        m.deposit_fits(who, amount),
        m.tick_due(block) ==> m.current_game_id < u64::MAX,
    ensures
        m.after_tick(block, who).inv(),
        m.enter_spec(who, amount).0.inv(),
        m.exit_spec(who, transferred).0.inv(),
        m.set_interval_spec(who, new_interval).0.inv(),
{
    if m.tick_due(block) {
        law_tick_opens_next_round(m, block, who);
    }
    if m.enter_error(amount) is None {
        let m2 = m.after_enter(who, amount);
        assert forall|i: int| #![trigger m2.games[i]] 0 <= i < m2.games.len() implies m2.games[i].id
            == i + 1 && m2.games[i].price == GAME_PRICE by {
            assert(m.games[i] == m.games[i]);
        }
    }
}

} // verus!
