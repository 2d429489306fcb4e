use crash_casino::casino::CrashCasino;
use crash_casino::oracle::{is_crash, pseudo_random, seed_bytes};
use crash_casino::types::{AccountId, Error, Game, Player, GAME_PRICE, TOKEN_SCALE};

fn account(b: u8) -> AccountId {
    AccountId { bytes: [b; 32] }
}

/// A casino owned by account 1 with round 1 open at block 0.
fn open_casino() -> CrashCasino {
    let mut c = CrashCasino::new(account(1), 0, 0);
    c.tick(0, &account(1));
    c
}

#[test]
fn deposit_buys_floor_tokens() {
    let mut c = open_casino();
    assert_eq!(c.enter_game(&account(2), 2_000_000_000_000), Ok(()));
    let p = c.get_my_status(&account(2)).unwrap();
    // two whole tokens at a scale of 10^12 units per token
    assert_eq!(p.token_balance, 2 * TOKEN_SCALE);
    assert!(!p.exited);
    assert_eq!(c.get_casino_pool(), 2_000_000_000_000);
    assert_eq!(c.get_current_game().unwrap().game_pool, 2_000_000_000_000);
}

#[test]
fn deposit_truncates_toward_zero() {
    let mut c = open_casino();
    assert_eq!(c.enter_game(&account(2), 7), Ok(()));
    assert_eq!(c.get_my_status(&account(2)).unwrap().token_balance, 7 * TOKEN_SCALE / GAME_PRICE);
}

#[test]
fn deposit_then_exit_pays_back_the_deposit() {
    let mut c = open_casino();
    c.enter_game(&account(2), 2_000_000_000_000).unwrap();
    assert_eq!(c.quote_exit(&account(2)), Ok(2_000_000_000_000));
    assert_eq!(c.exit_game(&account(2), true), Ok(2_000_000_000_000));
    assert_eq!(c.get_casino_pool(), 0);
    assert_eq!(
        c.get_my_status(&account(2)),
        Some(Player { token_balance: 2_000_000_000_000, exited: true })
    );
}

#[test]
fn second_exit_fails_and_changes_nothing() {
    let mut c = open_casino();
    c.enter_game(&account(2), 5_000).unwrap();
    c.enter_game(&account(3), 9_000).unwrap();
    assert_eq!(c.exit_game(&account(2), true), Ok(5_000));
    let pool = c.get_casino_pool();
    let status = c.get_my_status(&account(2));
    assert_eq!(c.exit_game(&account(2), true), Err(Error::AlreadyExited));
    assert_eq!(c.quote_exit(&account(2)), Err(Error::AlreadyExited));
    assert_eq!(c.get_casino_pool(), pool);
    assert_eq!(c.get_my_status(&account(2)), status);
}

#[test]
fn crashed_round_refuses_deposit_and_exit() {
    let mut c = open_casino();
    c.enter_game(&account(2), 4_000).unwrap();
    c.settle_current_game(6);
    assert!(c.get_current_game().unwrap().crashed);
    assert_eq!(c.enter_game(&account(2), 1_000), Err(Error::RoundCrashed));
    assert_eq!(c.enter_game(&account(3), 1_000), Err(Error::RoundCrashed));
    assert_eq!(c.exit_game(&account(2), true), Err(Error::RoundCrashed));
    assert_eq!(c.get_casino_pool(), 4_000);
    assert_eq!(c.get_current_game().unwrap().game_pool, 4_000);
    assert_eq!(c.get_my_status(&account(2)), Some(Player { token_balance: 4_000, exited: false }));
}

#[test]
fn odd_entropy_leaves_round_open() {
    let mut c = open_casino();
    c.settle_current_game(7);
    assert!(!c.get_current_game().unwrap().crashed);
    assert!(is_crash(0));
    assert!(!is_crash(255));
}

#[test]
fn early_tick_is_noop() {
    let mut c = CrashCasino::new(account(1), 100, 10);
    c.tick(109, &account(2));
    assert_eq!(c.get_current_game(), None);
    c.tick(110, &account(2));
    let g = c.get_current_game().unwrap();
    assert_eq!(g.id, 1);
    c.enter_game(&account(2), 50).unwrap();
    c.tick(119, &account(2));
    assert_eq!(c.get_current_game(), Some(Game { game_pool: 50, ..g }));
    assert_eq!(c.get_my_status(&account(2)), Some(Player { token_balance: 50, exited: false }));
}

#[test]
fn exit_beyond_pool_fails() {
    let mut c = open_casino();
    c.enter_game(&account(2), 1_000).unwrap();
    assert_eq!(c.exit_game(&account(2), true), Ok(1_000));
    // re-entry keeps the earlier balance, so the payout outgrows the pool
    c.enter_game(&account(2), 500).unwrap();
    assert_eq!(c.get_my_status(&account(2)), Some(Player { token_balance: 1_500, exited: false }));
    assert_eq!(c.get_casino_pool(), 500);
    assert_eq!(c.quote_exit(&account(2)), Err(Error::InsufficientCasinoFunds));
    assert_eq!(c.exit_game(&account(2), true), Err(Error::InsufficientCasinoFunds));
    assert_eq!(c.get_casino_pool(), 500);
}

#[test]
fn round_ids_grow_by_one() {
    let mut c = CrashCasino::new(account(1), 0, 0);
    assert_eq!(c.get_current_game(), None);
    c.tick(0, &account(3));
    assert_eq!(
        c.get_current_game(),
        Some(Game { id: 1, start_block: 0, price: GAME_PRICE, crashed: false, game_pool: 0 })
    );
    c.tick(4, &account(3));
    assert_eq!(
        c.get_current_game(),
        Some(Game { id: 2, start_block: 4, price: GAME_PRICE, crashed: false, game_pool: 0 })
    );
    c.tick(4, &account(3));
    assert_eq!(c.get_current_game().unwrap().id, 3);
}

#[test]
fn only_owner_sets_interval() {
    let mut c = CrashCasino::new(account(1), 0, 10);
    assert_eq!(c.set_game_interval(&account(2), 1), Err(Error::PermissionDenied));
    c.tick(5, &account(2));
    assert_eq!(c.get_current_game(), None);
    assert_eq!(c.set_game_interval(&account(1), 1), Ok(()));
    c.tick(5, &account(2));
    assert_eq!(c.get_current_game().unwrap().id, 1);
}

#[test]
fn refusals_without_round_or_record() {
    let mut c = CrashCasino::new(account(1), 0, 0);
    assert_eq!(c.enter_game(&account(2), 10), Err(Error::NoActiveRound));
    assert_eq!(c.exit_game(&account(2), true), Err(Error::NoActiveRound));
    c.tick(0, &account(1));
    assert_eq!(c.enter_game(&account(2), 0), Err(Error::NoFundsSent));
    assert_eq!(c.exit_game(&account(2), true), Err(Error::PlayerNotFound));
    assert_eq!(c.get_my_status(&account(2)), None);
    assert_eq!(c.get_casino_pool(), 0);
}

#[test]
fn failed_transfer_changes_nothing() {
    let mut c = open_casino();
    c.enter_game(&account(2), 800).unwrap();
    assert_eq!(c.exit_game(&account(2), false), Err(Error::TransferFailed));
    assert_eq!(c.get_casino_pool(), 800);
    assert_eq!(c.get_my_status(&account(2)), Some(Player { token_balance: 800, exited: false }));
    assert_eq!(c.exit_game(&account(2), true), Ok(800));
}

#[test]
fn records_are_per_round() {
    let mut c = open_casino();
    c.enter_game(&account(2), 300).unwrap();
    c.tick(1, &account(1));
    assert_eq!(c.get_my_status(&account(2)), None);
    assert_eq!(c.exit_game(&account(2), true), Err(Error::PlayerNotFound));
}

#[test]
fn overflowing_deposit_is_detected() {
    let c = open_casino();
    assert!(c.deposit_fits(&account(2), 1_000));
    assert!(!c.deposit_fits(&account(2), u128::MAX));
    assert!(c.payout_fits(&account(2)));
}

#[test]
fn seed_layout() {
    let mut caller = [0u8; 32];
    caller[0] = 0xaa;
    caller[31] = 0xbb;
    let s = seed_bytes(0x0102030405060708, 0x0a0b0c0d, &AccountId { bytes: caller });
    assert_eq!(s.len(), 44);
    assert_eq!(&s[..12], &[1, 2, 3, 4, 5, 6, 7, 8, 0x0a, 0x0b, 0x0c, 0x0d]);
    assert_eq!(s[12], 0xaa);
    assert_eq!(s[43], 0xbb);
}

#[test]
fn entropy_is_first_blake2b_256_byte() {
    // BLAKE2b-256("") = 0e5751c0..., BLAKE2b-256("abc") = bddd813c...
    assert_eq!(pseudo_random(&Vec::new()), 0x0e);
    assert_eq!(pseudo_random(&b"abc".to_vec()), 0xbd);
}

#[test]
fn tick_rolls_with_the_seed_of_round_block_and_caller() {
    for who in 0u8..8 {
        let mut c = CrashCasino::new(account(1), 0, 10);
        c.set_game_interval(&account(1), 0).unwrap();
        c.tick(0, &account(1));
        c.set_game_interval(&account(1), 10).unwrap();
        c.tick(10, &account(who));
        let expected = is_crash(pseudo_random(&seed_bytes(1, 10, &account(who))));
        let c2 = c.get_current_game().unwrap();
        assert_eq!(c2.id, 2);
        // the roll of round 1 is not visible through the current round, so replay it
        let mut d = CrashCasino::new(account(1), 0, 0);
        d.tick(0, &account(1));
        d.settle_current_game(pseudo_random(&seed_bytes(1, 10, &account(who))));
        assert_eq!(d.get_current_game().unwrap().crashed, expected);
    }
}

#[test]
fn scenario_interval_ten() {
    let mut c = CrashCasino::new(account(1), 0, 0);
    c.tick(0, &account(1));
    c.set_game_interval(&account(1), 10).unwrap();
    let g = c.get_current_game().unwrap();
    assert_eq!(g.id, 1);
    assert_eq!(g.price, 1_000_000_000_000);
    // block 5: deposit
    c.tick(5, &account(2));
    assert_eq!(c.enter_game(&account(2), 3_000_000_000_000), Ok(()));
    assert_eq!(c.get_my_status(&account(2)).unwrap().token_balance, 3 * TOKEN_SCALE);
    assert_eq!(c.get_current_game().unwrap().game_pool, 3_000_000_000_000);
    assert_eq!(c.get_casino_pool(), 3_000_000_000_000);
    // before block 10: withdraw while round 1 is open
    assert_eq!(c.exit_game(&account(2), true), Ok(3_000_000_000_000));
    // block 10: round 1 is rolled for and round 2 opens
    c.tick(10, &account(2));
    let g2 = c.get_current_game().unwrap();
    assert_eq!(g2.id, 2);
    assert_eq!(g2.start_block, 10);
    assert!(!g2.crashed);
}
