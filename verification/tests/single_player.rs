use flip_casino::errors::CasinoError;
use flip_casino::executor::Authority;
use flip_casino::executor::Transfer;
use flip_casino::game::create_coin_flip;
use flip_casino::game::create_dice_game;
use flip_casino::game::create_even_odd;
use flip_casino::game::settle_game;
use flip_casino::state::DiceChoice;
use flip_casino::state::GameType;
use flip_casino::state::Treasury;
use flip_casino::treasury::initialize_treasury;

const PLAYER: u64 = 11;
const PLAYER_ACCOUNT: u64 = 12;
const BANKROLL_ACCOUNT: u64 = 2;

fn house() -> Treasury {
    initialize_treasury(1, BANKROLL_ACCOUNT, 254)
}

/// A draw whose first byte is `b0` and which is never the all-zero
/// sentinel, even when `b0` is zero.
fn draw(b0: u8) -> [u8; 32] {
    let mut bytes = [0u8; 32];
    bytes[0] = b0;
    bytes[1] = 1;
    bytes
}

#[test]
fn wager_below_minimum_rejected() {
    let mut t = house();
    let before = t;
    let r = create_coin_flip(&mut t, 1_000_000, PLAYER, PLAYER_ACCOUNT, 50, 7, 999, true);
    assert_eq!(r, Err(CasinoError::WagerTooLow));
    assert_eq!(t, before);
}

#[test]
fn wager_above_maximum_rejected() {
    let mut t = house();
    let before = t;
    let r = create_coin_flip(
        &mut t,
        u64::MAX,
        PLAYER,
        PLAYER_ACCOUNT,
        50,
        7,
        1_000_000_000_001,
        true,
    );
    assert_eq!(r, Err(CasinoError::WagerTooHigh));
    assert_eq!(t, before);
}

#[test]
fn wager_bounds_inclusive() {
    let mut t = house();
    assert!(create_coin_flip(&mut t, u64::MAX, PLAYER, PLAYER_ACCOUNT, 50, 7, 1_000, true).is_ok());
    let mut t2 = house();
    let r = create_even_odd(
        &mut t2,
        u64::MAX,
        PLAYER,
        PLAYER_ACCOUNT,
        50,
        7,
        1_000_000_000_000,
        false,
    );
    assert!(r.is_ok());
}

#[test]
fn creation_needs_bankroll_for_a_win() {
    let mut t = house();
    let before = t;
    let r = create_coin_flip(&mut t, 1_999, PLAYER, PLAYER_ACCOUNT, 50, 7, 1_000, true);
    assert_eq!(r, Err(CasinoError::InsufficientTreasury));
    assert_eq!(t, before);
}

#[test]
fn creation_locks_stake_and_starts_unsettled() {
    let mut t = house();
    let (game, lock) =
        create_dice_game(&mut t, 10_000, PLAYER, PLAYER_ACCOUNT, 123, 7, 2_500, DiceChoice::High)
            .unwrap();
    assert!(!game.settled);
    assert!(!game.vrf_requested);
    assert_eq!(game.player, PLAYER);
    assert_eq!(game.wager, 2_500);
    assert_eq!(game.game_type, GameType::DiceHighLow);
    assert_eq!(game.player_choice, 1);
    assert_eq!(game.timestamp, 123);
    assert_eq!(
        lock,
        Transfer {
            from: PLAYER_ACCOUNT,
            to: BANKROLL_ACCOUNT,
            amount: 2_500,
            authority: Authority::Wallet(PLAYER),
        }
    );
    assert_eq!(t.total_wagered, 2_500);
    assert_eq!(t.total_paid, 0);
}

#[test]
fn winning_settlement_pays_double() {
    let mut t = house();
    let (mut game, _) =
        create_coin_flip(&mut t, 10_000, PLAYER, PLAYER_ACCOUNT, 50, 7, 3_000, true).unwrap();
    let s = settle_game(&mut game, &mut t, 10_000, PLAYER_ACCOUNT, draw(1)).unwrap();
    assert!(s.player_won);
    assert_eq!(s.result_value, 1);
    assert_eq!(
        s.payout,
        Some(Transfer {
            from: BANKROLL_ACCOUNT,
            to: PLAYER_ACCOUNT,
            amount: 6_000,
            authority: Authority::TreasuryAuthority { bump: 254 },
        })
    );
    assert!(game.settled);
    assert!(game.vrf_requested);
    assert_eq!(t.total_paid, 6_000);
}

#[test]
fn losing_settlement_pays_nothing() {
    let mut t = house();
    let (mut game, _) =
        create_coin_flip(&mut t, 10_000, PLAYER, PLAYER_ACCOUNT, 50, 7, 3_000, true).unwrap();
    let s = settle_game(&mut game, &mut t, 10_000, PLAYER_ACCOUNT, draw(0)).unwrap();
    assert!(!s.player_won);
    assert_eq!(s.result_value, 0);
    assert_eq!(s.payout, None);
    assert!(game.settled);
    assert_eq!(t.total_paid, 0);
}

#[test]
fn second_settlement_rejected() {
    let mut t = house();
    let (mut game, _) =
        create_coin_flip(&mut t, 10_000, PLAYER, PLAYER_ACCOUNT, 50, 7, 3_000, false).unwrap();
    assert!(settle_game(&mut game, &mut t, 10_000, PLAYER_ACCOUNT, draw(4)).is_ok());
    let after_first = (game, t);
    let second = settle_game(&mut game, &mut t, 10_000, PLAYER_ACCOUNT, draw(9));
    assert_eq!(second, Err(CasinoError::AlreadySettled));
    assert_eq!((game, t), after_first);
}

#[test]
fn all_zero_draw_rejected_for_every_variant() {
    let mut t = house();
    let (mut coin, _) =
        create_coin_flip(&mut t, 100_000, PLAYER, PLAYER_ACCOUNT, 50, 7, 1_000, true).unwrap();
    let (mut dice, _) =
        create_dice_game(&mut t, 100_000, PLAYER, PLAYER_ACCOUNT, 51, 7, 1_000, DiceChoice::Low)
            .unwrap();
    assert_eq!(dice.player_choice, 0);
    let (mut parity, _) =
        create_even_odd(&mut t, 100_000, PLAYER, PLAYER_ACCOUNT, 52, 7, 1_000, false).unwrap();
    for game in [&mut coin, &mut dice, &mut parity] {
        let r = settle_game(game, &mut t, 100_000, PLAYER_ACCOUNT, [0u8; 32]);
        assert_eq!(r, Err(CasinoError::InvalidRandomValue));
        assert!(!game.settled);
    }
}

#[test]
fn underfunded_win_leaves_game_open() {
    let mut t = house();
    let (mut game, _) =
        create_coin_flip(&mut t, 10_000, PLAYER, PLAYER_ACCOUNT, 50, 7, 3_000, true).unwrap();
    let counters_before = t;
    // The bankroll has drained below the doubled wager since creation.
    let r = settle_game(&mut game, &mut t, 5_999, PLAYER_ACCOUNT, draw(1));
    assert_eq!(r, Err(CasinoError::InsufficientTreasury));
    assert!(!game.settled);
    assert_eq!(t, counters_before);
    // Once the bankroll is refilled the same game settles normally.
    let retry = settle_game(&mut game, &mut t, 6_000, PLAYER_ACCOUNT, draw(1)).unwrap();
    assert!(retry.player_won);
    assert!(game.settled);
}
