use flip_casino::resolver::is_all_zero;
use flip_casino::resolver::resolve_pvp;
use flip_casino::resolver::resolve_single;
use flip_casino::state::GameType;

// Exact parity table for the single-player path, across the draw bytes
// 0, 1, 49, 50, 51, 99, 100, 255 and both encoded choices.

#[test]
fn single_coin_flip_table() {
    // (r0, won with choice 0, won with choice 1, display value)
    let table: [(u8, bool, bool, u8); 8] = [
        (0, true, false, 0),
        (1, false, true, 1),
        (49, false, true, 1),
        (50, true, false, 0),
        (51, false, true, 1),
        (99, false, true, 1),
        (100, true, false, 0),
        (255, false, true, 1),
    ];
    for (r0, won0, won1, value) in table {
        assert_eq!(resolve_single(GameType::CoinFlip, 0, r0), (won0, value));
        assert_eq!(resolve_single(GameType::CoinFlip, 1, r0), (won1, value));
    }
}

#[test]
fn single_dice_high_low_table() {
    // (r0, won with choice 0 = low, won with choice 1 = high, roll)
    let table: [(u8, bool, bool, u8); 8] = [
        (0, true, false, 1),
        (1, true, false, 2),
        (49, true, false, 50),
        (50, false, true, 51),
        (51, false, true, 52),
        (99, false, true, 100),
        (100, true, false, 1),
        (255, false, true, 56),
    ];
    for (r0, won0, won1, roll) in table {
        assert_eq!(resolve_single(GameType::DiceHighLow, 0, r0), (won0, roll));
        assert_eq!(resolve_single(GameType::DiceHighLow, 1, r0), (won1, roll));
    }
}

#[test]
fn single_even_odd_table() {
    // (r0, won with choice 0 = odd, won with choice 1 = even, number)
    let table: [(u8, bool, bool, u8); 8] = [
        (0, true, false, 1),
        (1, false, true, 2),
        (49, false, true, 50),
        (50, true, false, 51),
        (51, false, true, 52),
        (99, false, true, 100),
        (100, true, false, 1),
        (255, false, true, 56),
    ];
    for (r0, won0, won1, number) in table {
        assert_eq!(resolve_single(GameType::EvenOdd, 0, r0), (won0, number));
        assert_eq!(resolve_single(GameType::EvenOdd, 1, r0), (won1, number));
    }
}

#[test]
fn pvp_coin_flip_table() {
    // The two-party coin flip compares the raw bit against the stored
    // choice byte; a fresh room stores choice byte 0.
    let table: [(u8, bool, u8); 8] = [
        (0, true, 0),
        (1, false, 1),
        (49, false, 1),
        (50, true, 0),
        (51, false, 1),
        (99, false, 1),
        (100, true, 0),
        (255, false, 1),
    ];
    for (r0, creator_won, value) in table {
        assert_eq!(resolve_pvp(GameType::CoinFlip, 0, r0), (creator_won, value));
    }
    // A nonzero stored byte can only match an odd draw bit.
    assert_eq!(resolve_pvp(GameType::CoinFlip, 1, 1), (true, 1));
    assert_eq!(resolve_pvp(GameType::CoinFlip, 1, 0), (false, 0));
}

#[test]
fn pvp_dice_and_even_odd_match_single_path() {
    for r0 in [0u8, 1, 49, 50, 51, 99, 100, 255] {
        for choice in [0u8, 1] {
            assert_eq!(
                resolve_pvp(GameType::DiceHighLow, choice, r0),
                resolve_single(GameType::DiceHighLow, choice, r0)
            );
            assert_eq!(
                resolve_pvp(GameType::EvenOdd, choice, r0),
                resolve_single(GameType::EvenOdd, choice, r0)
            );
        }
    }
}

#[test]
fn all_zero_detection() {
    assert!(is_all_zero(&[0u8; 32]));
    let mut one_bit = [0u8; 32];
    one_bit[31] = 1;
    assert!(!is_all_zero(&one_bit));
    let mut first_byte = [0u8; 32];
    first_byte[0] = 7;
    assert!(!is_all_zero(&first_byte));
}
