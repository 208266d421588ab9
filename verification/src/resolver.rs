use vstd::prelude::*;

use crate::state::GameType;

verus! {

/// The all-zero 32-byte draw is the sentinel for "no randomness supplied"
/// and is rejected by every settlement, as distinct from a legitimately
/// drawn zero byte among nonzero ones.
pub open spec fn all_zero(r: Seq<u8>) -> bool {
    forall|i: int| 0 <= i < r.len() ==> r[i] == 0
}

/// True exactly when every byte of the draw is zero.
pub fn is_all_zero(r: &[u8; 32]) -> (b: bool)
    ensures
        b == all_zero(r@),
{
    let mut i: usize = 0;
    while i < 32
        invariant
            0 <= i <= 32,
            forall|j: int| 0 <= j < i ==> r@[j] == 0,
        decreases 32 - i,
    {
        if r[i] != 0 {
            assert(r@[i as int] != 0);
            return false;
        }
        i = i + 1;
    }
    true
}

/// Single-player resolution: what the first byte of the draw means for a
/// player's encoded choice, per variant. CoinFlip derives a boolean coin
/// (`r0 mod 2 == 1`) and wins iff it matches `choice == 1`; the dice and
/// even/odd variants map the byte to a number in 1 to 100 and compare its
/// high/parity line against `choice == 1`. The second component is the
/// display value reported to the player.
pub open spec fn spec_resolve_single(game_type: GameType, choice: u8, r0: u8) -> (bool, u8) {
    match game_type {
        GameType::CoinFlip => {
            let coin = (r0 % 2) == 1;
            (coin == (choice == 1), if coin { 1u8 } else { 0u8 })
        },
        GameType::DiceHighLow => {
            let roll = ((r0 % 100) + 1) as u8;
            ((roll > 50) == (choice == 1), roll)
        },
        GameType::EvenOdd => {
            let number = ((r0 % 100) + 1) as u8;
            ((number % 2 == 0) == (choice == 1), number)
        },
    }
}

/// Two-party resolution for the room's creator. The dice and even/odd
/// variants read the creator's choice exactly as the single-player path
/// does, but CoinFlip compares the raw bit `r0 mod 2` against the stored
/// choice byte directly; the two paths' literal mappings are deliberately
/// kept apart. The opponent implicitly holds the complementary side.
pub open spec fn spec_resolve_pvp(game_type: GameType, creator_choice: u8, r0: u8) -> (bool, u8) {
    match game_type {
        GameType::CoinFlip => ((r0 % 2) == creator_choice, r0 % 2),
        GameType::DiceHighLow => {
            let roll = ((r0 % 100) + 1) as u8;
            ((roll > 50) == (creator_choice == 1), roll)
        },
        GameType::EvenOdd => {
            let number = ((r0 % 100) + 1) as u8;
            ((number % 2 == 0) == (creator_choice == 1), number)
        },
    }
}

/// Runs the single-player outcome rule on the first byte of a draw.
pub fn resolve_single(game_type: GameType, choice: u8, r0: u8) -> (res: (bool, u8))
    ensures
        res == spec_resolve_single(game_type, choice, r0),
{
    match game_type {
        GameType::CoinFlip => {
            let coin = (r0 % 2) == 1;
            (coin == (choice == 1), if coin { 1 } else { 0 })
        },
        GameType::DiceHighLow => {
            let roll = (r0 % 100) + 1;
            let is_high = roll > 50;
            (is_high == (choice == 1), roll)
        },
        GameType::EvenOdd => {
            let number = (r0 % 100) + 1;
            let is_even = (number % 2) == 0;
            (is_even == (choice == 1), number)
        },
    }
}

/// Runs the two-party outcome rule on the first byte of a draw.
pub fn resolve_pvp(game_type: GameType, creator_choice: u8, r0: u8) -> (res: (bool, u8))
    ensures
        res == spec_resolve_pvp(game_type, creator_choice, r0),
{
    match game_type {
        GameType::CoinFlip => ((r0 % 2) == creator_choice, r0 % 2),
        GameType::DiceHighLow => {
            let roll = (r0 % 100) + 1;
            let is_high = roll > 50;
            (is_high == (creator_choice == 1), roll)
        },
        GameType::EvenOdd => {
            let number = (r0 % 100) + 1;
            let is_even = (number % 2) == 0;
            (is_even == (creator_choice == 1), number)
        },
    }
}

} // verus!
