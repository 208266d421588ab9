use vstd::prelude::*;

verus! {

/// Reasons an operation is rejected. A rejection is an all-or-nothing abort:
/// the contracts of every operation guarantee that on any `Err` no record
/// changes and no transfer instruction is issued, so a caller's funds are
/// never at risk from a failed attempt.
#[derive(Clone, Copy, Debug, PartialEq, Eq, Structural)]
pub enum CasinoError {
    /// The game or room has already reached its terminal settled state.
    AlreadySettled,
    /// An opponent has already joined the room.
    RoomFull,
    /// Settlement of a two-party room needs an opponent present.
    NoOpponent,
    /// The 32-byte random draw was the all-zero sentinel ("no randomness").
    InvalidRandomValue,
    /// The house bankroll cannot cover the requested payout or withdrawal.
    InsufficientTreasury,
    /// The wager is below the minimum stake.
    WagerTooLow,
    /// The wager is above the maximum stake.
    WagerTooHigh,
    /// The caller is not the identity the operation is reserved for.
    Unauthorized,
    /// The join window of the room has elapsed.
    RoomExpired,
    /// The operation does not fit the record's current state
    /// (for example, a creator trying to join their own room, or an
    /// under-funded escrow at room settlement).
    InvalidGameState,
}

} // verus!
