use vstd::prelude::*;

verus! {

/// An opaque key naming an identity or token account on the host ledger.
/// The engine only ever compares such keys for equality and copies them
/// into transfer instructions.
pub type AccountId = u64;

/// Smallest stake accepted by every wager-taking operation.
pub const MIN_WAGER: u64 = 1_000;

/// Largest stake accepted by every wager-taking operation.
pub const MAX_WAGER: u64 = 1_000_000_000_000;

/// Seconds after creation during which a two-party room may still be joined.
pub const ROOM_EXPIRY: i64 = 300;

/// The game variants the outcome resolver knows how to settle.
#[derive(Clone, Copy, Debug, PartialEq, Eq, Structural)]
pub enum GameType {
    CoinFlip,
    DiceHighLow,
    EvenOdd,
}

/// A player's side in a high/low dice game: `Low` covers rolls 1 to 50,
/// `High` covers rolls 51 to 100.
#[derive(Clone, Copy, Debug, PartialEq, Eq, Structural)]
pub enum DiceChoice {
    Low,
    High,
}

impl DiceChoice {
    /// The encoded byte stored in a game record: `Low` is 0, `High` is 1.
    pub open spec fn spec_byte(self) -> u8 {
        match self {
            DiceChoice::Low => 0,
            DiceChoice::High => 1,
        }
    }

    pub fn byte(self) -> (b: u8)
        ensures
            b == self.spec_byte(),
    {
        match self {
            DiceChoice::Low => 0,
            DiceChoice::High => 1,
        }
    }
}

/// The house's singleton record: who administers it, which ledger account
/// holds the bankroll, and two informational monotonic counters.
#[derive(Clone, Copy, Debug, PartialEq, Eq, Structural)]
pub struct Treasury {
    pub authority: AccountId,
    pub token_account: AccountId,
    pub total_wagered: u64,
    pub total_paid: u64,
    pub bump: u8,
}

/// One single-player wager against the house. `settled` moves false to true
/// exactly once; a settled game is terminal.
#[derive(Clone, Copy, Debug, PartialEq, Eq, Structural)]
pub struct Game {
    pub player: AccountId,
    pub wager: u64,
    pub game_type: GameType,
    pub player_choice: u8,
    pub vrf_requested: bool,
    pub settled: bool,
    pub timestamp: i64,
    pub bump: u8,
}

impl Game {
    /// Every game accepted by the engine carries a wager inside the
    /// configured bounds and a nonnegative wall-clock creation time.
    pub open spec fn wf(self) -> bool {
        &&& MIN_WAGER <= self.wager <= MAX_WAGER
        &&& 0 <= self.timestamp
    }
}

/// One two-party match. The opponent slot moves `None` to `Some` exactly
/// once; settlement needs an opponent present; cancellation is possible
/// only while the slot is still empty.
#[derive(Clone, Copy, Debug, PartialEq, Eq, Structural)]
pub struct PvPRoom {
    pub creator: AccountId,
    pub opponent: Option<AccountId>,
    pub wager: u64,
    pub game_type: GameType,
    pub creator_choice: u8,
    pub opponent_choice: u8,
    pub vrf_requested: bool,
    pub settled: bool,
    pub created_at: i64,
    pub bump: u8,
}

impl PvPRoom {
    /// Every room accepted by the engine carries a wager inside the
    /// configured bounds and a nonnegative wall-clock creation time.
    pub open spec fn wf(self) -> bool {
        &&& MIN_WAGER <= self.wager <= MAX_WAGER
        &&& 0 <= self.created_at
    }
}

} // verus!
