//! A verified escrow-and-settlement engine for a small wagering ledger.
//!
//! Players lock funds, a privileged caller later supplies a 32-byte random
//! draw, and the engine decides who is paid. The engine itself never moves
//! value: every operation returns the transfer instruction it wants executed
//! against the host ledger, together with the updated record state, and its
//! contract pins both down exactly. Identities and token accounts are opaque
//! 64-bit keys; balances are plain `u64` amounts read from the host ledger.

pub mod errors;
pub mod executor;
pub mod game;
pub mod laws;
pub mod pvp;
pub mod resolver;
pub mod state;
pub mod treasury;
