use vstd::prelude::*;

use crate::state::AccountId;

verus! {

/// The signing authority a transfer instruction must be executed under.
/// Escrow and treasury authorities exist only as deterministic derivations
/// from the owning record's identity and salt, never as stored keys, so the
/// instruction carries the derivation inputs themselves.
#[derive(Clone, Copy, Debug, PartialEq, Eq, Structural)]
pub enum Authority {
    /// The named participant signs for their own account.
    Wallet(AccountId),
    /// The house authority derived from the treasury's salt.
    TreasuryAuthority { bump: u8 },
    /// The room-scoped escrow authority derived from the room's identity.
    RoomAuthority { creator: AccountId, created_at: i64, bump: u8 },
}

/// One value movement the engine asks the host ledger to perform, as an
/// instruction: source account, destination account, amount, and the
/// authority the execution must be signed with. The engine never applies
/// an instruction itself; issuing it is the operation's whole effect on
/// funds.
#[derive(Clone, Copy, Debug, PartialEq, Eq, Structural)]
pub struct Transfer {
    pub from: AccountId,
    pub to: AccountId,
    pub amount: u64,
    pub authority: Authority,
}

/// The executor's one balance-moving primitive: debit the source and credit
/// the destination by exactly the instructed amount. The host ledger's
/// atomicity is the caller's concern; this function demands up front that
/// the source covers the amount and the destination cannot overflow, and
/// then moves the amount exactly once.
pub fn apply_transfer(t: &Transfer, from_balance: &mut u64, to_balance: &mut u64)
    requires
        t.amount <= *old(from_balance),
        *old(to_balance) + t.amount <= u64::MAX,
    ensures
        *final(from_balance) == *old(from_balance) - t.amount,
        *final(to_balance) == *old(to_balance) + t.amount,
{
    *from_balance = *from_balance - t.amount;
    *to_balance = *to_balance + t.amount;
}

} // verus!
