use vstd::prelude::*;

use crate::errors::CasinoError;
use crate::executor::Authority;
use crate::executor::Transfer;
use crate::state::AccountId;
use crate::state::Treasury;

verus! {

/// Creates the house's singleton record: the given administrator, the ledger
/// account holding the bankroll, zeroed counters, and the derivation salt.
/// Done once at deployment; no funds move.
pub fn initialize_treasury(authority: AccountId, token_account: AccountId, bump: u8) -> (t:
    Treasury)
    ensures
        t == (Treasury {
            authority,
            token_account,
            total_wagered: 0,
            total_paid: 0,
            bump,
        }),
{
    Treasury { authority, token_account, total_wagered: 0, total_paid: 0, bump }
}

/// Bankroll management: the configured authority, and nobody else, may move
/// funds out of the bankroll, up to its current balance. Succeeds exactly
/// when the caller is the authority and the bankroll covers the amount, and
/// then issues a transfer of exactly `amount` to the requested destination
/// under the treasury's derived authority. The wager/payout counters are
/// untouched: withdrawal is not wager accounting.
pub fn withdraw_treasury(
    treasury: &Treasury,
    treasury_balance: u64,
    caller: AccountId,
    destination_token_account: AccountId,
    amount: u64,
) -> (r: Result<Transfer, CasinoError>)
    ensures
        r is Ok <==> caller == treasury.authority && treasury_balance >= amount,
        caller != treasury.authority ==> r == Err::<Transfer, CasinoError>(
            CasinoError::Unauthorized,
        ),
        caller == treasury.authority && treasury_balance < amount ==> r == Err::<
            Transfer,
            CasinoError,
        >(CasinoError::InsufficientTreasury),
        r matches Ok(t) ==> t == (Transfer {
            from: treasury.token_account,
            to: destination_token_account,
            amount,
            authority: Authority::TreasuryAuthority { bump: treasury.bump },
        }),
{
    if caller != treasury.authority {
        return Err(CasinoError::Unauthorized);
    }
    if treasury_balance < amount {
        return Err(CasinoError::InsufficientTreasury);
    }
    Ok(
        Transfer {
            from: treasury.token_account,
            to: destination_token_account,
            amount,
            authority: Authority::TreasuryAuthority { bump: treasury.bump },
        },
    )
}

} // verus!
