//! Merchant payout entry.

use vstd::prelude::*;

use crate::types::Error;
use crate::vault::SubscriptionVault;

verus! {

/// Merchant payout: the accumulated funds are held and moved entirely by
/// the surrounding settlement environment, so the vault state is left
/// untouched and the call always succeeds.
pub fn withdraw_merchant_funds(vault: &SubscriptionVault, merchant: u64, amount: i128) -> (r:
    Result<(), Error>)
    ensures
        r == Ok::<(), Error>(()),
{
    vault.withdraw_merchant_funds(merchant, amount)
}

} // verus!
