//! The charge-evaluation engine: evaluates and applies one charge to one
//! subscription record.

use vstd::prelude::*;

use crate::state_machine::validate_status_transition;
use crate::types::Error;
use crate::types::Subscription;
use crate::types::SubscriptionStatus;
use crate::vault::spec_same_config;
use crate::vault::SubscriptionVault;

verus! {

/// A charge may be collected only from an `Active` subscription or from one
/// held in its grace period.
pub open spec fn spec_chargeable(s: SubscriptionStatus) -> bool {
    s == SubscriptionStatus::Active || s == SubscriptionStatus::GracePeriod
}

/// The earliest legal charge moment, as a mathematical integer: the sum may
/// exceed the time type's range, which the engine reports as `Overflow`.
pub open spec fn spec_next_allowed(sub: Subscription) -> int {
    sub.last_payment_timestamp + sub.interval_seconds
}

/// The whole charge algorithm on one record: the record to persist and the
/// outcome to report, in evaluation order (first failing step wins).
///
/// The two insufficient-funds branches change the status of the record they
/// hand back even though the call reports failure: repeated failed attempts
/// converge the subscription into the correct holding state without a
/// separate administrative sweep.
pub open spec fn spec_charge(sub: Subscription, now: u64, grace_period: u64) -> (Subscription,
    Result<(), Error>) {
    if !spec_chargeable(sub.status) {
        (sub, Err(Error::NotActive))
    } else if spec_next_allowed(sub) > u64::MAX {
        (sub, Err(Error::Overflow))
    } else if now < spec_next_allowed(sub) {
        (sub, Err(Error::IntervalNotElapsed))
    } else if sub.prepaid_balance < sub.amount {
        if spec_next_allowed(sub) + grace_period > u64::MAX {
            (sub, Err(Error::Overflow))
        } else if now < spec_next_allowed(sub) + grace_period {
            (
                Subscription { status: SubscriptionStatus::GracePeriod, ..sub },
                Err(Error::InsufficientBalance),
            )
        } else {
            (
                Subscription { status: SubscriptionStatus::InsufficientBalance, ..sub },
                Err(Error::InsufficientBalance),
            )
        }
    } else if sub.prepaid_balance - sub.amount > i128::MAX {
        (sub, Err(Error::Overflow))
    } else {
        (
            Subscription {
                prepaid_balance: (sub.prepaid_balance - sub.amount) as i128,
                last_payment_timestamp: now,
                status: SubscriptionStatus::Active,
                ..sub
            },
            Ok(()),
        )
    }
}

/// Evaluates and applies one charge to `sub`, leaving in `sub` the record to
/// persist. All arithmetic is overflow-checked; every status change goes
/// through the transition table.
pub fn charge_record(sub: &mut Subscription, now: u64, grace_period: u64) -> (r: Result<
    (),
    Error,
>)
    ensures
        (*final(sub), r) == spec_charge(*old(sub), now, grace_period),
{
    if !(sub.status == SubscriptionStatus::Active || sub.status
        == SubscriptionStatus::GracePeriod) {
        return Err(Error::NotActive);
    }
    let next_allowed = match sub.last_payment_timestamp.checked_add(sub.interval_seconds) {
        Some(t) => t,
        None => { return Err(Error::Overflow) },
    };
    if now < next_allowed {
        return Err(Error::IntervalNotElapsed);
    }
    if sub.prepaid_balance < sub.amount {
        let grace_expires = match next_allowed.checked_add(grace_period) {
            Some(t) => t,
            None => { return Err(Error::Overflow) },
        };
        if now < grace_expires {
            if sub.status != SubscriptionStatus::GracePeriod {
                match validate_status_transition(&sub.status, &SubscriptionStatus::GracePeriod) {
                    Ok(()) => {},
                    Err(e) => { return Err(e) },
                }
                sub.status = SubscriptionStatus::GracePeriod;
            }
            return Err(Error::InsufficientBalance);
        } else {
            match validate_status_transition(
                &sub.status,
                &SubscriptionStatus::InsufficientBalance,
            ) {
                Ok(()) => {},
                Err(e) => { return Err(e) },
            }
            sub.status = SubscriptionStatus::InsufficientBalance;
            return Err(Error::InsufficientBalance);
        }
    }
    let new_balance = match sub.prepaid_balance.checked_sub(sub.amount) {
        Some(b) => b,
        None => { return Err(Error::Overflow) },
    };
    sub.prepaid_balance = new_balance;
    sub.last_payment_timestamp = now;
    if sub.status == SubscriptionStatus::GracePeriod {
        match validate_status_transition(&sub.status, &SubscriptionStatus::Active) {
            Ok(()) => {},
            Err(e) => { return Err(e) },
        }
        sub.status = SubscriptionStatus::Active;
    }
    Ok(())
}

/// Evaluates and applies one charge to the subscription stored under
/// `subscription_id`, against the vault's configured grace period, at
/// ledger time `now`. The sole writer of subscription state.
pub fn charge_one(vault: &mut SubscriptionVault, subscription_id: u32, now: u64) -> (r: Result<
    (),
    Error,
>)
    ensures
        spec_same_config(*old(vault), *final(vault)),
        subscription_id >= old(vault).subscriptions@.len() ==> r == Err::<(), Error>(
            Error::NotFound,
        ) && final(vault).subscriptions@ == old(vault).subscriptions@,
        subscription_id < old(vault).subscriptions@.len() ==> {
            let outcome = spec_charge(
                old(vault).subscriptions@[subscription_id as int],
                now,
                old(vault).grace_period,
            );
            r == outcome.1 && final(vault).subscriptions@ == old(
                vault,
            ).subscriptions@.update(subscription_id as int, outcome.0)
        },
{
    let idx = subscription_id as usize;
    if idx >= vault.subscriptions.len() {
        return Err(Error::NotFound);
    }
    let mut sub = vault.subscriptions[idx];
    let r = charge_record(&mut sub, now, vault.grace_period);
    vault.subscriptions[idx] = sub;
    r
}

} // verus!
