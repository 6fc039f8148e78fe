//! Administration and configuration: one-time initialization, configuration
//! reads and writes, administrator rotation, stranded-fund recovery, and the
//! batch-charge orchestrator.

use vstd::prelude::*;

use crate::charge_core::charge_one;
use crate::charge_core::spec_charge;
use crate::types::spec_error_code;
use crate::types::BatchChargeResult;
use crate::types::Error;
use crate::types::RecoveryEvent;
use crate::types::RecoveryReason;
use crate::types::Subscription;
use crate::vault::spec_same_config;
use crate::vault::SubscriptionVault;

verus! {

/// Writes the whole configuration, once; a second call fails and changes
/// nothing. The surrounding environment publishes the initialization event.
pub fn do_init(
    vault: &mut SubscriptionVault,
    token: u64,
    token_decimals: u32,
    admin: u64,
    min_topup: i128,
    grace_period: u64,
) -> (r: Result<(), Error>)
    ensures
        final(vault).subscriptions@ == old(vault).subscriptions@,
        old(vault).initialized ==> r == Err::<(), Error>(Error::AlreadyInitialized)
            && spec_same_config(*old(vault), *final(vault)),
        !old(vault).initialized ==> {
            &&& r == Ok::<(), Error>(())
            &&& final(vault).initialized
            &&& final(vault).token == token
            &&& final(vault).token_decimals == token_decimals
            &&& final(vault).admin == admin
            &&& final(vault).min_topup == min_topup
            &&& final(vault).grace_period == grace_period
        },
{
    if vault.initialized {
        return Err(Error::AlreadyInitialized);
    }
    vault.initialized = true;
    vault.token = token;
    vault.token_decimals = token_decimals;
    vault.admin = admin;
    vault.min_topup = min_topup;
    vault.grace_period = grace_period;
    Ok(())
}

/// The configured administrator, or `Unauthorized` while none is stored.
pub fn require_admin(vault: &SubscriptionVault) -> (r: Result<u64, Error>)
    ensures
        vault.initialized ==> r == Ok::<u64, Error>(vault.admin),
        !vault.initialized ==> r == Err::<u64, Error>(Error::Unauthorized),
{
    if vault.initialized {
        Ok(vault.admin)
    } else {
        Err(Error::Unauthorized)
    }
}

/// Updates the smallest accepted deposit; only the stored administrator may.
pub fn do_set_min_topup(vault: &mut SubscriptionVault, admin: u64, min_topup: i128) -> (r: Result<
    (),
    Error,
>)
    ensures
        final(vault).subscriptions@ == old(vault).subscriptions@,
        !old(vault).initialized || admin != old(vault).admin ==> r == Err::<(), Error>(
            Error::Unauthorized,
        ) && spec_same_config(*old(vault), *final(vault)),
        old(vault).initialized && admin == old(vault).admin ==> r == Ok::<(), Error>(())
            && *final(vault) == (SubscriptionVault { min_topup, ..*old(vault) }),
{
    let stored = match require_admin(vault) {
        Ok(a) => a,
        Err(e) => { return Err(e) },
    };
    if admin != stored {
        return Err(Error::Unauthorized);
    }
    vault.min_topup = min_topup;
    Ok(())
}

/// The smallest accepted deposit, or `NotFound` while unconfigured.
pub fn get_min_topup(vault: &SubscriptionVault) -> (r: Result<i128, Error>)
    ensures
        vault.initialized ==> r == Ok::<i128, Error>(vault.min_topup),
        !vault.initialized ==> r == Err::<i128, Error>(Error::NotFound),
{
    if vault.initialized {
        Ok(vault.min_topup)
    } else {
        Err(Error::NotFound)
    }
}

/// Updates the grace window; only the stored administrator may.
pub fn do_set_grace_period(vault: &mut SubscriptionVault, admin: u64, grace_period: u64) -> (r:
    Result<(), Error>)
    ensures
        final(vault).subscriptions@ == old(vault).subscriptions@,
        !old(vault).initialized || admin != old(vault).admin ==> r == Err::<(), Error>(
            Error::Unauthorized,
        ) && spec_same_config(*old(vault), *final(vault)),
        old(vault).initialized && admin == old(vault).admin ==> r == Ok::<(), Error>(())
            && *final(vault) == (SubscriptionVault { grace_period, ..*old(vault) }),
{
    let stored = match require_admin(vault) {
        Ok(a) => a,
        Err(e) => { return Err(e) },
    };
    if admin != stored {
        return Err(Error::Unauthorized);
    }
    vault.grace_period = grace_period;
    Ok(())
}

/// The configured grace window, 0 while unset. Never fails.
pub fn get_grace_period(vault: &SubscriptionVault) -> (r: Result<u64, Error>)
    ensures
        r == Ok::<u64, Error>(vault.grace_period),
{
    Ok(vault.grace_period)
}

/// The configured administrator, or `NotFound` while unconfigured.
pub fn do_get_admin(vault: &SubscriptionVault) -> (r: Result<u64, Error>)
    ensures
        vault.initialized ==> r == Ok::<u64, Error>(vault.admin),
        !vault.initialized ==> r == Err::<u64, Error>(Error::NotFound),
{
    if vault.initialized {
        Ok(vault.admin)
    } else {
        Err(Error::NotFound)
    }
}

/// Hands the administrator role to `new_admin`; only the current one may.
/// The surrounding environment publishes the rotation event.
pub fn do_rotate_admin(vault: &mut SubscriptionVault, current_admin: u64, new_admin: u64) -> (r:
    Result<(), Error>)
    ensures
        final(vault).subscriptions@ == old(vault).subscriptions@,
        !old(vault).initialized ==> r == Err::<(), Error>(Error::NotFound) && spec_same_config(
            *old(vault),
            *final(vault),
        ),
        old(vault).initialized && current_admin != old(vault).admin ==> r == Err::<(), Error>(
            Error::Unauthorized,
        ) && spec_same_config(*old(vault), *final(vault)),
        old(vault).initialized && current_admin == old(vault).admin ==> r == Ok::<(), Error>(())
            && *final(vault) == (SubscriptionVault { admin: new_admin, ..*old(vault) }),
{
    if !vault.initialized {
        return Err(Error::NotFound);
    }
    if current_admin != vault.admin {
        return Err(Error::Unauthorized);
    }
    vault.admin = new_admin;
    Ok(())
}

/// Approves a stranded-fund recovery and returns the record of it; the
/// surrounding environment publishes the record and moves the funds. Only
/// the stored administrator may recover, and only a positive amount.
pub fn do_recover_stranded_funds(
    vault: &SubscriptionVault,
    admin: u64,
    recipient: u64,
    amount: i128,
    reason: RecoveryReason,
    now: u64,
) -> (r: Result<RecoveryEvent, Error>)
    ensures
        !vault.initialized ==> r == Err::<RecoveryEvent, Error>(Error::NotFound),
        vault.initialized && admin != vault.admin ==> r == Err::<RecoveryEvent, Error>(
            Error::Unauthorized,
        ),
        vault.initialized && admin == vault.admin && amount <= 0 ==> r == Err::<
            RecoveryEvent,
            Error,
        >(Error::InvalidRecoveryAmount),
        vault.initialized && admin == vault.admin && amount > 0 ==> r == Ok::<
            RecoveryEvent,
            Error,
        >(RecoveryEvent { admin, recipient, amount, reason, timestamp: now }),
{
    if !vault.initialized {
        return Err(Error::NotFound);
    }
    if admin != vault.admin {
        return Err(Error::Unauthorized);
    }
    if amount <= 0 {
        return Err(Error::InvalidRecoveryAmount);
    }
    Ok(RecoveryEvent { admin, recipient, amount, reason, timestamp: now })
}

/// The per-item report of one charge outcome: `error_code == 0` iff success.
pub open spec fn spec_batch_result(r: Result<(), Error>) -> BatchChargeResult {
    match r {
        Ok(_) => BatchChargeResult { success: true, error_code: 0 },
        Err(e) => BatchChargeResult { success: false, error_code: spec_error_code(e) },
    }
}

/// One step of the batch: charging `id` against `subs`, with a `NotFound`
/// report for an id that no record carries.
pub open spec fn spec_charge_step(subs: Seq<Subscription>, grace_period: u64, id: u32, now: u64) -> (
    Seq<Subscription>,
    BatchChargeResult,
) {
    if id < subs.len() {
        let outcome = spec_charge(subs[id as int], now, grace_period);
        (subs.update(id as int, outcome.0), spec_batch_result(outcome.1))
    } else {
        (subs, spec_batch_result(Err(Error::NotFound)))
    }
}

/// The whole batch, left to right: the store after every charge attempt and
/// the order-preserving report list, one entry per requested id.
pub open spec fn spec_batch_charge(
    subs: Seq<Subscription>,
    grace_period: u64,
    ids: Seq<u32>,
    now: u64,
) -> (Seq<Subscription>, Seq<BatchChargeResult>)
    decreases ids.len(),
{
    if ids.len() == 0 {
        (subs, Seq::<BatchChargeResult>::empty())
    } else {
        let step = spec_charge_step(subs, grace_period, ids[0], now);
        let rest = spec_batch_charge(step.0, grace_period, ids.drop_first(), now);
        (rest.0, seq![step.1] + rest.1)
    }
}

/// Applies the charge engine to each id in order, isolating per-item
/// failure: one item's failure never aborts or rolls back the others.
/// Requires a configured administrator; the surrounding environment has
/// already authenticated the caller as that administrator.
pub fn do_batch_charge(vault: &mut SubscriptionVault, subscription_ids: &Vec<u32>, now: u64) -> (r:
    Result<Vec<BatchChargeResult>, Error>)
    ensures
        spec_same_config(*old(vault), *final(vault)),
        !old(vault).initialized ==> r == Err::<Vec<BatchChargeResult>, Error>(Error::Unauthorized)
            && final(vault).subscriptions@ == old(vault).subscriptions@,
        old(vault).initialized ==> {
            let outcome = spec_batch_charge(
                old(vault).subscriptions@,
                old(vault).grace_period,
                subscription_ids@,
                now,
            );
            &&& r is Ok
            &&& r->Ok_0@ == outcome.1
            &&& final(vault).subscriptions@ == outcome.0
        },
{
    match require_admin(vault) {
        Ok(_) => {},
        Err(e) => { return Err(e) },
    }
    let ghost orig_subs = vault.subscriptions@;
    let ghost grace = vault.grace_period;
    let ghost all_ids = subscription_ids@;
    let ghost total = spec_batch_charge(orig_subs, grace, all_ids, now);
    let mut results: Vec<BatchChargeResult> = Vec::new();
    let n = subscription_ids.len();
    proof {
        assert(all_ids.skip(0) =~= all_ids);
        assert(results@ + spec_batch_charge(vault.subscriptions@, grace, all_ids, now).1
            =~= spec_batch_charge(vault.subscriptions@, grace, all_ids, now).1);
    }
    let mut i: usize = 0;
    while i < n
        invariant
            i <= n,
            n == all_ids.len(),
            all_ids == subscription_ids@,
            grace == vault.grace_period,
            spec_same_config(*old(vault), *vault),
            results@.len() == i,
            total == spec_batch_charge(orig_subs, grace, all_ids, now),
            total.0 == spec_batch_charge(vault.subscriptions@, grace, all_ids.skip(i as int), now).0,
            total.1 == results@ + spec_batch_charge(
                vault.subscriptions@,
                grace,
                all_ids.skip(i as int),
                now,
            ).1,
        decreases n - i,
    {
        let ghost subs_before = vault.subscriptions@;
        let id = subscription_ids[i];
        let cr = charge_one(vault, id, now);
        let res = match cr {
            Ok(()) => BatchChargeResult { success: true, error_code: 0 },
            Err(e) => BatchChargeResult { success: false, error_code: e.to_code() },
        };
        let ghost prev_results = results@;
        results.push(res);
        proof {
            let rem = all_ids.skip(i as int);
            assert(rem[0] == all_ids[i as int]);
            assert(rem.drop_first() =~= all_ids.skip(i as int + 1));
            let step = spec_charge_step(subs_before, grace, id, now);
            assert(step == (vault.subscriptions@, res));
            let rest = spec_batch_charge(
                vault.subscriptions@,
                grace,
                all_ids.skip(i as int + 1),
                now,
            );
            assert(spec_batch_charge(subs_before, grace, rem, now) == (rest.0, seq![res] + rest.1));
            assert(results@ =~= prev_results + seq![res]);
            assert(prev_results + (seq![res] + rest.1) =~= (prev_results + seq![res]) + rest.1);
        }
        i += 1;
    }
    proof {
        let rem = all_ids.skip(n as int);
        assert(rem.len() == 0);
        assert(spec_batch_charge(vault.subscriptions@, grace, rem, now).0 == vault.subscriptions@);
        assert(spec_batch_charge(vault.subscriptions@, grace, rem, now).1 == Seq::<
            BatchChargeResult,
        >::empty());
        assert(results@ + Seq::<BatchChargeResult>::empty() =~= results@);
    }
    Ok(results)
}

} // verus!
