//! The guarantees of the billing core, stated and proved over the
//! specification functions that the operations' own contracts use.

use vstd::prelude::*;

use crate::admin::spec_batch_charge;
use crate::admin::spec_batch_result;
use crate::admin::spec_charge_step;
use crate::charge_core::spec_charge;
use crate::charge_core::spec_chargeable;
use crate::charge_core::spec_next_allowed;
use crate::state_machine::spec_can_transition;
use crate::types::spec_error_code;
use crate::types::Error;
use crate::types::Subscription;
use crate::types::SubscriptionStatus;
use crate::vault::spec_cancel;
use crate::vault::spec_set_status;
use crate::vault::spec_topup;

verus! {

/// Balance conservation: a successful charge reduces the prepaid balance by
/// exactly the per-interval amount — no more, no less — and every failing
/// outcome leaves it untouched.
pub proof fn lemma_balance_conservation(sub: Subscription, now: u64, grace_period: u64)
    ensures
        spec_charge(sub, now, grace_period).1 is Ok ==> spec_charge(
            sub,
            now,
            grace_period,
        ).0.prepaid_balance == sub.prepaid_balance - sub.amount,
        spec_charge(sub, now, grace_period).1 is Err ==> spec_charge(
            sub,
            now,
            grace_period,
        ).0.prepaid_balance == sub.prepaid_balance,
{
}

/// No double charge: when a charge succeeds at `now`, a second charge of
/// the updated record at the same instant fails with `IntervalNotElapsed`
/// and changes nothing. Stated for a positive interval whose next boundary
/// is representable: with a zero-length interval the schedule admits a
/// second collection at the same instant, and past the end of the time
/// range the rejection is `Overflow` instead.
pub proof fn lemma_no_double_charge(sub: Subscription, now: u64, grace_period: u64)
    requires
        sub.interval_seconds > 0,
        now + sub.interval_seconds <= u64::MAX,
        spec_charge(sub, now, grace_period).1 is Ok,
    ensures
        ({
            let charged = spec_charge(sub, now, grace_period).0;
            spec_charge(charged, now, grace_period) == (
                charged,
                Err::<(), Error>(Error::IntervalNotElapsed),
            )
        }),
{
}

/// Exact boundary: a charge at `now == last_payment_timestamp +
/// interval_seconds`, with sufficient representable funds, succeeds.
pub proof fn lemma_exact_boundary_admits_charge(sub: Subscription, now: u64, grace_period: u64)
    requires
        spec_chargeable(sub.status),
        now == spec_next_allowed(sub),
        sub.prepaid_balance >= sub.amount,
        sub.prepaid_balance - sub.amount <= i128::MAX,
    ensures
        spec_charge(sub, now, grace_period).1 is Ok,
{
}

/// Non-active rejection is total: charging a `Paused`, `Cancelled` or
/// `InsufficientBalance` subscription fails with `NotActive` and mutates
/// nothing, regardless of balance or elapsed time.
pub proof fn lemma_non_active_rejection(sub: Subscription, now: u64, grace_period: u64)
    requires
        sub.status == SubscriptionStatus::Paused || sub.status == SubscriptionStatus::Cancelled
            || sub.status == SubscriptionStatus::InsufficientBalance,
    ensures
        spec_charge(sub, now, grace_period) == (sub, Err::<(), Error>(Error::NotActive)),
{
}

/// Overflow guard: when `last_payment_timestamp + interval_seconds` exceeds
/// the time type's range, the charge fails with `Overflow` and performs no
/// mutation.
pub proof fn lemma_overflow_guard(sub: Subscription, now: u64, grace_period: u64)
    requires
        spec_chargeable(sub.status),
        spec_next_allowed(sub) > u64::MAX,
    ensures
        spec_charge(sub, now, grace_period) == (sub, Err::<(), Error>(Error::Overflow)),
{
}

/// Transition closure of the charge engine: whatever the outcome, the
/// record's status moves only along the table or stays where it is.
pub proof fn lemma_charge_transition_closure(sub: Subscription, now: u64, grace_period: u64)
    ensures
        spec_can_transition(sub.status, spec_charge(sub, now, grace_period).0.status),
{
}

/// Transition closure of cancellation.
pub proof fn lemma_cancel_transition_closure(sub: Subscription, authorizer: u64)
    ensures
        spec_can_transition(sub.status, spec_cancel(sub, authorizer).0.status),
{
}

/// Transition closure of the plain status writes (pause and resume).
pub proof fn lemma_set_status_transition_closure(
    sub: Subscription,
    authorizer: u64,
    target: SubscriptionStatus,
)
    ensures
        spec_can_transition(sub.status, spec_set_status(sub, authorizer, target).0.status),
{
}

/// Top-up correctness: no intervals need no deposit; a balance that covers
/// the requirement needs none; and otherwise the estimate is exactly the
/// shortfall.
pub proof fn lemma_topup_correctness(sub: Subscription, num_intervals: u32)
    requires
        sub.prepaid_balance >= 0,
    ensures
        num_intervals == 0 ==> spec_topup(sub, num_intervals) == 0,
        sub.prepaid_balance >= sub.amount * num_intervals ==> spec_topup(sub, num_intervals) == 0,
        sub.prepaid_balance < sub.amount * num_intervals ==> spec_topup(sub, num_intervals)
            == sub.amount * num_intervals - sub.prepaid_balance,
{
    assert(sub.amount * 0 == 0);
}

/// Failure semantics of the charge engine: every rejection other than the
/// insufficient-funds one is pure — no state change, safe to retry — and
/// the insufficient-funds rejection changes the status alone.
pub proof fn lemma_failure_semantics(sub: Subscription, now: u64, grace_period: u64)
    ensures
        ({
            let outcome = spec_charge(sub, now, grace_period);
            &&& (outcome.1 is Err && outcome.1 != Err::<(), Error>(Error::InsufficientBalance))
                ==> outcome.0 == sub
            &&& outcome.1 == Err::<(), Error>(Error::InsufficientBalance) ==> outcome.0 == (
            Subscription { status: outcome.0.status, ..sub })
        }),
{
}

/// The payment timestamp is monotonically non-decreasing across charges:
/// a successful charge re-anchors it to `now`, which the interval check
/// placed at or past the old value, and every failing outcome keeps it.
pub proof fn lemma_timestamp_monotonic(sub: Subscription, now: u64, grace_period: u64)
    ensures
        spec_charge(sub, now, grace_period).0.last_payment_timestamp
            >= sub.last_payment_timestamp,
{
}

/// The prepaid balance never goes negative: every deduction is preceded by
/// a sufficiency check.
pub proof fn lemma_balance_never_negative(sub: Subscription, now: u64, grace_period: u64)
    requires
        sub.prepaid_balance >= 0,
    ensures
        spec_charge(sub, now, grace_period).0.prepaid_balance >= 0,
{
}

/// Readiness of one record to be charged at `now`: a chargeable status and
/// an elapsed, representable interval boundary.
pub open spec fn spec_ready(sub: Subscription, now: u64) -> bool {
    &&& spec_chargeable(sub.status)
    &&& spec_next_allowed(sub) <= u64::MAX
    &&& now >= spec_next_allowed(sub)
}

/// The batch is length-preserving: one report per requested id, in order,
/// and the store keeps one record per subscription ever created.
pub proof fn lemma_batch_lengths(
    subs: Seq<Subscription>,
    grace_period: u64,
    ids: Seq<u32>,
    now: u64,
)
    ensures
        spec_batch_charge(subs, grace_period, ids, now).1.len() == ids.len(),
        spec_batch_charge(subs, grace_period, ids, now).0.len() == subs.len(),
    decreases ids.len(),
{
    if ids.len() > 0 {
        let step = spec_charge_step(subs, grace_period, ids[0], now);
        lemma_batch_lengths(step.0, grace_period, ids.drop_first(), now);
    }
}

/// Every batch report carries `error_code == 0` exactly when it reports
/// success: 0 is reserved for success and every error's code is nonzero.
pub proof fn lemma_batch_code_iff_success(
    subs: Seq<Subscription>,
    grace_period: u64,
    ids: Seq<u32>,
    now: u64,
)
    ensures
        forall|k: int|
            0 <= k < spec_batch_charge(subs, grace_period, ids, now).1.len()
                ==> (#[trigger] spec_batch_charge(subs, grace_period, ids, now).1[k].success
                <==> spec_batch_charge(subs, grace_period, ids, now).1[k].error_code == 0),
    decreases ids.len(),
{
    let outcome = spec_batch_charge(subs, grace_period, ids, now);
    if ids.len() > 0 {
        let step = spec_charge_step(subs, grace_period, ids[0], now);
        lemma_batch_code_iff_success(step.0, grace_period, ids.drop_first(), now);
        let rest = spec_batch_charge(step.0, grace_period, ids.drop_first(), now);
        assert forall|k: int|
            0 <= k < outcome.1.len() implies (#[trigger] outcome.1[k].success <==> outcome.1[k].error_code
            == 0) by {
            if k > 0 {
                assert(outcome.1[k] == rest.1[k - 1]);
            }
        }
    }
}

/// Batch isolation, general form: with pairwise-distinct ids, every entry
/// is charged exactly as it would have been alone against the original
/// store — one entry's outcome never contaminates another — and records
/// whose id is not in the batch are untouched.
pub proof fn lemma_batch_isolation(
    subs: Seq<Subscription>,
    grace_period: u64,
    ids: Seq<u32>,
    now: u64,
)
    requires
        subs.len() <= u32::MAX,
        forall|j: int, k: int| 0 <= j < k < ids.len() ==> ids[j] != ids[k],
    ensures
        spec_batch_charge(subs, grace_period, ids, now).1.len() == ids.len(),
        spec_batch_charge(subs, grace_period, ids, now).0.len() == subs.len(),
        forall|k: int|
            0 <= k < ids.len() && ids[k] < subs.len() ==> {
                let single = spec_charge(subs[ids[k] as int], now, grace_period);
                spec_batch_charge(subs, grace_period, ids, now).1[k] == spec_batch_result(single.1)
                    && spec_batch_charge(subs, grace_period, ids, now).0[ids[k] as int]
                    == single.0
            },
        forall|k: int|
            0 <= k < ids.len() && ids[k] >= subs.len() ==> spec_batch_charge(
                subs,
                grace_period,
                ids,
                now,
            ).1[k] == spec_batch_result(Err::<(), Error>(Error::NotFound)),
        forall|j: int|
            0 <= j < subs.len() && !ids.contains(j as u32) ==> spec_batch_charge(
                subs,
                grace_period,
                ids,
                now,
            ).0[j] == subs[j],
    decreases ids.len(),
{
    let outcome = spec_batch_charge(subs, grace_period, ids, now);
    if ids.len() == 0 {
    } else {
        let id0 = ids[0];
        let step = spec_charge_step(subs, grace_period, id0, now);
        let rest_ids = ids.drop_first();
        assert forall|j: int, k: int| 0 <= j < k < rest_ids.len() implies rest_ids[j]
            != rest_ids[k] by {
            assert(rest_ids[j] == ids[j + 1]);
            assert(rest_ids[k] == ids[k + 1]);
        }
        assert(step.0.len() == subs.len());
        lemma_batch_isolation(step.0, grace_period, rest_ids, now);
        let rest = spec_batch_charge(step.0, grace_period, rest_ids, now);
        assert(outcome == (rest.0, seq![step.1] + rest.1));
        assert(!rest_ids.contains(id0)) by {
            if rest_ids.contains(id0) {
                let i = choose|i: int| 0 <= i < rest_ids.len() && rest_ids[i] == id0;
                assert(ids[i + 1] == id0);
            }
        }
        if id0 < subs.len() {
            let single0 = spec_charge(subs[id0 as int], now, grace_period);
            assert(outcome.1[0] == step.1);
            assert(rest.0[id0 as int] == step.0[id0 as int]);
            assert(outcome.0[id0 as int] == single0.0);
        } else {
            assert(outcome.1[0] == spec_batch_result(Err::<(), Error>(Error::NotFound)));
        }
        assert forall|k: int| 1 <= k < ids.len() && ids[k] < subs.len() implies ({
            let single = spec_charge(subs[ids[k] as int], now, grace_period);
            outcome.1[k] == spec_batch_result(single.1) && outcome.0[ids[k] as int] == single.0
        }) by {
            assert(rest_ids[k - 1] == ids[k]);
            assert(ids[k] != id0);
            assert(step.0[ids[k] as int] == subs[ids[k] as int]);
            assert(outcome.1[k] == rest.1[k - 1]);
        }
        assert forall|k: int| 1 <= k < ids.len() && ids[k] >= subs.len() implies outcome.1[k]
            == spec_batch_result(Err::<(), Error>(Error::NotFound)) by {
            assert(rest_ids[k - 1] == ids[k]);
            assert(outcome.1[k] == rest.1[k - 1]);
        }
        assert forall|j: int| 0 <= j < subs.len() && !ids.contains(j as u32) implies outcome.0[j]
            == subs[j] by {
            assert(ids[0] != j as u32);
            assert(!rest_ids.contains(j as u32)) by {
                if rest_ids.contains(j as u32) {
                    let i = choose|i: int| 0 <= i < rest_ids.len() && rest_ids[i] == j as u32;
                    assert(ids[i + 1] == j as u32);
                }
            }
            assert(step.0[j] == subs[j]);
        }
    }
}

/// Batch isolation, the single-insufficiency scenario: in a batch of
/// distinct, existing ids where exactly the entry at position `f` lacks
/// funds, every other entry succeeds with its exact deduction, and the
/// failing entry reports `InsufficientBalance`'s code with its balance
/// untouched.
pub proof fn lemma_batch_single_insufficiency(
    subs: Seq<Subscription>,
    grace_period: u64,
    ids: Seq<u32>,
    now: u64,
    f: int,
)
    requires
        subs.len() <= u32::MAX,
        forall|j: int, k: int| 0 <= j < k < ids.len() ==> ids[j] != ids[k],
        forall|k: int| 0 <= k < ids.len() ==> ids[k] < subs.len(),
        0 <= f < ids.len(),
        forall|k: int|
            0 <= k < ids.len() && k != f ==> {
                let s = subs[(#[trigger] ids[k]) as int];
                spec_ready(s, now) && s.prepaid_balance >= s.amount && s.prepaid_balance - s.amount
                    <= i128::MAX
            },
        ({
            let s = subs[ids[f] as int];
            spec_ready(s, now) && s.prepaid_balance < s.amount && spec_next_allowed(s)
                + grace_period <= u64::MAX
        }),
    ensures
        spec_batch_charge(subs, grace_period, ids, now).1.len() == ids.len(),
        forall|k: int|
            0 <= k < ids.len() && k != f ==> {
                let report = spec_batch_charge(subs, grace_period, ids, now).1[k];
                let after = spec_batch_charge(subs, grace_period, ids, now).0[(#[trigger] ids[k]) as int];
                report.success && report.error_code == 0 && after.prepaid_balance
                    == subs[ids[k] as int].prepaid_balance - subs[ids[k] as int].amount
            },
        !spec_batch_charge(subs, grace_period, ids, now).1[f].success,
        spec_batch_charge(subs, grace_period, ids, now).1[f].error_code == spec_error_code(
            Error::InsufficientBalance,
        ),
        spec_batch_charge(subs, grace_period, ids, now).0[ids[f] as int].prepaid_balance
            == subs[ids[f] as int].prepaid_balance,
{
    lemma_batch_isolation(subs, grace_period, ids, now);
    let outcome = spec_batch_charge(subs, grace_period, ids, now);
    assert forall|k: int| 0 <= k < ids.len() && k != f implies ({
        let report = outcome.1[k];
        let after = outcome.0[(#[trigger] ids[k]) as int];
        report.success && report.error_code == 0 && after.prepaid_balance
            == subs[ids[k] as int].prepaid_balance - subs[ids[k] as int].amount
    }) by {
        let single = spec_charge(subs[ids[k] as int], now, grace_period);
        assert(single.1 is Ok);
        assert(outcome.1[k] == spec_batch_result(single.1));
    }
    let singlef = spec_charge(subs[ids[f] as int], now, grace_period);
    assert(singlef.1 == Err::<(), Error>(Error::InsufficientBalance));
    assert(outcome.1[f] == spec_batch_result(singlef.1));
}

} // verus!
