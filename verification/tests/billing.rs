use subscription_vault::Error;
use subscription_vault::SubscriptionVault;

// -- Billing interval enforcement tests --------------------------------------

const T0: u64 = 1000;
const INTERVAL: u64 = 30 * 24 * 60 * 60; // 30 days in seconds

const TOKEN: u64 = 900;
const ADMIN: u64 = 901;
const SUBSCRIBER: u64 = 101;
const MERCHANT: u64 = 202;

/// Set up a vault with one subscription created at T0 with the given
/// interval_seconds. The subscription has enough prepaid balance for
/// multiple charges (10 USDC).
fn setup(interval_seconds: u64) -> (SubscriptionVault, u32) {
    let mut vault = SubscriptionVault::new();
    vault.init(TOKEN, ADMIN, 1_000000i128).unwrap();
    let id = vault
        .create_subscription(SUBSCRIBER, MERCHANT, 1000i128, interval_seconds, false, T0)
        .unwrap();
    vault.deposit_funds(id, SUBSCRIBER, 10_000000i128).unwrap(); // 10 USDC so charge can succeed
    (vault, id)
}

/// Just-before: charge 1 second before the interval elapses.
/// Must reject with IntervalNotElapsed and leave storage untouched.
#[test]
fn test_charge_rejected_before_interval() {
    let (mut vault, id) = setup(INTERVAL);

    // 1 second too early.
    let res = vault.charge_subscription(id, T0 + INTERVAL - 1);
    assert_eq!(res, Err(Error::IntervalNotElapsed));

    // Storage unchanged — last_payment_timestamp still equals creation time.
    let sub = vault.get_subscription(id).unwrap();
    assert_eq!(sub.last_payment_timestamp, T0);
}

/// Exact boundary: charge at exactly last_payment_timestamp + interval_seconds.
/// Must succeed and advance last_payment_timestamp.
#[test]
fn test_charge_succeeds_at_exact_interval() {
    let (mut vault, id) = setup(INTERVAL);

    vault.charge_subscription(id, T0 + INTERVAL).unwrap();

    let sub = vault.get_subscription(id).unwrap();
    assert_eq!(sub.last_payment_timestamp, T0 + INTERVAL);
}

/// After interval: charge well past the interval boundary.
/// Must succeed and set last_payment_timestamp to the current ledger time.
#[test]
fn test_charge_succeeds_after_interval() {
    let (mut vault, id) = setup(INTERVAL);

    let charge_time = T0 + 2 * INTERVAL;
    vault.charge_subscription(id, charge_time).unwrap();

    let sub = vault.get_subscription(id).unwrap();
    assert_eq!(sub.last_payment_timestamp, charge_time);
}

/// Same-timestamp retry: a second charge at the identical timestamp that
/// succeeded must be rejected because 0 seconds < interval_seconds.
#[test]
fn test_immediate_retry_at_same_timestamp_rejected() {
    let (mut vault, id) = setup(INTERVAL);

    let t1 = T0 + INTERVAL;
    vault.charge_subscription(id, t1).unwrap();

    // Retry at the same timestamp — must fail, storage stays at t1.
    let res = vault.charge_subscription(id, t1);
    assert_eq!(res, Err(Error::IntervalNotElapsed));

    let sub = vault.get_subscription(id).unwrap();
    assert_eq!(sub.last_payment_timestamp, t1);
}

/// Repeated charges across 6 consecutive intervals.
/// Verifies the sliding-window reset works correctly over many cycles.
#[test]
fn test_repeated_charges_across_many_intervals() {
    let (mut vault, id) = setup(INTERVAL);

    for i in 1..=6u64 {
        let charge_time = T0 + i * INTERVAL;
        vault.charge_subscription(id, charge_time).unwrap();

        let sub = vault.get_subscription(id).unwrap();
        assert_eq!(sub.last_payment_timestamp, charge_time);
    }

    // One more attempt without advancing time — must fail.
    let res = vault.charge_subscription(id, T0 + 6 * INTERVAL);
    assert_eq!(res, Err(Error::IntervalNotElapsed));
}

/// Minimum interval (1 second): charge at creation time must fail,
/// charge 1 second later must succeed.
#[test]
fn test_one_second_interval_boundary() {
    let (mut vault, id) = setup(1);

    // At creation time — 0 seconds elapsed, interval is 1 s → too early.
    let res = vault.charge_subscription(id, T0);
    assert_eq!(res, Err(Error::IntervalNotElapsed));

    // Exactly 1 second later — boundary, should succeed.
    vault.charge_subscription(id, T0 + 1).unwrap();

    let sub = vault.get_subscription(id).unwrap();
    assert_eq!(sub.last_payment_timestamp, T0 + 1);
}

#[test]
fn test_min_topup_below_threshold() {
    let mut vault = SubscriptionVault::new();
    let min_topup = 5_000000i128; // 5 USDC
    vault.init(TOKEN, ADMIN, min_topup).unwrap();

    let result = vault.deposit_funds(0, SUBSCRIBER, 4_999999);
    assert!(result.is_err());
}

#[test]
fn test_charge_subscription_auth() {
    let mut vault = SubscriptionVault::new();
    vault.init(TOKEN, ADMIN, 1_000000i128).unwrap();

    // Create a subscription so ID 0 exists
    vault
        .create_subscription(SUBSCRIBER, MERCHANT, 1000i128, 3600u64, false, 0)
        .unwrap();
    vault.deposit_funds(0, SUBSCRIBER, 10_000000i128).unwrap();

    // interval elapsed so charge is allowed
    vault.charge_subscription(0, 3600).unwrap();
}

#[test]
fn test_charge_subscription_admin() {
    let mut vault = SubscriptionVault::new();
    vault.init(TOKEN, ADMIN, 1_000000i128).unwrap();

    // Create a subscription so ID 0 exists
    vault
        .create_subscription(SUBSCRIBER, MERCHANT, 1000i128, 3600u64, false, 0)
        .unwrap();
    vault.deposit_funds(0, SUBSCRIBER, 10_000000i128).unwrap();

    // interval elapsed so charge is allowed; the environment has
    // authenticated the administrator before invoking the charge
    vault.charge_subscription(0, 3600).unwrap();
}

#[test]
fn test_min_topup_exactly_at_threshold() {
    let mut vault = SubscriptionVault::new();
    let min_topup = 5_000000i128; // 5 USDC
    vault.init(TOKEN, ADMIN, min_topup).unwrap();
    vault
        .create_subscription(SUBSCRIBER, MERCHANT, 1000i128, 86400u64, false, 0)
        .unwrap();

    let result = vault.deposit_funds(0, SUBSCRIBER, min_topup);
    assert!(result.is_ok());
}

#[test]
fn test_min_topup_above_threshold() {
    let mut vault = SubscriptionVault::new();
    let min_topup = 5_000000i128; // 5 USDC
    vault.init(TOKEN, ADMIN, min_topup).unwrap();
    vault
        .create_subscription(SUBSCRIBER, MERCHANT, 1000i128, 86400u64, false, 0)
        .unwrap();

    let result = vault.deposit_funds(0, SUBSCRIBER, 10_000000);
    assert!(result.is_ok());
}

#[test]
fn test_set_min_topup_by_admin() {
    let mut vault = SubscriptionVault::new();
    let initial_min = 1_000000i128;
    let new_min = 10_000000i128;

    vault.init(TOKEN, ADMIN, initial_min).unwrap();
    assert_eq!(vault.get_min_topup().unwrap(), initial_min);

    vault.set_min_topup(ADMIN, new_min).unwrap();
    assert_eq!(vault.get_min_topup().unwrap(), new_min);
}

#[test]
fn test_set_min_topup_unauthorized() {
    let mut vault = SubscriptionVault::new();
    let non_admin: u64 = 777;
    vault.init(TOKEN, ADMIN, 1_000000i128).unwrap();

    let result = vault.set_min_topup(non_admin, 5_000000);
    assert!(result.is_err());
}

// =============================================================================
// estimate_topup_for_intervals tests
// =============================================================================

fn setup_estimate_env() -> (SubscriptionVault, u32) {
    let mut vault = SubscriptionVault::new();
    vault.init(TOKEN, ADMIN, 1_000000i128).unwrap();
    // 10 USDC per interval, 30 days
    let id = vault
        .create_subscription(SUBSCRIBER, MERCHANT, 10_000_000i128, 30 * 24 * 60 * 60, false, 0)
        .unwrap();
    (vault, id)
}

#[test]
fn test_estimate_topup_zero_intervals_returns_zero() {
    let (vault, id) = setup_estimate_env();
    let topup = vault.estimate_topup_for_intervals(id, 0).unwrap();
    assert_eq!(topup, 0);
}

#[test]
fn test_estimate_topup_balance_already_covers_returns_zero() {
    let (mut vault, id) = setup_estimate_env();
    // 10 USDC per interval, deposit 30 USDC, ask for 3 intervals
    // -> required 30, balance 30, topup 0
    vault.deposit_funds(id, SUBSCRIBER, 30_000000i128).unwrap();
    let sub = vault.get_subscription(id).unwrap();
    assert_eq!(sub.amount, 10_000_000);
    let topup = vault.estimate_topup_for_intervals(id, 3).unwrap();
    assert_eq!(topup, 0);
}

#[test]
fn test_estimate_topup_insufficient_balance_returns_shortfall() {
    let (mut vault, id) = setup_estimate_env();
    // amount 10_000_000, 3 intervals = 30_000_000 required;
    // deposit 10_000_000 -> topup 20_000_000
    vault.deposit_funds(id, SUBSCRIBER, 10_000000i128).unwrap();
    let topup = vault.estimate_topup_for_intervals(id, 3).unwrap();
    assert_eq!(topup, 20_000_000);
}

#[test]
fn test_estimate_topup_no_balance_returns_full_required() {
    let (vault, id) = setup_estimate_env();
    // prepaid_balance 0, 5 intervals * 10_000_000 = 50_000_000
    let topup = vault.estimate_topup_for_intervals(id, 5).unwrap();
    assert_eq!(topup, 50_000_000);
}

#[test]
fn test_estimate_topup_subscription_not_found() {
    let (vault, _) = setup_estimate_env();
    let result = vault.estimate_topup_for_intervals(9999, 1);
    assert_eq!(result, Err(Error::NotFound));
}

// =============================================================================
// batch_charge tests
// =============================================================================

fn setup_batch_env() -> (SubscriptionVault, u32, u32) {
    let mut vault = SubscriptionVault::new();
    vault.init(TOKEN, ADMIN, 1_000000i128).unwrap();
    let id0 = vault
        .create_subscription(SUBSCRIBER, MERCHANT, 1000i128, INTERVAL, false, T0)
        .unwrap();
    vault.deposit_funds(id0, SUBSCRIBER, 10_000000i128).unwrap();
    let id1 = vault
        .create_subscription(SUBSCRIBER, MERCHANT, 1000i128, INTERVAL, false, T0)
        .unwrap();
    vault.deposit_funds(id1, SUBSCRIBER, 10_000000i128).unwrap();
    (vault, id0, id1)
}

#[test]
fn test_batch_charge_empty_list_returns_empty() {
    let (mut vault, _, _) = setup_batch_env();
    let ids: Vec<u32> = Vec::new();
    let results = vault.batch_charge(&ids, T0 + INTERVAL).unwrap();
    assert_eq!(results.len(), 0);
}

#[test]
fn test_batch_charge_all_success() {
    let (mut vault, id0, id1) = setup_batch_env();
    let ids = vec![id0, id1];
    let results = vault.batch_charge(&ids, T0 + INTERVAL).unwrap();
    assert_eq!(results.len(), 2);
    assert!(results[0].success);
    assert!(results[1].success);
}

#[test]
fn test_batch_charge_partial_failure() {
    let mut vault = SubscriptionVault::new();
    vault.init(TOKEN, ADMIN, 1_000000i128).unwrap();
    let id0 = vault
        .create_subscription(SUBSCRIBER, MERCHANT, 1000i128, INTERVAL, false, T0)
        .unwrap();
    vault.deposit_funds(id0, SUBSCRIBER, 10_000000i128).unwrap();
    let id1 = vault
        .create_subscription(SUBSCRIBER, MERCHANT, 1000i128, INTERVAL, false, T0)
        .unwrap();
    // id1 has no deposit -> charge will fail with InsufficientBalance
    let ids = vec![id0, id1];
    let results = vault.batch_charge(&ids, T0 + INTERVAL).unwrap();
    assert_eq!(results.len(), 2);
    assert!(results[0].success);
    assert!(!results[1].success);
    assert_eq!(
        results[1].error_code,
        Error::InsufficientBalance.to_code()
    );
}
