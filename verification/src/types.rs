//! Shared entity and error types of the billing core.

use vstd::prelude::*;

verus! {

/// The closed error taxonomy of the vault, with stable numeric codes used
/// verbatim in [`BatchChargeResult::error_code`].
#[derive(Clone, Copy, Debug, PartialEq, Eq, Structural)]
pub enum Error {
    /// The referenced subscription id does not exist.
    NotFound,
    /// The caller is not allowed to perform the operation.
    Unauthorized,
    /// The vault configuration was already written.
    AlreadyInitialized,
    /// A charge was attempted on a subscription that is neither `Active`
    /// nor in its grace period.
    NotActive,
    /// A charge was attempted before `last_payment_timestamp + interval_seconds`.
    IntervalNotElapsed,
    /// The prepaid funds are below the per-interval amount.
    InsufficientBalance,
    /// A timestamp or balance computation would exceed its representable range.
    Overflow,
    /// A status change not permitted by the transition table and not a
    /// self-transition.
    InvalidStatusTransition,
    /// A stranded-fund recovery was requested for a non-positive amount.
    InvalidRecoveryAmount,
}

/// The stable numeric code of each error.
pub open spec fn spec_error_code(e: Error) -> u32 {
    match e {
        Error::InvalidStatusTransition => 400,
        Error::Unauthorized => 401,
        Error::InsufficientBalance => 402,
        Error::NotFound => 404,
        Error::AlreadyInitialized => 409,
        Error::NotActive => 412,
        Error::InvalidRecoveryAmount => 422,
        Error::IntervalNotElapsed => 425,
        Error::Overflow => 500,
    }
}

impl Error {
    /// The stable numeric code, for cross-boundary reporting. Never 0:
    /// 0 is reserved for success in [`BatchChargeResult`].
    pub fn to_code(&self) -> (c: u32)
        ensures
            c == spec_error_code(*self),
            c != 0,
    {
        match self {
            Error::InvalidStatusTransition => 400,
            Error::Unauthorized => 401,
            Error::InsufficientBalance => 402,
            Error::NotFound => 404,
            Error::AlreadyInitialized => 409,
            Error::NotActive => 412,
            Error::InvalidRecoveryAmount => 422,
            Error::IntervalNotElapsed => 425,
            Error::Overflow => 500,
        }
    }
}

/// The bounded lifecycle of a subscription.
#[derive(Clone, Copy, Debug, PartialEq, Eq, Structural)]
pub enum SubscriptionStatus {
    /// Charges are collected every interval.
    Active,
    /// Suspended by the subscriber or merchant; no charges until resumed.
    Paused,
    /// Terminal: once set, the record is never mutated again.
    Cancelled,
    /// Demoted after the grace window lapsed with funds still short.
    InsufficientBalance,
    /// Funds ran short within the configured grace window; the subscription
    /// is held here rather than demoted immediately.
    GracePeriod,
}

/// One subscription record. Identities are opaque unsigned integer
/// references assigned by the surrounding environment.
#[derive(Clone, Copy, Debug, PartialEq, Eq, Structural)]
pub struct Subscription {
    /// Identity reference of the paying party; immutable after creation.
    pub subscriber: u64,
    /// Identity reference of the paid party; immutable after creation.
    pub merchant: u64,
    /// Charge amount per interval, in the settlement token's smallest unit;
    /// positive at creation.
    pub amount: i128,
    /// Billing period length; immutable.
    pub interval_seconds: u64,
    /// Ledger time of the most recent successful charge, or the creation
    /// time if never charged.
    pub last_payment_timestamp: u64,
    pub status: SubscriptionStatus,
    /// Prepaid funds held by the vault for this subscription; never negative.
    pub prepaid_balance: i128,
    /// Reserved for metered billing extensions; not consumed by the core.
    pub usage_enabled: bool,
}

/// Per-item outcome of a batch charge: `error_code == 0` iff `success`.
#[derive(Clone, Copy, Debug, PartialEq, Eq, Structural)]
pub struct BatchChargeResult {
    pub success: bool,
    pub error_code: u32,
}

/// Why stranded funds were recovered by the administrator.
#[derive(Clone, Copy, Debug, PartialEq, Eq, Structural)]
pub enum RecoveryReason {
    /// Funds left behind on a cancelled subscription with no claimant.
    StrandedDeposit,
    /// A payout that could not be delivered to its merchant.
    FailedPayout,
    /// A manual correction recorded by the administrator.
    AdminCorrection,
}

/// Record of one approved stranded-fund recovery, for the surrounding
/// environment to publish and settle.
#[derive(Clone, Copy, Debug, PartialEq, Eq, Structural)]
pub struct RecoveryEvent {
    pub admin: u64,
    pub recipient: u64,
    pub amount: i128,
    pub reason: RecoveryReason,
    pub timestamp: u64,
}

} // verus!
