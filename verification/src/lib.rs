//! Recurring-billing ledger: per-subscription prepaid balances, billing
//! intervals, and a bounded subscription lifecycle.
//!
//! The core is the billing state machine and the charge-evaluation engine:
//! the status transition table, the single-charge algorithm (interval
//! enforcement, grace-period admission, overflow-safe balance accounting),
//! the batch-charge orchestrator, and the top-up estimator.
//!
//! Everything here is plain logic over plain values. The surrounding
//! execution environment (persistent storage, the ledger clock, signature
//! authorization, token settlement, event publication) is kept outside and
//! hands this library values through the `SubscriptionVault` state type.

mod admin;
mod charge_core;
mod laws;
mod merchant;
mod state_machine;
mod types;
mod vault;

pub use admin::do_batch_charge;
pub use admin::do_get_admin;
pub use admin::do_init;
pub use admin::do_recover_stranded_funds;
pub use admin::do_rotate_admin;
pub use admin::do_set_grace_period;
pub use admin::do_set_min_topup;
pub use admin::get_grace_period;
pub use admin::get_min_topup;
pub use admin::require_admin;
pub use admin::spec_batch_charge;
pub use admin::spec_batch_result;
pub use admin::spec_charge_step;
pub use charge_core::charge_one;
pub use charge_core::charge_record;
pub use charge_core::spec_charge;
pub use charge_core::spec_chargeable;
pub use charge_core::spec_next_allowed;
pub use laws::lemma_balance_conservation;
pub use laws::lemma_balance_never_negative;
pub use laws::lemma_batch_code_iff_success;
pub use laws::lemma_batch_isolation;
pub use laws::lemma_batch_lengths;
pub use laws::lemma_batch_single_insufficiency;
pub use laws::lemma_cancel_transition_closure;
pub use laws::lemma_charge_transition_closure;
pub use laws::lemma_exact_boundary_admits_charge;
pub use laws::lemma_failure_semantics;
pub use laws::lemma_no_double_charge;
pub use laws::lemma_non_active_rejection;
pub use laws::lemma_overflow_guard;
pub use laws::lemma_set_status_transition_closure;
pub use laws::lemma_timestamp_monotonic;
pub use laws::lemma_topup_correctness;
pub use laws::spec_ready;
pub use merchant::withdraw_merchant_funds;
pub use state_machine::can_transition;
pub use state_machine::get_allowed_transitions;
pub use state_machine::lemma_allowed_transitions_match_table;
pub use state_machine::spec_allowed_transitions;
pub use state_machine::spec_can_transition;
pub use state_machine::spec_table_edge;
pub use state_machine::validate_status_transition;
pub use types::spec_error_code;
pub use types::BatchChargeResult;
pub use types::Error;
pub use types::RecoveryEvent;
pub use types::RecoveryReason;
pub use types::Subscription;
pub use types::SubscriptionStatus;
pub use vault::spec_cancel;
pub use vault::spec_same_config;
pub use vault::spec_set_status;
pub use vault::spec_topup;
pub use vault::spec_withdraw;
pub use vault::SubscriptionVault;
