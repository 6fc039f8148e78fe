//! The vault state: configuration and the subscription store, with the
//! externally invoked operations.
//!
//! Identifiers are assigned at creation, monotonically increasing and never
//! reused: the record with id `i` is `subscriptions[i]`. The surrounding
//! environment performs signature authorization, token settlement and event
//! publication; every operation here takes the already-authenticated caller
//! identity and the current ledger time as plain values.

use vstd::prelude::*;

use crate::charge_core::charge_one;
use crate::state_machine::spec_can_transition;
use crate::state_machine::validate_status_transition;
use crate::types::BatchChargeResult;
use crate::types::Error;
use crate::types::Subscription;
use crate::types::SubscriptionStatus;

verus! {

pub struct SubscriptionVault {
    /// Whether the configuration below was written.
    pub initialized: bool,
    /// Identity reference of the settlement token contract.
    pub token: u64,
    /// Decimals of the settlement token.
    pub token_decimals: u32,
    /// Identity reference of the administrator.
    pub admin: u64,
    /// Smallest accepted deposit.
    pub min_topup: i128,
    /// Grace window granted after a missed charge; 0 if never set.
    pub grace_period: u64,
    /// All records ever created, indexed by id.
    pub subscriptions: Vec<Subscription>,
}

/// The configuration fields of `a` and `b` agree (the subscription store
/// aside).
pub open spec fn spec_same_config(a: SubscriptionVault, b: SubscriptionVault) -> bool {
    &&& a.initialized == b.initialized
    &&& a.token == b.token
    &&& a.token_decimals == b.token_decimals
    &&& a.admin == b.admin
    &&& a.min_topup == b.min_topup
    &&& a.grace_period == b.grace_period
}

/// Cancellation of one record: idempotent on an already-cancelled record,
/// gated on the subscriber or merchant, and validated against the
/// transition table.
pub open spec fn spec_cancel(sub: Subscription, authorizer: u64) -> (Subscription, Result<
    (),
    Error,
>) {
    if sub.status == SubscriptionStatus::Cancelled {
        (sub, Ok(()))
    } else if authorizer != sub.subscriber && authorizer != sub.merchant {
        (sub, Err(Error::Unauthorized))
    } else if !spec_can_transition(sub.status, SubscriptionStatus::Cancelled) {
        (sub, Err(Error::InvalidStatusTransition))
    } else {
        (Subscription { status: SubscriptionStatus::Cancelled, ..sub }, Ok(()))
    }
}

/// A plain status change of one record to `target`: gated on the subscriber
/// or merchant, and validated against the transition table (self-transitions
/// are idempotent no-ops).
pub open spec fn spec_set_status(sub: Subscription, authorizer: u64, target: SubscriptionStatus) -> (
    Subscription,
    Result<(), Error>,
) {
    if authorizer != sub.subscriber && authorizer != sub.merchant {
        (sub, Err(Error::Unauthorized))
    } else if !spec_can_transition(sub.status, target) {
        (sub, Err(Error::InvalidStatusTransition))
    } else {
        (Subscription { status: target, ..sub }, Ok(()))
    }
}

/// Withdrawal of the remaining prepaid balance after cancellation: the
/// record to persist and the amount the environment must pay out.
pub open spec fn spec_withdraw(sub: Subscription, subscriber: u64) -> (Subscription, Result<
    i128,
    Error,
>) {
    if subscriber != sub.subscriber {
        (sub, Err(Error::Unauthorized))
    } else if sub.status != SubscriptionStatus::Cancelled {
        (sub, Err(Error::Unauthorized))
    } else if sub.prepaid_balance > 0 {
        (Subscription { prepaid_balance: 0, ..sub }, Ok(sub.prepaid_balance))
    } else {
        (sub, Ok(0))
    }
}

/// The deposit shortfall for `num_intervals` future charges:
/// `max(amount * num_intervals - prepaid_balance, 0)`.
pub open spec fn spec_topup(sub: Subscription, num_intervals: u32) -> int {
    if sub.prepaid_balance >= sub.amount * num_intervals {
        0
    } else {
        sub.amount * num_intervals - sub.prepaid_balance
    }
}

impl SubscriptionVault {
    /// An empty, unconfigured vault.
    pub fn new() -> (v: SubscriptionVault)
        ensures
            !v.initialized,
            v.token == 0,
            v.token_decimals == 0,
            v.admin == 0,
            v.min_topup == 0,
            v.grace_period == 0,
            v.subscriptions@ == Seq::<Subscription>::empty(),
    {
        SubscriptionVault {
            initialized: false,
            token: 0,
            token_decimals: 0,
            admin: 0,
            min_topup: 0,
            grace_period: 0,
            subscriptions: Vec::new(),
        }
    }

    /// Writes the token, administrator and minimum top-up, once.
    pub fn init(&mut self, token: u64, admin: u64, min_topup: i128) -> (r: Result<(), Error>)
        ensures
            final(self).subscriptions@ == old(self).subscriptions@,
            old(self).initialized ==> r == Err::<(), Error>(Error::AlreadyInitialized)
                && spec_same_config(*old(self), *final(self)),
            !old(self).initialized ==> {
                &&& r == Ok::<(), Error>(())
                &&& final(self).initialized
                &&& final(self).token == token
                &&& final(self).admin == admin
                &&& final(self).min_topup == min_topup
                &&& final(self).token_decimals == old(self).token_decimals
                &&& final(self).grace_period == old(self).grace_period
            },
    {
        if self.initialized {
            return Err(Error::AlreadyInitialized);
        }
        self.initialized = true;
        self.token = token;
        self.admin = admin;
        self.min_topup = min_topup;
        Ok(())
    }

    /// Stores a new `Active` record with an empty balance, created at `now`,
    /// and returns its id: the index right past the records created before.
    pub fn create_subscription(
        &mut self,
        subscriber: u64,
        merchant: u64,
        amount: i128,
        interval_seconds: u64,
        usage_enabled: bool,
        now: u64,
    ) -> (r: Result<u32, Error>)
        requires
            amount > 0,
        ensures
            spec_same_config(*old(self), *final(self)),
            old(self).subscriptions@.len() >= u32::MAX ==> r == Err::<u32, Error>(Error::Overflow)
                && final(self).subscriptions@ == old(self).subscriptions@,
            old(self).subscriptions@.len() < u32::MAX ==> {
                &&& r == Ok::<u32, Error>(old(self).subscriptions@.len() as u32)
                &&& final(self).subscriptions@ == old(self).subscriptions@.push(
                    Subscription {
                        subscriber,
                        merchant,
                        amount,
                        interval_seconds,
                        last_payment_timestamp: now,
                        status: SubscriptionStatus::Active,
                        prepaid_balance: 0,
                        usage_enabled,
                    },
                )
            },
    {
        if self.subscriptions.len() >= u32::MAX as usize {
            return Err(Error::Overflow);
        }
        let id = self.subscriptions.len() as u32;
        self.subscriptions.push(
            Subscription {
                subscriber,
                merchant,
                amount,
                interval_seconds,
                last_payment_timestamp: now,
                status: SubscriptionStatus::Active,
                prepaid_balance: 0,
                usage_enabled,
            },
        );
        Ok(id)
    }

    /// Reads one record by id.
    pub fn get_subscription(&self, subscription_id: u32) -> (r: Result<Subscription, Error>)
        ensures
            subscription_id < self.subscriptions@.len() ==> r == Ok::<Subscription, Error>(
                self.subscriptions@[subscription_id as int],
            ),
            subscription_id >= self.subscriptions@.len() ==> r == Err::<Subscription, Error>(
                Error::NotFound,
            ),
    {
        let idx = subscription_id as usize;
        if idx < self.subscriptions.len() {
            Ok(self.subscriptions[idx])
        } else {
            Err(Error::NotFound)
        }
    }

    /// Overwrites one existing record, as the store interface of the
    /// surrounding environment does (last write wins).
    pub fn set_subscription(&mut self, subscription_id: u32, sub: Subscription) -> (r: Result<
        (),
        Error,
    >)
        ensures
            spec_same_config(*old(self), *final(self)),
            subscription_id < old(self).subscriptions@.len() ==> r == Ok::<(), Error>(())
                && final(self).subscriptions@ == old(self).subscriptions@.update(
                subscription_id as int,
                sub,
            ),
            subscription_id >= old(self).subscriptions@.len() ==> r == Err::<(), Error>(
                Error::NotFound,
            ) && final(self).subscriptions@ == old(self).subscriptions@,
    {
        let idx = subscription_id as usize;
        if idx < self.subscriptions.len() {
            self.subscriptions[idx] = sub;
            Ok(())
        } else {
            Err(Error::NotFound)
        }
    }

    /// Credits a deposit the environment has already collected from the
    /// subscriber. Only the record's own subscriber may fund it.
    pub fn deposit_funds(&mut self, subscription_id: u32, subscriber: u64, amount: i128) -> (r:
        Result<(), Error>)
        requires
            amount >= 0,
        ensures
            spec_same_config(*old(self), *final(self)),
            subscription_id >= old(self).subscriptions@.len() ==> r == Err::<(), Error>(
                Error::NotFound,
            ) && final(self).subscriptions@ == old(self).subscriptions@,
            subscription_id < old(self).subscriptions@.len() ==> {
                let sub = old(self).subscriptions@[subscription_id as int];
                if subscriber != sub.subscriber {
                    r == Err::<(), Error>(Error::Unauthorized) && final(self).subscriptions@ == old(
                        self,
                    ).subscriptions@
                } else if sub.prepaid_balance + amount > i128::MAX {
                    r == Err::<(), Error>(Error::Overflow) && final(self).subscriptions@ == old(
                        self,
                    ).subscriptions@
                } else {
                    r == Ok::<(), Error>(()) && final(self).subscriptions@ == old(
                        self,
                    ).subscriptions@.update(
                        subscription_id as int,
                        Subscription {
                            prepaid_balance: (sub.prepaid_balance + amount) as i128,
                            ..sub
                        },
                    )
                }
            },
    {
        let idx = subscription_id as usize;
        if idx >= self.subscriptions.len() {
            return Err(Error::NotFound);
        }
        let mut sub = self.subscriptions[idx];
        if subscriber != sub.subscriber {
            return Err(Error::Unauthorized);
        }
        let new_balance = match sub.prepaid_balance.checked_add(amount) {
            Some(b) => b,
            None => { return Err(Error::Overflow) },
        };
        sub.prepaid_balance = new_balance;
        self.subscriptions[idx] = sub;
        Ok(())
    }

    /// Charges one interval: the single-charge algorithm against the
    /// configured grace period, at ledger time `now`.
    pub fn charge_subscription(&mut self, subscription_id: u32, now: u64) -> (r: Result<
        (),
        Error,
    >)
        ensures
            spec_same_config(*old(self), *final(self)),
            subscription_id >= old(self).subscriptions@.len() ==> r == Err::<(), Error>(
                Error::NotFound,
            ) && final(self).subscriptions@ == old(self).subscriptions@,
            subscription_id < old(self).subscriptions@.len() ==> {
                let outcome = crate::charge_core::spec_charge(
                    old(self).subscriptions@[subscription_id as int],
                    now,
                    old(self).grace_period,
                );
                r == outcome.1 && final(self).subscriptions@ == old(
                    self,
                ).subscriptions@.update(subscription_id as int, outcome.0)
            },
    {
        charge_one(self, subscription_id, now)
    }

    /// Cancels a subscription on behalf of its subscriber or merchant.
    /// Already-cancelled records are left as they are.
    pub fn cancel_subscription(&mut self, subscription_id: u32, authorizer: u64) -> (r: Result<
        (),
        Error,
    >)
        ensures
            spec_same_config(*old(self), *final(self)),
            subscription_id >= old(self).subscriptions@.len() ==> r == Err::<(), Error>(
                Error::NotFound,
            ) && final(self).subscriptions@ == old(self).subscriptions@,
            subscription_id < old(self).subscriptions@.len() ==> {
                let outcome = spec_cancel(
                    old(self).subscriptions@[subscription_id as int],
                    authorizer,
                );
                r == outcome.1 && final(self).subscriptions@ == old(
                    self,
                ).subscriptions@.update(subscription_id as int, outcome.0)
            },
    {
        let idx = subscription_id as usize;
        if idx >= self.subscriptions.len() {
            return Err(Error::NotFound);
        }
        let mut sub = self.subscriptions[idx];
        if sub.status == SubscriptionStatus::Cancelled {
            proof {
                assert(old(self).subscriptions@.update(subscription_id as int, sub) =~= old(
                    self,
                ).subscriptions@);
            }
            return Ok(());
        }
        if authorizer != sub.subscriber && authorizer != sub.merchant {
            proof {
                assert(old(self).subscriptions@.update(subscription_id as int, sub) =~= old(
                    self,
                ).subscriptions@);
            }
            return Err(Error::Unauthorized);
        }
        match validate_status_transition(&sub.status, &SubscriptionStatus::Cancelled) {
            Ok(()) => {},
            Err(e) => {
                proof {
                    assert(old(self).subscriptions@.update(subscription_id as int, sub) =~= old(
                        self,
                    ).subscriptions@);
                }
                return Err(e);
            },
        }
        sub.status = SubscriptionStatus::Cancelled;
        self.subscriptions[idx] = sub;
        Ok(())
    }

    /// Pauses a subscription (no charges until resumed), on behalf of its
    /// subscriber or merchant.
    pub fn pause_subscription(&mut self, subscription_id: u32, authorizer: u64) -> (r: Result<
        (),
        Error,
    >)
        ensures
            spec_same_config(*old(self), *final(self)),
            subscription_id >= old(self).subscriptions@.len() ==> r == Err::<(), Error>(
                Error::NotFound,
            ) && final(self).subscriptions@ == old(self).subscriptions@,
            subscription_id < old(self).subscriptions@.len() ==> {
                let outcome = spec_set_status(
                    old(self).subscriptions@[subscription_id as int],
                    authorizer,
                    SubscriptionStatus::Paused,
                );
                r == outcome.1 && final(self).subscriptions@ == old(
                    self,
                ).subscriptions@.update(subscription_id as int, outcome.0)
            },
    {
        self.apply_status(subscription_id, authorizer, SubscriptionStatus::Paused)
    }

    /// Resumes a paused, grace-period or demoted subscription back to
    /// `Active`, on behalf of its subscriber or merchant.
    pub fn resume_subscription(&mut self, subscription_id: u32, authorizer: u64) -> (r: Result<
        (),
        Error,
    >)
        ensures
            spec_same_config(*old(self), *final(self)),
            subscription_id >= old(self).subscriptions@.len() ==> r == Err::<(), Error>(
                Error::NotFound,
            ) && final(self).subscriptions@ == old(self).subscriptions@,
            subscription_id < old(self).subscriptions@.len() ==> {
                let outcome = spec_set_status(
                    old(self).subscriptions@[subscription_id as int],
                    authorizer,
                    SubscriptionStatus::Active,
                );
                r == outcome.1 && final(self).subscriptions@ == old(
                    self,
                ).subscriptions@.update(subscription_id as int, outcome.0)
            },
    {
        self.apply_status(subscription_id, authorizer, SubscriptionStatus::Active)
    }

    /// The shared body of `pause_subscription` and `resume_subscription`:
    /// one table-validated status write.
    fn apply_status(
        &mut self,
        subscription_id: u32,
        authorizer: u64,
        target: SubscriptionStatus,
    ) -> (r: Result<(), Error>)
        ensures
            spec_same_config(*old(self), *final(self)),
            subscription_id >= old(self).subscriptions@.len() ==> r == Err::<(), Error>(
                Error::NotFound,
            ) && final(self).subscriptions@ == old(self).subscriptions@,
            subscription_id < old(self).subscriptions@.len() ==> {
                let outcome = spec_set_status(
                    old(self).subscriptions@[subscription_id as int],
                    authorizer,
                    target,
                );
                r == outcome.1 && final(self).subscriptions@ == old(
                    self,
                ).subscriptions@.update(subscription_id as int, outcome.0)
            },
    {
        let idx = subscription_id as usize;
        if idx >= self.subscriptions.len() {
            return Err(Error::NotFound);
        }
        let mut sub = self.subscriptions[idx];
        if authorizer != sub.subscriber && authorizer != sub.merchant {
            proof {
                assert(old(self).subscriptions@.update(subscription_id as int, sub) =~= old(
                    self,
                ).subscriptions@);
            }
            return Err(Error::Unauthorized);
        }
        match validate_status_transition(&sub.status, &target) {
            Ok(()) => {},
            Err(e) => {
                proof {
                    assert(old(self).subscriptions@.update(subscription_id as int, sub) =~= old(
                        self,
                    ).subscriptions@);
                }
                return Err(e);
            },
        }
        sub.status = target;
        self.subscriptions[idx] = sub;
        Ok(())
    }

    /// Zeroes and returns the remaining prepaid balance of a cancelled
    /// subscription; the environment pays the returned amount back out.
    pub fn withdraw_subscriber_funds(&mut self, subscription_id: u32, subscriber: u64) -> (r:
        Result<i128, Error>)
        ensures
            spec_same_config(*old(self), *final(self)),
            subscription_id >= old(self).subscriptions@.len() ==> r == Err::<i128, Error>(
                Error::NotFound,
            ) && final(self).subscriptions@ == old(self).subscriptions@,
            subscription_id < old(self).subscriptions@.len() ==> {
                let outcome = spec_withdraw(
                    old(self).subscriptions@[subscription_id as int],
                    subscriber,
                );
                r == outcome.1 && final(self).subscriptions@ == old(
                    self,
                ).subscriptions@.update(subscription_id as int, outcome.0)
            },
    {
        let idx = subscription_id as usize;
        if idx >= self.subscriptions.len() {
            return Err(Error::NotFound);
        }
        let mut sub = self.subscriptions[idx];
        if subscriber != sub.subscriber || sub.status != SubscriptionStatus::Cancelled {
            proof {
                assert(old(self).subscriptions@.update(subscription_id as int, sub) =~= old(
                    self,
                ).subscriptions@);
            }
            return Err(Error::Unauthorized);
        }
        let refund = sub.prepaid_balance;
        if refund > 0 {
            sub.prepaid_balance = 0;
            self.subscriptions[idx] = sub;
            Ok(refund)
        } else {
            proof {
                assert(old(self).subscriptions@.update(subscription_id as int, sub) =~= old(
                    self,
                ).subscriptions@);
            }
            Ok(0)
        }
    }

    /// Merchant payout entry: settlement is performed entirely by the
    /// surrounding environment, so the vault state is left untouched.
    pub fn withdraw_merchant_funds(&self, merchant: u64, amount: i128) -> (r: Result<(), Error>)
        ensures
            r == Ok::<(), Error>(()),
    {
        let _ = merchant;
        let _ = amount;
        Ok(())
    }

    /// Updates the smallest accepted deposit; only the stored administrator
    /// may.
    pub fn set_min_topup(&mut self, admin: u64, min_topup: i128) -> (r: Result<(), Error>)
        ensures
            final(self).subscriptions@ == old(self).subscriptions@,
            !old(self).initialized || admin != old(self).admin ==> r == Err::<(), Error>(
                Error::Unauthorized,
            ) && spec_same_config(*old(self), *final(self)),
            old(self).initialized && admin == old(self).admin ==> r == Ok::<(), Error>(())
                && *final(self) == (SubscriptionVault { min_topup, ..*old(self) }),
    {
        crate::admin::do_set_min_topup(self, admin, min_topup)
    }

    /// The smallest accepted deposit, or `NotFound` while unconfigured.
    pub fn get_min_topup(&self) -> (r: Result<i128, Error>)
        ensures
            self.initialized ==> r == Ok::<i128, Error>(self.min_topup),
            !self.initialized ==> r == Err::<i128, Error>(Error::NotFound),
    {
        crate::admin::get_min_topup(self)
    }

    /// Charges every listed subscription in order at ledger time `now`,
    /// isolating per-item failure; requires a configured administrator,
    /// whom the surrounding environment has already authenticated.
    pub fn batch_charge(&mut self, subscription_ids: &Vec<u32>, now: u64) -> (r: Result<
        Vec<BatchChargeResult>,
        Error,
    >)
        ensures
            spec_same_config(*old(self), *final(self)),
            !old(self).initialized ==> r == Err::<Vec<BatchChargeResult>, Error>(
                Error::Unauthorized,
            ) && final(self).subscriptions@ == old(self).subscriptions@,
            old(self).initialized ==> {
                let outcome = crate::admin::spec_batch_charge(
                    old(self).subscriptions@,
                    old(self).grace_period,
                    subscription_ids@,
                    now,
                );
                &&& r is Ok
                &&& r->Ok_0@ == outcome.1
                &&& final(self).subscriptions@ == outcome.0
            },
    {
        crate::admin::do_batch_charge(self, subscription_ids, now)
    }

    /// The deposit shortfall for `num_intervals` future charges of one
    /// subscription: `max(amount * num_intervals - prepaid_balance, 0)`.
    /// Read-only; fails only on a missing id or a value outside the
    /// balance type's range.
    pub fn estimate_topup_for_intervals(&self, subscription_id: u32, num_intervals: u32) -> (r:
        Result<i128, Error>)
        ensures
            subscription_id >= self.subscriptions@.len() ==> r == Err::<i128, Error>(
                Error::NotFound,
            ),
            subscription_id < self.subscriptions@.len() ==> {
                let sub = self.subscriptions@[subscription_id as int];
                let required = sub.amount * num_intervals;
                if required < i128::MIN || required > i128::MAX {
                    r == Err::<i128, Error>(Error::Overflow)
                } else if sub.prepaid_balance >= required {
                    r == Ok::<i128, Error>(0)
                } else if required - sub.prepaid_balance > i128::MAX {
                    r == Err::<i128, Error>(Error::Overflow)
                } else {
                    r == Ok::<i128, Error>(spec_topup(sub, num_intervals) as i128)
                }
            },
    {
        let idx = subscription_id as usize;
        if idx >= self.subscriptions.len() {
            return Err(Error::NotFound);
        }
        let sub = self.subscriptions[idx];
        let required = match sub.amount.checked_mul(num_intervals as i128) {
            Some(p) => p,
            None => { return Err(Error::Overflow) },
        };
        if sub.prepaid_balance >= required {
            Ok(0)
        } else {
            match required.checked_sub(sub.prepaid_balance) {
                Some(shortfall) => Ok(shortfall),
                None => Err(Error::Overflow),
            }
        }
    }
}

} // verus!
