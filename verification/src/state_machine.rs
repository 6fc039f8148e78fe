//! The status transition table: the single source of truth consulted by
//! every mutator of a subscription's status.

use vstd::prelude::*;

use crate::types::Error;
use crate::types::SubscriptionStatus;

verus! {

/// The directed edges of the transition table. Self-loops are not edges;
/// they are admitted separately by [`spec_can_transition`].
///
/// | From                | Allowed to                                        |
/// |---------------------|---------------------------------------------------|
/// | Active              | Paused, Cancelled, InsufficientBalance, GracePeriod |
/// | Paused              | Active, Cancelled                                  |
/// | GracePeriod         | Active, InsufficientBalance                        |
/// | InsufficientBalance | Active, Cancelled                                  |
/// | Cancelled           | (none — terminal)                                  |
pub open spec fn spec_table_edge(from: SubscriptionStatus, to: SubscriptionStatus) -> bool {
    match from {
        SubscriptionStatus::Active => {
            ||| to == SubscriptionStatus::Paused
            ||| to == SubscriptionStatus::Cancelled
            ||| to == SubscriptionStatus::InsufficientBalance
            ||| to == SubscriptionStatus::GracePeriod
        },
        SubscriptionStatus::Paused => {
            ||| to == SubscriptionStatus::Active
            ||| to == SubscriptionStatus::Cancelled
        },
        SubscriptionStatus::GracePeriod => {
            ||| to == SubscriptionStatus::Active
            ||| to == SubscriptionStatus::InsufficientBalance
        },
        SubscriptionStatus::InsufficientBalance => {
            ||| to == SubscriptionStatus::Active
            ||| to == SubscriptionStatus::Cancelled
        },
        SubscriptionStatus::Cancelled => false,
    }
}

/// A status change is valid when it is an idempotent self-transition or an
/// edge of the table.
pub open spec fn spec_can_transition(from: SubscriptionStatus, to: SubscriptionStatus) -> bool {
    from == to || spec_table_edge(from, to)
}

/// The targets of each status, exactly as the table lists them
/// (self-loops excluded).
pub open spec fn spec_allowed_transitions(from: SubscriptionStatus) -> Seq<SubscriptionStatus> {
    match from {
        SubscriptionStatus::Active => seq![
            SubscriptionStatus::Paused,
            SubscriptionStatus::Cancelled,
            SubscriptionStatus::InsufficientBalance,
            SubscriptionStatus::GracePeriod,
        ],
        SubscriptionStatus::Paused => seq![
            SubscriptionStatus::Active,
            SubscriptionStatus::Cancelled,
        ],
        SubscriptionStatus::GracePeriod => seq![
            SubscriptionStatus::Active,
            SubscriptionStatus::InsufficientBalance,
        ],
        SubscriptionStatus::InsufficientBalance => seq![
            SubscriptionStatus::Active,
            SubscriptionStatus::Cancelled,
        ],
        SubscriptionStatus::Cancelled => seq![],
    }
}

/// Whether `to` may follow `from`: true for a self-transition and for every
/// table edge, false otherwise.
pub fn can_transition(from: &SubscriptionStatus, to: &SubscriptionStatus) -> (r: bool)
    ensures
        r == spec_can_transition(*from, *to),
{
    if *from == *to {
        return true;
    }
    match from {
        SubscriptionStatus::Active => {
            *to == SubscriptionStatus::Paused || *to == SubscriptionStatus::Cancelled
                || *to == SubscriptionStatus::InsufficientBalance
                || *to == SubscriptionStatus::GracePeriod
        },
        SubscriptionStatus::Paused => {
            *to == SubscriptionStatus::Active || *to == SubscriptionStatus::Cancelled
        },
        SubscriptionStatus::GracePeriod => {
            *to == SubscriptionStatus::Active || *to == SubscriptionStatus::InsufficientBalance
        },
        SubscriptionStatus::InsufficientBalance => {
            *to == SubscriptionStatus::Active || *to == SubscriptionStatus::Cancelled
        },
        SubscriptionStatus::Cancelled => false,
    }
}

/// Rejects, with `InvalidStatusTransition`, any status change that is
/// neither a self-transition nor an edge of the table.
pub fn validate_status_transition(from: &SubscriptionStatus, to: &SubscriptionStatus) -> (r:
    Result<(), Error>)
    ensures
        r == (if spec_can_transition(*from, *to) {
            Ok::<(), Error>(())
        } else {
            Err::<(), Error>(Error::InvalidStatusTransition)
        }),
{
    if can_transition(from, to) {
        Ok(())
    } else {
        Err(Error::InvalidStatusTransition)
    }
}

/// The targets that the table allows from `from`, in table order, without
/// the always-valid self-transition.
pub fn get_allowed_transitions(from: &SubscriptionStatus) -> (r: Vec<SubscriptionStatus>)
    ensures
        r@ == spec_allowed_transitions(*from),
{
    let mut r: Vec<SubscriptionStatus> = Vec::new();
    match from {
        SubscriptionStatus::Active => {
            r.push(SubscriptionStatus::Paused);
            r.push(SubscriptionStatus::Cancelled);
            r.push(SubscriptionStatus::InsufficientBalance);
            r.push(SubscriptionStatus::GracePeriod);
        },
        SubscriptionStatus::Paused => {
            r.push(SubscriptionStatus::Active);
            r.push(SubscriptionStatus::Cancelled);
        },
        SubscriptionStatus::GracePeriod => {
            r.push(SubscriptionStatus::Active);
            r.push(SubscriptionStatus::InsufficientBalance);
        },
        SubscriptionStatus::InsufficientBalance => {
            r.push(SubscriptionStatus::Active);
            r.push(SubscriptionStatus::Cancelled);
        },
        SubscriptionStatus::Cancelled => {},
    }
    proof {
        assert(r@ =~= spec_allowed_transitions(*from));
    }
    r
}

/// The listed targets agree with the table: a status is in
/// `spec_allowed_transitions(from)` exactly when the table has the edge
/// `from -> to`.
pub proof fn lemma_allowed_transitions_match_table(
    from: SubscriptionStatus,
    to: SubscriptionStatus,
)
    ensures
        spec_allowed_transitions(from).contains(to) == spec_table_edge(from, to),
{
    if spec_table_edge(from, to) {
        let s = spec_allowed_transitions(from);
        match from {
            SubscriptionStatus::Active => {
                if to == SubscriptionStatus::Paused {
                    assert(s[0] == to);
                } else if to == SubscriptionStatus::Cancelled {
                    assert(s[1] == to);
                } else if to == SubscriptionStatus::InsufficientBalance {
                    assert(s[2] == to);
                } else {
                    assert(s[3] == to);
                }
            },
            SubscriptionStatus::Paused | SubscriptionStatus::InsufficientBalance => {
                if to == SubscriptionStatus::Active {
                    assert(s[0] == to);
                } else {
                    assert(s[1] == to);
                }
            },
            SubscriptionStatus::GracePeriod => {
                if to == SubscriptionStatus::Active {
                    assert(s[0] == to);
                } else {
                    assert(s[1] == to);
                }
            },
            SubscriptionStatus::Cancelled => {},
        }
        assert(s.contains(to));
    }
}

} // verus!
