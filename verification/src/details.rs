//! The durable record of a recurrence and the small changes made to it.

use vstd::prelude::*;

use crate::error::Error;
use crate::recurrence::{
    RecurrenceAttempt, RecurrenceCancellationState, RecurrenceId, RecurrenceRetryState,
    RecurrenceStatus,
};
use crate::types::{PaymentId, Retry, RouteParameters};

verus! {

/// The durable record of a recurrence.
///
/// `P` is the policy by which failed periods are tried again, `F` what is kept of a failure; both
/// are only carried along here.
#[derive(Clone, Debug)]
pub struct RecurrenceDetails<P, F> {
    pub id: RecurrenceId,
    /// The encoding of the offer that is paid.
    pub original_offer: Vec<u8>,
    pub amount_msat: Option<u64>,
    pub maximum_amount_msat: Option<u64>,
    pub quantity: Option<u64>,
    pub payer_note: Option<String>,
    pub routing_override: Option<RouteParameters>,
    pub retry_policy: Retry,
    pub recurrence_retry_policy: Option<P>,
    pub retry_state: RecurrenceRetryState,
    pub pay_next_automatically: bool,
    /// The period that the first payment is for, where the offer fixes when periods begin.
    pub initial_start: Option<u32>,
    pub paid_count: u64,
    /// When the first period begins, once it is known.
    pub basetime: Option<u64>,
    /// What the payee handed out with the last payment to recognise the next one by.
    pub opaque_state: Option<Vec<u8>>,
    pub last_successful_payment_id: Option<PaymentId>,
    pub attempt: Option<RecurrenceAttempt>,
    pub cancellation: RecurrenceCancellationState,
    pub failure: Option<F>,
    /// Counts the changes made to the record.
    pub transition_id: u64,
    pub status: RecurrenceStatus,
}

/// A store could not be read or written.
#[derive(Clone, Copy, Debug, PartialEq, Eq, Structural)]
pub struct StoreError;

/// The answer of the store that a record was looked up in.
pub type Lookup<P, F> = Result<Option<RecurrenceDetails<P, F>>, StoreError>;

/// The record that was looked up, or why there is none.
pub open spec fn found<P, F>(lookup: Lookup<P, F>) -> Result<RecurrenceDetails<P, F>, Error> {
    match lookup {
        Ok(Some(details)) => Ok(details),
        Ok(None) => Err(Error::InvalidOfferId),
        Err(_) => Err(Error::PersistenceFailed),
    }
}

/// The record that was looked up, or why there is none.
pub(crate) fn find<P, F>(lookup: Lookup<P, F>) -> (r: Result<RecurrenceDetails<P, F>, Error>)
    ensures
        r == found(lookup),
{
    match lookup {
        Ok(Some(details)) => Ok(details),
        Ok(None) => Err(Error::InvalidOfferId),
        Err(_) => Err(Error::PersistenceFailed),
    }
}

/// What is answered when a change was handed to the store: a failed write is reported.
pub fn persisted(outcome: Result<(), StoreError>) -> (r: Result<(), Error>)
    ensures
        r == (match outcome {
            Ok(_) => Ok(()),
            Err(_) => Err(Error::PersistenceFailed),
        }),
{
    match outcome {
        Ok(_) => Ok(()),
        Err(_) => Err(Error::PersistenceFailed),
    }
}

/// Whether a recurrence is over, or stuck: it may be removed and can no longer be cancelled.
pub open spec fn removable(status: RecurrenceStatus) -> bool {
    status is Cancelled || status is Completed || status is Missed || status is RequiresAttention
}

/// Whether a recurrence is over, or stuck.
pub(crate) fn is_removable(status: RecurrenceStatus) -> (r: bool)
    ensures
        r == removable(status),
{
    matches!(
        status,
        RecurrenceStatus::Cancelled | RecurrenceStatus::Completed | RecurrenceStatus::Missed
            | RecurrenceStatus::RequiresAttention
    )
}

impl<P, F> RecurrenceDetails<P, F> {
    /// Whether one more change can be counted.
    pub open spec fn can_change(self) -> bool {
        self.transition_id < u64::MAX
    }

    /// The record after one more change.
    pub open spec fn changed(self) -> Self {
        RecurrenceDetails { transition_id: (self.transition_id + 1) as u64, ..self }
    }

    /// The record with a status.
    pub open spec fn with_status(self, status: RecurrenceStatus) -> Self {
        RecurrenceDetails { status, ..self }
    }

    /// The record with an attempt.
    pub open spec fn with_attempt(self, attempt: RecurrenceAttempt) -> Self {
        RecurrenceDetails { attempt: Some(attempt), ..self }
    }

    /// The record with a cancellation state and the status that goes with it.
    pub open spec fn with_cancellation(
        self,
        status: RecurrenceStatus,
        cancellation: RecurrenceCancellationState,
    ) -> Self {
        RecurrenceDetails { status, cancellation, ..self }
    }

    /// The record with future periods submitted automatically, or not.
    pub open spec fn with_pay_next_automatically(self, enabled: bool) -> Self {
        RecurrenceDetails { pay_next_automatically: enabled, ..self }
    }

    /// The record with limits on routes of its own, or none.
    pub open spec fn with_routing_override(self, route: Option<RouteParameters>) -> Self {
        RecurrenceDetails { routing_override: route, ..self }
    }

    /// The record with a policy for failed periods.
    pub open spec fn with_retry_policy(self, policy: P) -> Self {
        RecurrenceDetails { recurrence_retry_policy: Some(policy), ..self }
    }

    /// Counts one more change.
    pub(crate) fn count_change(&mut self)
        requires
            old(self).can_change(),
        ensures
            *final(self) == old(self).changed(),
    {
        self.transition_id = self.transition_id + 1;
    }
}

} // verus!
