//! The persisted state of a recurring offer.

use vstd::prelude::*;

use crate::error::WireError;
use crate::types::{OfferId, PaymentId, Retry, RouteParameters};

verus! {

/// A stable identifier for a recurring offer.
#[derive(Clone, Copy, Debug, PartialEq, Eq, Hash)]
pub struct RecurrenceId(pub [u8; 32]);

impl View for RecurrenceId {
    type V = Seq<u8>;

    open spec fn view(&self) -> Seq<u8> {
        self.0@
    }
}

impl From<OfferId> for RecurrenceId {
    fn from(offer_id: OfferId) -> (r: Self) {
        RecurrenceId(offer_id.0)
    }
}

impl vstd::std_specs::convert::FromSpecImpl<OfferId> for RecurrenceId {
    open spec fn obeys_from_spec() -> bool {
        true
    }

    open spec fn from_spec(offer_id: OfferId) -> Self {
        RecurrenceId(offer_id.0)
    }
}

/// The lifecycle status of a recurring offer.
#[derive(Clone, Copy, Debug, PartialEq, Eq, Structural)]
pub enum RecurrenceStatus {
    Active,
    CancellationPending,
    Cancelled,
    Completed,
    Missed,
    RequiresAttention,
}

/// The state of a recurring payment's retry schedule.
#[derive(Clone, Copy, Debug, PartialEq, Eq, Structural)]
pub struct RecurrenceRetryState {
    pub attempts: u32,
    pub next_retry_at: Option<u64>,
}

/// The lifecycle state of a payment attempt for a recurring offer.
#[derive(Clone, Copy, Debug, PartialEq, Eq)]
pub enum RecurrenceAttempt {
    Prepared { payment_id: PaymentId, amount_msat: u64 },
    Submitted { payment_id: PaymentId, amount_msat: u64 },
}

impl RecurrenceAttempt {
    /// The payment that the attempt makes.
    pub open spec fn spec_payment_id(self) -> PaymentId {
        match self {
            RecurrenceAttempt::Prepared { payment_id, .. } => payment_id,
            RecurrenceAttempt::Submitted { payment_id, .. } => payment_id,
        }
    }

    /// The payment that the attempt makes.
    pub fn payment_id(&self) -> (r: PaymentId)
        ensures
            r == self.spec_payment_id(),
    {
        match self {
            RecurrenceAttempt::Prepared { payment_id, .. } => *payment_id,
            RecurrenceAttempt::Submitted { payment_id, .. } => *payment_id,
        }
    }
}

/// A payment attempt by what it says.
pub enum RecurrenceAttemptView {
    Prepared { payment_id: Seq<u8>, amount_msat: u64 },
    Submitted { payment_id: Seq<u8>, amount_msat: u64 },
}

impl RecurrenceAttemptView {
    /// The amount of the attempted payment.
    pub open spec fn amount(self) -> u64 {
        match self {
            RecurrenceAttemptView::Prepared { amount_msat, .. } => amount_msat,
            RecurrenceAttemptView::Submitted { amount_msat, .. } => amount_msat,
        }
    }
}

impl View for RecurrenceAttempt {
    type V = RecurrenceAttemptView;

    open spec fn view(&self) -> RecurrenceAttemptView {
        match *self {
            RecurrenceAttempt::Prepared { payment_id, amount_msat } => {
                RecurrenceAttemptView::Prepared { payment_id: payment_id@, amount_msat }
            },
            RecurrenceAttempt::Submitted { payment_id, amount_msat } => {
                RecurrenceAttemptView::Submitted { payment_id: payment_id@, amount_msat }
            },
        }
    }
}

/// The cancellation state of a recurring offer.
#[derive(Clone, Copy, Debug, PartialEq, Eq, Structural)]
pub enum RecurrenceCancellationState {
    NotRequested,
    Pending,
    Cancelled,
}

/// Persisted state for one recurring offer.
#[derive(Clone, Debug)]
pub struct RecurrenceState {
    pub id: RecurrenceId,
    pub original_offer: Vec<u8>,
    pub amount_msat: Option<u64>,
    pub maximum_amount_msat: Option<u64>,
    pub quantity: Option<u64>,
    pub payer_note: Option<String>,
    pub routing_override: Option<RouteParameters>,
    pub retry_policy: Retry,
    pub retry_state: RecurrenceRetryState,
    pub pay_next_automatically: bool,
    pub initial_start: u64,
    pub paid_count: u64,
    pub basetime: u64,
    pub opaque_state: Option<Vec<u8>>,
    pub last_successful_payment_id: Option<PaymentId>,
    pub attempt: Option<RecurrenceAttempt>,
    pub cancellation: RecurrenceCancellationState,
    pub transition_id: u64,
    pub status: RecurrenceStatus,
}

/// Persisted state by what it says.
#[verifier::ext_equal]
pub struct RecurrenceStateView {
    pub id: Seq<u8>,
    pub original_offer: Seq<u8>,
    pub amount_msat: Option<u64>,
    pub maximum_amount_msat: Option<u64>,
    pub quantity: Option<u64>,
    pub payer_note: Option<Seq<char>>,
    pub routing_override: Option<RouteParameters>,
    pub retry_policy: Retry,
    pub retry_state: RecurrenceRetryState,
    pub pay_next_automatically: bool,
    pub initial_start: u64,
    pub paid_count: u64,
    pub basetime: u64,
    pub opaque_state: Option<Seq<u8>>,
    pub last_successful_payment_id: Option<Seq<u8>>,
    pub attempt: Option<RecurrenceAttemptView>,
    pub cancellation: RecurrenceCancellationState,
    pub transition_id: u64,
    pub status: RecurrenceStatus,
}

/// What an optional value says.
pub open spec fn view_of<T: View>(v: Option<T>) -> Option<T::V> {
    match v {
        Some(x) => Some(x@),
        None => None,
    }
}

impl View for RecurrenceState {
    type V = RecurrenceStateView;

    open spec fn view(&self) -> RecurrenceStateView {
        RecurrenceStateView {
            id: self.id@,
            original_offer: self.original_offer@,
            amount_msat: self.amount_msat,
            maximum_amount_msat: self.maximum_amount_msat,
            quantity: self.quantity,
            payer_note: view_of(self.payer_note),
            routing_override: self.routing_override,
            retry_policy: self.retry_policy,
            retry_state: self.retry_state,
            pay_next_automatically: self.pay_next_automatically,
            initial_start: self.initial_start,
            paid_count: self.paid_count,
            basetime: self.basetime,
            opaque_state: view_of(self.opaque_state),
            last_successful_payment_id: view_of(self.last_successful_payment_id),
            attempt: view_of(self.attempt),
            cancellation: self.cancellation,
            transition_id: self.transition_id,
            status: self.status,
        }
    }
}

/// Whether a status is one that nothing follows on.
pub open spec fn terminal(status: RecurrenceStatus) -> bool {
    status is Cancelled || status is Completed || status is Missed
}

impl RecurrenceStateView {
    /// The offer is there, amounts and quantity are not zero, and the amount is within its ceiling.
    pub open spec fn terms_hold(self) -> bool {
        &&& self.original_offer.len() > 0
        &&& self.amount_msat != Some(0u64)
        &&& self.maximum_amount_msat != Some(0u64)
        &&& self.quantity != Some(0u64)
        &&& (self.amount_msat is Some && self.maximum_amount_msat is Some ==> self.amount_msat->0
            <= self.maximum_amount_msat->0)
    }

    /// The schedule begins no later than it is counted from, each payment was a transition, and a
    /// retry is scheduled only after an attempt.
    pub open spec fn progress_holds(self) -> bool {
        &&& self.initial_start <= self.basetime
        &&& self.paid_count <= self.transition_id
        &&& (self.retry_state.next_retry_at is Some ==> self.retry_state.attempts > 0)
    }

    /// An attempt pays something within the ceiling, and only while payments go on or need help.
    pub open spec fn attempt_holds(self) -> bool {
        self.attempt matches Some(attempt) ==> {
            &&& attempt.amount() > 0
            &&& (self.maximum_amount_msat matches Some(maximum) ==> attempt.amount() <= maximum)
            &&& (self.status is Active || self.status is RequiresAttention)
        }
    }

    /// The status and the cancellation state agree, and a terminal status leaves nothing to do.
    pub open spec fn status_holds(self) -> bool {
        &&& match self.status {
            RecurrenceStatus::CancellationPending => self.cancellation is Pending,
            RecurrenceStatus::Cancelled => self.cancellation is Cancelled,
            RecurrenceStatus::RequiresAttention => true,
            _ => self.cancellation is NotRequested,
        }
        &&& (terminal(self.status) ==> self.attempt is None && self.retry_state.next_retry_at is None)
    }

    /// The invariants of persisted state.
    pub open spec fn valid(self) -> bool {
        self.terms_hold() && self.progress_holds() && self.attempt_holds() && self.status_holds()
    }

    /// The state of a recurrence that nothing is known of.
    pub open spec fn blank() -> RecurrenceStateView {
        RecurrenceStateView {
            id: Seq::new(32, |i: int| 0u8),
            original_offer: Seq::empty(),
            amount_msat: None,
            maximum_amount_msat: None,
            quantity: None,
            payer_note: None,
            routing_override: None,
            retry_policy: Retry::Attempts(0),
            retry_state: RecurrenceRetryState { attempts: 0, next_retry_at: None },
            pay_next_automatically: false,
            initial_start: 0,
            paid_count: 0,
            basetime: 0,
            opaque_state: None,
            last_successful_payment_id: None,
            attempt: None,
            cancellation: RecurrenceCancellationState::NotRequested,
            transition_id: 0,
            status: RecurrenceStatus::Active,
        }
    }
}

impl Default for RecurrenceState {
    fn default() -> (r: Self)
        ensures
            r@ == RecurrenceStateView::blank(),
    {
        let r = RecurrenceState {
            id: RecurrenceId([0;32]),
            original_offer: Vec::new(),
            amount_msat: None,
            maximum_amount_msat: None,
            quantity: None,
            payer_note: None,
            routing_override: None,
            retry_policy: Retry::Attempts(0),
            retry_state: RecurrenceRetryState { attempts: 0, next_retry_at: None },
            pay_next_automatically: false,
            initial_start: 0,
            paid_count: 0,
            basetime: 0,
            opaque_state: None,
            last_successful_payment_id: None,
            attempt: None,
            cancellation: RecurrenceCancellationState::NotRequested,
            transition_id: 0,
            status: RecurrenceStatus::Active,
        };
        assert(r@ =~= RecurrenceStateView::blank());
        r
    }
}

/// A blank state lacks nothing but the offer: it is valid as soon as it has one.
pub proof fn law_blank_state_lacks_only_the_offer(offer: Seq<u8>)
    ensures
        (RecurrenceStateView { original_offer: offer, ..RecurrenceStateView::blank() }).valid()
            <==> offer.len() > 0,
{
}

/// Whether an optional number is zero.
pub(crate) fn is_zero(v: Option<u64>) -> (r: bool)
    ensures
        r == (v == Some(0u64)),
{
    match v {
        Some(n) => n == 0,
        None => false,
    }
}

/// Whether a number is above an optional ceiling.
pub(crate) fn exceeds(v: u64, ceiling: Option<u64>) -> (r: bool)
    ensures
        r == (ceiling is Some && v > ceiling->0),
{
    match ceiling {
        Some(maximum) => v > maximum,
        None => false,
    }
}

impl RecurrenceState {
    /// Validates persisted recurrence invariants before state enters memory or storage.
    pub fn validate(&self) -> (r: Result<(), WireError>)
        ensures
            r == (if self@.valid() {
                Ok(())
            } else {
                Err(WireError::InvalidValue)
            }),
    {
        let amount_above_ceiling: bool = match self.amount_msat {
            Some(amount) => exceeds(amount, self.maximum_amount_msat),
            None => false,
        };
        if self.original_offer.is_empty() || is_zero(self.amount_msat) || is_zero(
            self.maximum_amount_msat,
        ) || is_zero(self.quantity) || amount_above_ceiling || self.basetime < self.initial_start
            || self.paid_count > self.transition_id {
            return Err(WireError::InvalidValue);
        }
        if self.retry_state.attempts == 0 && self.retry_state.next_retry_at.is_some() {
            return Err(WireError::InvalidValue);
        }
        if let Some(attempt) = &self.attempt {
            let amount_msat: u64 = match attempt {
                RecurrenceAttempt::Prepared { amount_msat, .. } => *amount_msat,
                RecurrenceAttempt::Submitted { amount_msat, .. } => *amount_msat,
            };
            let may_attempt: bool = matches!(
                self.status,
                RecurrenceStatus::Active | RecurrenceStatus::RequiresAttention
            );
            if amount_msat == 0 || exceeds(amount_msat, self.maximum_amount_msat) || !may_attempt {
                return Err(WireError::InvalidValue);
            }
        }
        let agrees: bool = match (self.status, self.cancellation) {
            (RecurrenceStatus::Active, RecurrenceCancellationState::NotRequested) => true,
            (RecurrenceStatus::CancellationPending, RecurrenceCancellationState::Pending) => true,
            (RecurrenceStatus::Cancelled, RecurrenceCancellationState::Cancelled) => true,
            (RecurrenceStatus::Completed, RecurrenceCancellationState::NotRequested) => true,
            (RecurrenceStatus::Missed, RecurrenceCancellationState::NotRequested) => true,
            (RecurrenceStatus::RequiresAttention, _) => true,
            _ => false,
        };
        if !agrees {
            return Err(WireError::InvalidValue);
        }
        let is_terminal: bool = matches!(
            self.status,
            RecurrenceStatus::Cancelled | RecurrenceStatus::Completed | RecurrenceStatus::Missed
        );
        if is_terminal && (self.attempt.is_some() || self.retry_state.next_retry_at.is_some()) {
            return Err(WireError::InvalidValue);
        }
        Ok(())
    }
}

} // verus!
