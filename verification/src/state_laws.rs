//! Which persisted state is sound, and how soundness is kept.

use vstd::prelude::*;
use vstd::std_specs::convert::FromSpec;

use crate::recurrence::{
    view_of, RecurrenceAttempt, RecurrenceAttemptView, RecurrenceCancellationState, RecurrenceId,
    RecurrenceState, RecurrenceStateView, RecurrenceStatus,
};
use crate::types::{OfferId, PaymentId, Retry};

verus! {

/// Whether an attempt pays something, within a ceiling if there is one.
pub open spec fn pays_within(attempt: RecurrenceAttemptView, ceiling: Option<u64>) -> bool {
    let amount = match attempt {
        RecurrenceAttemptView::Prepared { amount_msat, .. } => amount_msat,
        RecurrenceAttemptView::Submitted { amount_msat, .. } => amount_msat,
    };
    amount > 0 && (ceiling is None || amount <= ceiling->0)
}

/// State is valid exactly if all of these hold. There is an offer. No amount, ceiling or quantity
/// is zero, and the amount is within the ceiling. The schedule does not begin after it is counted
/// from, no more payments than changes are counted, and no retry is planned before an attempt. An
/// attempt pays something within the ceiling. The status goes with the cancellation state, and with
/// an attempt and a planned retry: both while active or in need of attention, a retry alone while
/// being cancelled, neither when it is over.
pub proof fn law_valid_state(v: RecurrenceStateView)
    ensures
        v.valid() <==> {
            &&& v.original_offer.len() > 0
            &&& v.amount_msat != Some(0u64)
            &&& v.maximum_amount_msat != Some(0u64)
            &&& v.quantity != Some(0u64)
            &&& (v.amount_msat is None || v.maximum_amount_msat is None || v.amount_msat->0
                <= v.maximum_amount_msat->0)
            &&& v.initial_start <= v.basetime
            &&& v.paid_count <= v.transition_id
            &&& (v.retry_state.next_retry_at is None || v.retry_state.attempts > 0)
            &&& (v.attempt is None || pays_within(v.attempt->0, v.maximum_amount_msat))
            &&& match v.status {
                RecurrenceStatus::Active => v.cancellation is NotRequested,
                RecurrenceStatus::CancellationPending => v.cancellation is Pending && v.attempt
                    is None,
                RecurrenceStatus::Cancelled => v.cancellation is Cancelled && v.attempt is None
                    && v.retry_state.next_retry_at is None,
                RecurrenceStatus::Completed => v.cancellation is NotRequested && v.attempt is None
                    && v.retry_state.next_retry_at is None,
                RecurrenceStatus::Missed => v.cancellation is NotRequested && v.attempt is None
                    && v.retry_state.next_retry_at is None,
                RecurrenceStatus::RequiresAttention => true,
            }
        },
{
}

/// What a submission that failed leaves is valid: valid state stays so when the recurrence comes to
/// need attention and one more change is counted.
pub proof fn law_failed_submission_leaves_valid_state(v: RecurrenceStateView)
    requires
        v.valid(),
        v.transition_id < u64::MAX,
    ensures
        (RecurrenceStateView {
            status: RecurrenceStatus::RequiresAttention,
            transition_id: (v.transition_id + 1) as u64,
            ..v
        }).valid(),
{
}

/// What a submission that the node took leaves is valid: a prepared attempt may be marked as
/// submitted, with one more change counted.
pub proof fn law_taken_submission_leaves_valid_state(
    v: RecurrenceStateView,
    id: Seq<u8>,
    amount: u64,
)
    requires
        v.valid(),
        v.transition_id < u64::MAX,
        v.attempt == Some(RecurrenceAttemptView::Prepared { payment_id: id, amount_msat: amount }),
    ensures
        (RecurrenceStateView {
            attempt: Some(
                RecurrenceAttemptView::Submitted { payment_id: id, amount_msat: amount },
            ),
            transition_id: (v.transition_id + 1) as u64,
            ..v
        }).valid(),
{
}

/// Whether state that needs attention is valid does not depend on its cancellation.
pub proof fn law_attention_does_not_depend_on_cancellation(
    v: RecurrenceStateView,
    other: RecurrenceCancellationState,
)
    requires
        v.status is RequiresAttention,
    ensures
        (RecurrenceStateView { cancellation: other, ..v }).valid() <==> v.valid(),
{
}

/// Active state without an attempt may miss a period, and stays valid if no retry is planned; so
/// may it be completed.
pub proof fn law_active_state_may_end(v: RecurrenceStateView)
    requires
        v.valid(),
        v.status is Active,
        v.attempt is None,
        v.retry_state.next_retry_at is None,
        v.transition_id < u64::MAX,
    ensures
        (RecurrenceStateView {
            status: RecurrenceStatus::Missed,
            transition_id: (v.transition_id + 1) as u64,
            ..v
        }).valid(),
        (RecurrenceStateView {
            status: RecurrenceStatus::Completed,
            transition_id: (v.transition_id + 1) as u64,
            ..v
        }).valid(),
{
}

/// Active state without an attempt may be cancelled, by way of a pending cancellation, and is valid
/// all the way if no retry is planned.
pub proof fn law_active_state_may_be_cancelled(v: RecurrenceStateView)
    requires
        v.valid(),
        v.status is Active,
        v.attempt is None,
        v.retry_state.next_retry_at is None,
        v.transition_id < u64::MAX - 1,
    ensures
        (RecurrenceStateView {
            status: RecurrenceStatus::CancellationPending,
            cancellation: RecurrenceCancellationState::Pending,
            transition_id: (v.transition_id + 1) as u64,
            ..v
        }).valid(),
        (RecurrenceStateView {
            status: RecurrenceStatus::Cancelled,
            cancellation: RecurrenceCancellationState::Cancelled,
            transition_id: (v.transition_id + 2) as u64,
            ..v
        }).valid(),
{
}

/// Identifiers, the note, limits on routes, the retry policy, automation, what the payee handed out
/// and the last payment do not decide whether state is valid.
pub proof fn law_validity_depends_on_nothing_else(v: RecurrenceStateView, w: RecurrenceStateView)
    requires
        v.original_offer.len() == w.original_offer.len(),
        v.amount_msat == w.amount_msat,
        v.maximum_amount_msat == w.maximum_amount_msat,
        v.quantity == w.quantity,
        v.retry_state == w.retry_state,
        v.initial_start == w.initial_start,
        v.paid_count == w.paid_count,
        v.basetime == w.basetime,
        v.attempt == w.attempt,
        v.cancellation == w.cancellation,
        v.transition_id == w.transition_id,
        v.status == w.status,
    ensures
        v.valid() <==> w.valid(),
{
}

/// State is looked at whole: every field counts, identifiers by their bytes, the note by its
/// characters.
pub proof fn law_state_is_seen_whole(s: RecurrenceState)
    ensures
        s@.id == s.id.0@,
        s@.original_offer == s.original_offer@,
        s@.amount_msat == s.amount_msat,
        s@.maximum_amount_msat == s.maximum_amount_msat,
        s@.quantity == s.quantity,
        s@.payer_note is Some <==> s.payer_note is Some,
        s.payer_note matches Some(note) ==> s@.payer_note == Some(note@),
        s@.routing_override == s.routing_override,
        s@.retry_policy == s.retry_policy,
        s@.retry_state == s.retry_state,
        s@.pay_next_automatically == s.pay_next_automatically,
        s@.initial_start == s.initial_start,
        s@.paid_count == s.paid_count,
        s@.basetime == s.basetime,
        s@.opaque_state is Some <==> s.opaque_state is Some,
        s.opaque_state matches Some(bytes) ==> s@.opaque_state == Some(bytes@),
        s@.last_successful_payment_id is Some <==> s.last_successful_payment_id is Some,
        s.last_successful_payment_id matches Some(id) ==> s@.last_successful_payment_id == Some(
            id.0@,
        ),
        s@.attempt is Some <==> s.attempt is Some,
        s.attempt matches Some(attempt) ==> s@.attempt == Some(attempt@),
        s@.cancellation == s.cancellation,
        s@.transition_id == s.transition_id,
        s@.status == s.status,
{
}

/// An attempt is seen with its payment and its amount, and whether it was submitted.
pub proof fn law_attempt_is_seen_whole(payment_id: PaymentId, amount_msat: u64)
    ensures
        (RecurrenceAttempt::Prepared { payment_id, amount_msat })@ == (
        RecurrenceAttemptView::Prepared { payment_id: payment_id.0@, amount_msat }),
        (RecurrenceAttempt::Submitted { payment_id, amount_msat })@ == (
        RecurrenceAttemptView::Submitted { payment_id: payment_id.0@, amount_msat }),
        (RecurrenceAttemptView::Prepared { payment_id: payment_id.0@, amount_msat }).amount()
            == amount_msat,
        (RecurrenceAttemptView::Submitted { payment_id: payment_id.0@, amount_msat }).amount()
            == amount_msat,
{
}

/// Identifiers are seen as their bytes, and a value that may be missing as what it says.
pub proof fn law_identifiers_are_their_bytes(
    recurrence: RecurrenceId,
    payment: PaymentId,
    offer: OfferId,
)
    ensures
        recurrence@ == recurrence.0@,
        payment@ == payment.0@,
        offer@ == offer.0@,
        recurrence@.len() == 32 && payment@.len() == 32 && offer@.len() == 32,
        view_of(Some(payment)) == Some(payment.0@),
        view_of(None::<PaymentId>) is None,
{
}

/// A recurrence that goes by its offer has the bytes of the offer's identifier.
pub proof fn law_recurrence_of_an_offer(offer: OfferId)
    ensures
        <RecurrenceId as FromSpec<OfferId>>::obeys_from_spec(),
        <RecurrenceId as FromSpec<OfferId>>::from_spec(offer)@ == offer.0@,
{
}

/// A blank state knows of nothing: no terms, no payments, no attempts, and nothing asked for.
pub proof fn law_blank_state_is_blank()
    ensures
        ({
            let v = RecurrenceStateView::blank();
            &&& v.id.len() == 32
            &&& (forall|i: int| 0 <= i < 32 ==> #[trigger] v.id[i] == 0)
            &&& v.original_offer.len() == 0
            &&& v.amount_msat is None
            &&& v.maximum_amount_msat is None
            &&& v.quantity is None
            &&& v.payer_note is None
            &&& v.routing_override is None
            &&& v.retry_policy == Retry::Attempts(0)
            &&& v.retry_state.attempts == 0
            &&& v.retry_state.next_retry_at is None
            &&& !v.pay_next_automatically
            &&& v.initial_start == 0
            &&& v.paid_count == 0
            &&& v.basetime == 0
            &&& v.opaque_state is None
            &&& v.last_successful_payment_id is None
            &&& v.attempt is None
            &&& v.cancellation is NotRequested
            &&& v.transition_id == 0
            &&& v.status is Active
        }),
{
}

} // verus!
