//! What the operations on recurrences do, in terms of the records and answers they are given.

use vstd::prelude::*;

use crate::bindings::{decoded_offer, printable_text};
use crate::bolt12::{automation_set, recurrence_amount, removal, routing_set, Bolt12Payment};
use crate::cancellation::{cancellation, Cancellation, CancellationStage};
use crate::details::{found, RecurrenceDetails, StoreError};
use crate::error::Error;
use crate::initiate::{initiation, RecurrenceConfig, RecurrencePlan};
use crate::next_payment::{
    displayed, next_payment, payments_before, DuePayment, PeriodQuery, Timing, WindowQuery,
};
use crate::recurrence::{
    RecurrenceAttempt, RecurrenceCancellationState, RecurrenceId, RecurrenceStatus,
};
use crate::submission::{Stage, Submission};
use crate::types::{Offer, OfferAmount, OfferRecurrence, PaymentId, Retry, RouteParameters};
use crate::window::{offer_window, record_window, RecurrencePaymentWindow, WindowRequest};

verus! {

// Records.

/// A record that is found is answered as it is; one that is not there and a store that fails are
/// told apart.
pub proof fn law_lookups_are_answered<P, F>(details: RecurrenceDetails<P, F>)
    ensures
        found(Ok::<_, StoreError>(Some(details))) == Ok::<RecurrenceDetails<P, F>, Error>(details),
        found::<P, F>(Ok(None)) == Err::<RecurrenceDetails<P, F>, Error>(Error::InvalidOfferId),
        found::<P, F>(Err(StoreError)) == Err::<RecurrenceDetails<P, F>, Error>(
            Error::PersistenceFailed,
        ),
{
}

/// Setting whether payments are automatic changes that, counts one change, and changes nothing
/// else; a record that cannot be had is not changed.
pub proof fn law_automation_is_set<P, F>(details: RecurrenceDetails<P, F>, enabled: bool)
    requires
        details.transition_id < u64::MAX,
    ensures
        automation_set(Ok::<_, StoreError>(Some(details)), enabled) == Ok::<
            RecurrenceDetails<P, F>,
            Error,
        >(
            (RecurrenceDetails {
                pay_next_automatically: enabled,
                transition_id: (details.transition_id + 1) as u64,
                ..details
            }),
        ),
        automation_set::<P, F>(Ok(None), enabled) == Err::<RecurrenceDetails<P, F>, Error>(
            Error::InvalidOfferId,
        ),
        automation_set::<P, F>(Err(StoreError), enabled) == Err::<RecurrenceDetails<P, F>, Error>(
            Error::PersistenceFailed,
        ),
{
}

/// Setting limits on routes changes those, counts one change, and changes nothing else; a record
/// that cannot be had is not changed.
pub proof fn law_routing_is_set<P, F>(
    details: RecurrenceDetails<P, F>,
    route: Option<RouteParameters>,
)
    requires
        details.transition_id < u64::MAX,
    ensures
        routing_set(Ok::<_, StoreError>(Some(details)), route) == Ok::<
            RecurrenceDetails<P, F>,
            Error,
        >(
            (RecurrenceDetails {
                routing_override: route,
                transition_id: (details.transition_id + 1) as u64,
                ..details
            }),
        ),
        routing_set::<P, F>(Ok(None), route) == Err::<RecurrenceDetails<P, F>, Error>(
            Error::InvalidOfferId,
        ),
        routing_set::<P, F>(Err(StoreError), route) == Err::<RecurrenceDetails<P, F>, Error>(
            Error::PersistenceFailed,
        ),
{
}

/// Completing the record of a recurrence that was just started sets whether payments are automatic
/// and the policy for failed periods, counts one change, and changes nothing else. A record that
/// cannot be had then, for whatever reason, is a failure of the store.
pub proof fn law_configuration_is_applied<P, F>(
    details: RecurrenceDetails<P, F>,
    config: RecurrenceConfig<P>,
)
    requires
        details.transition_id < u64::MAX,
    ensures
        config.applied(Ok::<_, StoreError>(Some(details))) == Ok::<RecurrenceDetails<P, F>, Error>(
            (RecurrenceDetails {
                pay_next_automatically: config.pay_next_automatically,
                recurrence_retry_policy: Some(config.retry_policy),
                transition_id: (details.transition_id + 1) as u64,
                ..details
            }),
        ),
        config.applied::<F>(Ok(None)) == Err::<RecurrenceDetails<P, F>, Error>(
            Error::PersistenceFailed,
        ),
        config.applied::<F>(Err(StoreError)) == Err::<RecurrenceDetails<P, F>, Error>(
            Error::PersistenceFailed,
        ),
{
}

/// A recurrence is removed exactly if it was cancelled, completed or missed, or needs attention;
/// while it is active or being cancelled removal is refused.
pub proof fn law_removal_by_status<P, F>(details: RecurrenceDetails<P, F>)
    ensures
        removal(Ok::<_, StoreError>(Some(details))) == (match details.status {
            RecurrenceStatus::Active => Err::<(), Error>(Error::InvalidOffer),
            RecurrenceStatus::CancellationPending => Err(Error::InvalidOffer),
            RecurrenceStatus::Cancelled => Ok(()),
            RecurrenceStatus::Completed => Ok(()),
            RecurrenceStatus::Missed => Ok(()),
            RecurrenceStatus::RequiresAttention => Ok(()),
        }),
        removal::<P, F>(Ok(None)) == Err::<(), Error>(Error::InvalidOfferId),
        removal::<P, F>(Err(StoreError)) == Err::<(), Error>(Error::PersistenceFailed),
{
}

// The first payment.

/// An amount is settled exactly if one is wanted and it is not above the ceiling, where there is
/// one; it is the requested amount, else the offer's. Nothing else decides.
pub proof fn law_amount_is_settled(
    offered: Option<u64>,
    requested: Option<u64>,
    maximum: Option<u64>,
)
    ensures
        recurrence_amount(offered, requested, maximum) is Ok <==> (requested is Some || offered
            is Some) && (maximum is None || (if requested is Some {
            requested->0 <= maximum->0
        } else {
            offered->0 <= maximum->0
        })),
        recurrence_amount(offered, requested, maximum) matches Ok(amount) ==> (requested == Some(
            amount,
        ) || (requested is None && offered == Some(amount))),
        recurrence_amount(offered, requested, maximum) matches Err(e) ==> e == Error::InvalidAmount,
        requested is Some && maximum is None ==> recurrence_amount(offered, requested, maximum)
            == Ok::<u64, Error>(requested->0),
        requested is None && offered is Some && maximum is None ==> recurrence_amount(
            offered,
            requested,
            maximum,
        ) == Ok::<u64, Error>(offered->0),
{
}

/// Raising the ceiling, or taking it away, never changes an amount that was settled.
pub proof fn law_higher_ceilings_settle_no_less(
    offered: Option<u64>,
    requested: Option<u64>,
    maximum: u64,
    higher: Option<u64>,
)
    requires
        recurrence_amount(offered, requested, Some(maximum)) is Ok,
        higher is Some ==> maximum <= higher->0,
    ensures
        recurrence_amount(offered, requested, higher) == recurrence_amount(
            offered,
            requested,
            Some(maximum),
        ),
{
}

/// Sound terms are accepted and unsound ones refused: on a running node, for a recurring offer not
/// in another currency whose schedule allows the start, a recurrence may be started exactly if the
/// requested amount, else the offer's, exists, is not zero and is at most the ceiling where there
/// is one, the ceiling is not zero and the quantity is not zero. It then pays that amount.
pub proof fn law_sound_terms_are_accepted(
    handler: Bolt12Payment,
    offer: Offer,
    first_period: Option<u32>,
    requested: Option<u64>,
    maximum: Option<u64>,
    quantity: Option<u64>,
)
    requires
        handler.is_running,
        offer.recurrence is Some,
        first_period is Some,
        !(offer.amount matches Some(OfferAmount::Currency { .. })),
    ensures
        ({
            let wanted: Option<u64> = if requested is Some {
                requested
            } else {
                match offer.amount {
                    Some(OfferAmount::Bitcoin { amount_msats }) => Some(amount_msats),
                    _ => None,
                }
            };
            let amounts_sound = wanted is Some && wanted->0 > 0 && maximum != Some(0u64) && (
            maximum is Some ==> wanted->0 <= maximum->0);
            let r = initiation(handler, offer, first_period, requested, maximum, quantity);
            &&& (r is Ok <==> amounts_sound && quantity != Some(0u64))
            &&& (r matches Ok(amount) ==> wanted == Some(amount))
            &&& (r == Err::<u64, Error>(Error::InvalidAmount) <==> !amounts_sound)
            &&& (r == Err::<u64, Error>(Error::InvalidQuantity) <==> amounts_sound && quantity
                == Some(0u64))
        }),
{
}

/// What keeps a recurrence from being started before its terms are looked at, in this order: the
/// node does not run, the offer is not a recurring one or its schedule does not allow the start,
/// the offer is in another currency.
pub proof fn law_offers_that_cannot_recur(
    handler: Bolt12Payment,
    offer: Offer,
    first_period: Option<u32>,
    requested: Option<u64>,
    maximum: Option<u64>,
    quantity: Option<u64>,
)
    ensures
        ({
            let r = initiation(handler, offer, first_period, requested, maximum, quantity);
            let recurs = offer.recurrence is Some && first_period is Some;
            &&& (r == Err::<u64, Error>(Error::NotRunning) <==> !handler.is_running)
            &&& (r == Err::<u64, Error>(Error::InvoiceRequestCreationFailed)
                <==> handler.is_running && !recurs)
            &&& (r == Err::<u64, Error>(Error::UnsupportedCurrency) <==> handler.is_running
                && recurs && (offer.amount matches Some(OfferAmount::Currency { .. })))
        }),
{
}

/// A plan is for the offer and on the terms that it was made for, all of them.
pub proof fn law_plan_keeps_the_terms(
    plan: RecurrencePlan,
    handler: Bolt12Payment,
    offer: Offer,
    amount: u64,
    maximum: Option<u64>,
    quantity: Option<u64>,
    note: Option<String>,
    route: Option<RouteParameters>,
    start: Option<u32>,
)
    requires
        plan.on_terms(handler, offer, amount, maximum, quantity, note, route, start),
        offer.recurrence is Some,
    ensures
        plan.original_offer@ == offer.encoded@,
        plan.offer_id == offer.id,
        plan.amount_msat == amount,
        plan.maximum_amount_msat == maximum,
        plan.quantity == quantity,
        plan.payer_note == note,
        plan.route_parameters == route,
        plan.initial_start == start,
        plan.basetime == offer.recurrence->0.explicit_basetime,
        plan.retry_policy == Retry::Timeout(handler.config.payment_retry_timeout),
{
}

/// The first record of a recurrence holds its plan and the prepared attempt, and says of everything
/// else that nothing happened yet.
pub proof fn law_first_record<P, F>(
    plan: RecurrencePlan,
    recurrence_id: RecurrenceId,
    payment_id: PaymentId,
    policy: P,
)
    ensures
        ({
            let d = plan.first_record::<P, F>(recurrence_id, payment_id, policy);
            &&& d.id == recurrence_id
            &&& d.original_offer == plan.original_offer
            &&& d.amount_msat == Some(plan.amount_msat)
            &&& d.maximum_amount_msat == plan.maximum_amount_msat
            &&& d.quantity == plan.quantity
            &&& d.payer_note == plan.payer_note
            &&& d.routing_override == plan.route_parameters
            &&& d.retry_policy == plan.retry_policy
            &&& d.recurrence_retry_policy == Some(policy)
            &&& d.retry_state.attempts == 0 && d.retry_state.next_retry_at is None
            &&& !d.pay_next_automatically
            &&& d.initial_start == plan.initial_start
            &&& d.paid_count == 0
            &&& d.basetime == plan.basetime
            &&& d.opaque_state is None
            &&& d.last_successful_payment_id is None
            &&& d.attempt == Some(
                RecurrenceAttempt::Prepared { payment_id, amount_msat: plan.amount_msat },
            )
            &&& d.cancellation is NotRequested
            &&& d.failure is None
            &&& d.transition_id == 0
            &&& d.status is Active
        }),
{
}

/// The first request asks for what the plan says: its amount, as the first payment of the
/// recurrence, with its note as it was given, within the given limits on routes, else the defaults.
pub proof fn law_first_request<P, F>(
    plan: RecurrencePlan,
    recurrence_id: RecurrenceId,
    payment_id: PaymentId,
    policy: P,
)
    ensures
        ({
            let s = plan.first_submission::<P, F>(recurrence_id, payment_id, policy);
            &&& s.recurrence_id == recurrence_id
            &&& s.payment_id == payment_id
            &&& s.offer_id == plan.offer_id
            &&& s.amount_msat == plan.amount_msat
            &&& s.details == plan.first_record::<P, F>(recurrence_id, payment_id, policy)
            &&& s.stage is RecordAttempt
            &&& s.request.amount_msat == Some(plan.amount_msat)
            &&& s.request.params.counter == 0
            &&& s.request.params.start == plan.initial_start
            &&& s.request.params.prev_state is None
            &&& s.request.params.quantity == plan.quantity
            &&& s.request.params.expected_invoice_recurrence_basetime == plan.basetime
            &&& s.request.optional.payer_note == plan.payer_note
            &&& s.request.optional.retry_strategy == plan.retry_policy
            &&& (plan.route_parameters is Some ==> s.request.optional.route_params_config
                == plan.route_parameters->0)
            &&& (plan.route_parameters is None ==> {
                let route = s.request.optional.route_params_config;
                &&& route.max_total_routing_fee_msat is None
                &&& route.max_total_cltv_expiry_delta == 1008
                &&& route.max_path_count == 10
                &&& route.max_channel_saturation_power_of_half == 2
            })
        }),
{
}

// Later payments.

/// A next payment is allowed exactly if the node runs, the recurrence is active and was paid, as
/// often as can be counted, and no attempt is under way; it then counts every payment made before,
/// whatever else the record holds.
pub proof fn law_next_payment_counts_those_before<P, F>(
    handler: Bolt12Payment,
    details: RecurrenceDetails<P, F>,
)
    ensures
        ({
            let r = next_payment(handler, Ok(Some(details)));
            let paid = details.status is Active && details.paid_count > 0;
            &&& (r matches Ok(counter) ==> counter as int == details.paid_count as int)
            &&& (r is Ok <==> handler.is_running && details.status is Active && 0
                < details.paid_count <= 0xFFFF_FFFF && details.attempt is None)
            &&& (r == Err::<u32, Error>(Error::NotRunning) <==> !handler.is_running)
            &&& (r == Err::<u32, Error>(Error::InvalidOffer) <==> handler.is_running && !paid)
            &&& (r == Err::<u32, Error>(Error::PaymentSendingFailed) <==> handler.is_running && paid
                && details.attempt is Some)
            &&& (r == Err::<u32, Error>(Error::InvalidAmount) <==> handler.is_running && paid
                && details.attempt is None && details.paid_count > 0xFFFF_FFFF)
            &&& (handler.is_running ==> r == payments_before(details))
        }),
{
}

/// No next payment is made of a record that cannot be had; that the node does not run is told
/// first.
pub proof fn law_no_next_payment_without_a_record<P, F>(handler: Bolt12Payment)
    ensures
        next_payment::<P, F>(handler, Ok(None)) == Err::<u32, Error>(
            if handler.is_running {
                Error::InvalidOfferId
            } else {
                Error::NotRunning
            },
        ),
        next_payment::<P, F>(handler, Err(StoreError)) == Err::<u32, Error>(
            if handler.is_running {
                Error::PersistenceFailed
            } else {
                Error::NotRunning
            },
        ),
{
}

/// One payment more is counted by one more.
pub proof fn law_counters_follow_one_another<P, F>(
    handler: Bolt12Payment,
    before: RecurrenceDetails<P, F>,
    after: RecurrenceDetails<P, F>,
)
    requires
        after.paid_count == before.paid_count + 1,
        next_payment(handler, Ok(Some(before))) is Ok,
        next_payment(handler, Ok(Some(after))) is Ok,
    ensures
        next_payment(handler, Ok(Some(after)))->Ok_0 == next_payment(
            handler,
            Ok(Some(before)),
        )->Ok_0 + 1,
{
}

/// A period can be asked for exactly if there is a schedule that has it, it is not past the last
/// one, and it is known when periods begin; it is asked for by that time and the schedule's period,
/// with everything else as it was.
pub proof fn law_period_is_on_schedule<P, F>(
    query: PeriodQuery<P, F>,
    recurrence: Option<OfferRecurrence>,
    period_index: Option<u32>,
)
    ensures
        query.has_period(recurrence, period_index) <==> (recurrence matches Some(schedule)
            && period_index matches Some(period) && query.details.basetime is Some && (
        schedule.limit is None || period <= schedule.limit->0)),
        query.has_period(recurrence, period_index) ==> {
            let w = query.scheduled(period_index->0);
            &&& w.recurrence_id == query.recurrence_id
            &&& w.details == query.details
            &&& w.offer_id == query.offer_id
            &&& w.counter == query.counter
            &&& Some(w.period_index) == period_index
            &&& Some(w.basetime) == query.details.basetime
        },
{
}

/// A payment is due exactly within its window, if there is an amount to pay; it is then that amount
/// of that recurrence, tried again by the record's policy.
pub proof fn law_payment_is_due<P, F>(
    query: WindowQuery<P, F>,
    window: Option<(u64, u64)>,
    now: u64,
)
    ensures
        query.timing(window, now) is Due <==> (window matches Some((opening, closing)) && opening
            <= now && now < closing && query.details.amount_msat is Some),
        query.timing(window, now) matches Timing::Due(due) ==> {
            &&& due.recurrence_id == query.recurrence_id
            &&& due.offer_id == query.offer_id
            &&& due.counter == query.counter
            &&& Some(due.amount_msat) == query.details.amount_msat
            &&& due.retry_policy == query.details.retry_policy
        },
{
}

/// A period is missed exactly if its window has opened and closed; the record then says so, counts
/// one change, and is otherwise as it was.
pub proof fn law_period_is_missed<P, F>(
    query: WindowQuery<P, F>,
    window: Option<(u64, u64)>,
    now: u64,
)
    requires
        query.details.transition_id < u64::MAX,
    ensures
        query.timing(window, now) is Missed <==> (window matches Some((opening, closing)) && opening
            <= now && closing <= now),
        query.timing(window, now) matches Timing::Missed(details) ==> details == (
        RecurrenceDetails {
            status: RecurrenceStatus::Missed,
            transition_id: (query.details.transition_id + 1) as u64,
            ..query.details
        }),
{
}

/// A payment is refused, and its record left alone, exactly if the schedule has no window for it or
/// the window is not open yet, or else the window is open and there is no amount to pay.
pub proof fn law_payment_is_refused<P, F>(
    query: WindowQuery<P, F>,
    window: Option<(u64, u64)>,
    now: u64,
)
    ensures
        query.timing(window, now) == Timing::<P, F>::Refused(Error::InvalidOffer) <==> !(
        window matches Some((opening, _)) && opening <= now),
        query.timing(window, now) == Timing::<P, F>::Refused(Error::InvalidAmount) <==> (window
            matches Some((opening, closing)) && opening <= now && now < closing
            && query.details.amount_msat is None),
{
}

/// A claimed payment is made as the record that was claimed says: its amount, note, quantity and
/// place in the schedule, after as many payments as were counted, within the record's limits on
/// routes, else the node's, else the defaults.
pub proof fn law_claimed_payment_follows_the_record<P, F>(
    due: DuePayment,
    handler: Bolt12Payment,
    payment_id: PaymentId,
    details: RecurrenceDetails<P, F>,
    note: Option<Seq<char>>,
    s: Submission<P, F>,
)
    requires
        due.made_by(handler, payment_id, details, note, s),
    ensures
        s.recurrence_id == due.recurrence_id,
        s.payment_id == payment_id,
        s.offer_id == due.offer_id,
        s.amount_msat == due.amount_msat,
        s.details == details,
        s.stage is RecordPayment,
        s.request.amount_msat == details.amount_msat,
        s.request.params.counter == due.counter,
        s.request.params.start == details.initial_start,
        details.opaque_state is Some <==> s.request.params.prev_state is Some,
        details.opaque_state is Some ==> s.request.params.prev_state->0@
            == details.opaque_state->0@,
        s.request.params.quantity == details.quantity,
        s.request.params.expected_invoice_recurrence_basetime == details.basetime,
        note is Some <==> s.request.optional.payer_note is Some,
        note is Some ==> s.request.optional.payer_note->0@ == note->0,
        s.request.optional.retry_strategy == due.retry_policy,
        details.routing_override is Some ==> s.request.optional.route_params_config
            == details.routing_override->0,
        details.routing_override is None && handler.config.route_parameters is Some
            ==> s.request.optional.route_params_config == handler.config.route_parameters->0,
        details.routing_override is None && handler.config.route_parameters is None ==> {
            let route = s.request.optional.route_params_config;
            &&& route.max_total_routing_fee_msat is None
            &&& route.max_total_cltv_expiry_delta == 1008
            &&& route.max_path_count == 10
            &&& route.max_channel_saturation_power_of_half == 2
        },
{
}

/// The attempt that is claimed is of the payment that is due, and not submitted yet; a note is
/// shown as it is displayed, and only a note that is there.
pub proof fn law_what_is_claimed(due: DuePayment, payment_id: PaymentId, note: Option<String>)
    ensures
        due.prepared(payment_id) == (RecurrenceAttempt::Prepared {
            payment_id,
            amount_msat: due.amount_msat,
        }),
        displayed(note) is Some <==> note is Some,
        note is Some ==> displayed(note)->0 == printable_text(note->0@),
{
}

// The way of a payment.

/// Recording the attempt leads on to recording the payment, or ends in failure; neither changes
/// anything else.
pub proof fn law_attempt_is_recorded<P, F>(s: Submission<P, F>)
    requires
        s.stage is RecordAttempt,
    ensures
        s.next(true) == (Submission { stage: Stage::RecordPayment, ..s }),
        s.next(false) == (Submission { stage: Stage::Failed, ..s }),
{
}

/// A payment on record is submitted. One that could not be recorded is not; the recurrence needs
/// attention, one change is counted, and nothing else changes.
pub proof fn law_payment_is_recorded<P, F>(s: Submission<P, F>)
    requires
        s.stage is RecordPayment,
        s.details.transition_id < u64::MAX,
    ensures
        s.next(true) == (Submission { stage: Stage::Submit, ..s }),
        s.next(false).details == (RecurrenceDetails {
            status: RecurrenceStatus::RequiresAttention,
            transition_id: (s.details.transition_id + 1) as u64,
            ..s.details
        }),
        s.next(false) == (Submission {
            stage: Stage::RecordOutcome,
            details: s.next(false).details,
            ..s
        }),
{
}

/// A request that the node took marks the attempt as submitted, with the payment and the amount it
/// was made for; one that it refused leaves the attempt as it was and the recurrence in need of
/// attention. Either way one change is counted, nothing else changes, and the record is stored.
pub proof fn law_request_is_submitted<P, F>(s: Submission<P, F>)
    requires
        s.stage is Submit,
        s.details.transition_id < u64::MAX,
    ensures
        s.next(true).details == (RecurrenceDetails {
            attempt: Some(
                RecurrenceAttempt::Submitted {
                    payment_id: s.payment_id,
                    amount_msat: s.amount_msat,
                },
            ),
            transition_id: (s.details.transition_id + 1) as u64,
            ..s.details
        }),
        s.next(false).details == (RecurrenceDetails {
            status: RecurrenceStatus::RequiresAttention,
            transition_id: (s.details.transition_id + 1) as u64,
            ..s.details
        }),
        s.next(true) == (Submission {
            stage: Stage::RecordOutcome,
            details: s.next(true).details,
            ..s
        }),
        s.next(false) == (Submission {
            stage: Stage::RecordOutcome,
            details: s.next(false).details,
            ..s
        }),
{
}

/// However storing the outcome goes, the payment is finished then; what is finished or failed stays
/// so.
pub proof fn law_outcome_is_recorded<P, F>(s: Submission<P, F>, ok: bool)
    ensures
        s.stage is RecordOutcome ==> s.next(ok) == (Submission { stage: Stage::Finished, ..s }),
        s.stage is Finished || s.stage is Failed ==> s.next(ok) == s,
{
}

/// The caller is answered exactly when nothing is left to do: with the identifiers of the
/// recurrence and of the payment, or with the failure to record the attempt.
pub proof fn law_submission_is_answered<P, F>(s: Submission<P, F>)
    ensures
        s.answer() is Some <==> s.stage is Finished || s.stage is Failed,
        s.stage is Finished ==> s.answer() == Some(
            Ok::<(RecurrenceId, PaymentId), Error>((s.recurrence_id, s.payment_id)),
        ),
        s.stage is Failed ==> s.answer() == Some(
            Err::<(RecurrenceId, PaymentId), Error>(Error::PersistenceFailed),
        ),
{
}

/// A stage is announced to change the record exactly if it does, which the count of changes shows.
pub proof fn law_submission_announces_changes<P, F>(s: Submission<P, F>, ok: bool)
    requires
        s.details.transition_id < u64::MAX,
    ensures
        s.counts_change(ok) <==> s.next(ok).details.transition_id == s.details.transition_id + 1,
        !s.counts_change(ok) <==> s.next(ok).details == s.details,
{
}

/// The stages of a run follow one another: no outcome, no stage; one outcome more, one stage more.
pub proof fn law_submission_goes_stage_by_stage<P, F>(
    s: Submission<P, F>,
    outcomes: Seq<bool>,
    ok: bool,
)
    ensures
        s.run(Seq::empty()) == s,
        s.run(outcomes.push(ok)) == s.run(outcomes).next(ok),
{
    assert(outcomes.push(ok).drop_last() =~= outcomes);
}

// Cancellation.

/// A request for cancellation is refused exactly if the recurrence is over or needs attention, and
/// has nothing to do exactly if cancellation is pending. An active recurrence is marked as pending,
/// with one change counted and nothing else changed, which is to be recorded.
pub proof fn law_cancellation_begins<P, F>(
    recurrence_id: RecurrenceId,
    details: RecurrenceDetails<P, F>,
)
    requires
        details.transition_id < u64::MAX,
    ensures
        cancellation(recurrence_id, Ok(Some(details))) == (match details.status {
            RecurrenceStatus::Active => Ok::<Option<Cancellation<P, F>>, Error>(
                Some(
                    Cancellation {
                        recurrence_id,
                        details: RecurrenceDetails {
                            status: RecurrenceStatus::CancellationPending,
                            cancellation: RecurrenceCancellationState::Pending,
                            transition_id: (details.transition_id + 1) as u64,
                            ..details
                        },
                        stage: CancellationStage::RecordPending,
                    },
                ),
            ),
            RecurrenceStatus::CancellationPending => Ok(None),
            RecurrenceStatus::Cancelled => Err(Error::InvalidOffer),
            RecurrenceStatus::Completed => Err(Error::InvalidOffer),
            RecurrenceStatus::Missed => Err(Error::InvalidOffer),
            RecurrenceStatus::RequiresAttention => Err(Error::InvalidOffer),
        }),
        cancellation::<P, F>(recurrence_id, Ok(None)) == Err::<Option<Cancellation<P, F>>, Error>(
            Error::InvalidOfferId,
        ),
        cancellation::<P, F>(recurrence_id, Err(StoreError)) == Err::<
            Option<Cancellation<P, F>>,
            Error,
        >(Error::PersistenceFailed),
{
}

/// Once it is recorded that cancellation is pending, the payment of an attempt is abandoned next,
/// exactly if there is an attempt, however often the payee was paid. If it could not be recorded,
/// nothing more happens.
pub proof fn law_attempt_is_abandoned_next<P, F>(c: Cancellation<P, F>, is_offer: bool)
    requires
        c.stage is RecordPending,
    ensures
        c.next(true, is_offer).stage is Abandon <==> c.details.attempt is Some,
        c.details.attempt is Some ==> c.next(true, is_offer) == (Cancellation {
            stage: CancellationStage::Abandon,
            ..c
        }),
        c.next(false, is_offer) == (Cancellation {
            stage: CancellationStage::Failed(Error::PersistenceFailed),
            ..c
        }),
{
}

/// A recurrence with an attempt under way never comes to have its payee told, nor to be recorded as
/// cancelled, without having come by the stage that abandons the payment; one without an attempt
/// never comes by that stage.
pub proof fn law_no_cancellation_without_abandoning<P, F>(
    start: Cancellation<P, F>,
    outcomes: Seq<bool>,
    is_offer: bool,
)
    requires
        start.stage is RecordPending,
    ensures
        ({
            let stage = start.run(outcomes, is_offer).stage;
            &&& (start.details.attempt is Some && (stage is Notify || stage is RecordCancelled
                || stage is Finished) ==> outcomes.len() > 1 && start.run(
                outcomes.take(1),
                is_offer,
            ).stage is Abandon)
            &&& (start.details.attempt is None ==> !(stage is Abandon))
        }),
    decreases outcomes.len(),
{
    if outcomes.len() == 1 {
        assert(outcomes.drop_last() =~= Seq::<bool>::empty());
        assert(outcomes.take(1) =~= outcomes);
        assert(start.run(outcomes.drop_last(), is_offer) == start);
    } else if outcomes.len() > 1 {
        let before = outcomes.drop_last();
        law_no_cancellation_without_abandoning(start, before, is_offer);
        lemma_pending_is_recorded_once(start, before, is_offer);
        lemma_cancellation_keeps_the_attempt(start, before, is_offer);
        assert(before.take(1) =~= outcomes.take(1));
        if before.len() == 1 {
            assert(before.take(1) =~= before);
        }
        lemma_first_stage(start, outcomes, is_offer);
    }
}

/// The first outcome alone decides where a cancellation stands after one stage.
proof fn lemma_first_stage<P, F>(start: Cancellation<P, F>, outcomes: Seq<bool>, is_offer: bool)
    requires
        outcomes.len() > 0,
    ensures
        start.run(outcomes.take(1), is_offer) == start.next(outcomes[0], is_offer),
        !outcomes[0] && start.stage is RecordPending ==> start.run(outcomes, is_offer)
            == start.next(false, is_offer),
    decreases outcomes.len(),
{
    let one = outcomes.take(1);
    assert(one.drop_last() =~= Seq::<bool>::empty());
    assert(start.run(one.drop_last(), is_offer) == start);
    if outcomes.len() == 1 {
        assert(one =~= outcomes);
    } else {
        lemma_first_stage(start, outcomes.drop_last(), is_offer);
        assert(outcomes.drop_last()[0] == outcomes[0]);
    }
}

/// Nothing leads back to recording that cancellation is pending.
proof fn lemma_pending_is_recorded_once<P, F>(
    start: Cancellation<P, F>,
    outcomes: Seq<bool>,
    is_offer: bool,
)
    requires
        outcomes.len() > 0,
    ensures
        !(start.run(outcomes, is_offer).stage is RecordPending),
    decreases outcomes.len(),
{
}

/// A cancellation leaves the attempt on record, and the number of payments.
proof fn lemma_cancellation_keeps_the_attempt<P, F>(
    start: Cancellation<P, F>,
    outcomes: Seq<bool>,
    is_offer: bool,
)
    ensures
        start.run(outcomes, is_offer).details.attempt == start.details.attempt,
        start.run(outcomes, is_offer).details.paid_count == start.details.paid_count,
    decreases outcomes.len(),
{
    if outcomes.len() > 0 {
        lemma_cancellation_keeps_the_attempt(start, outcomes.drop_last(), is_offer);
    }
}

/// When no attempt is under way any more, the payee is told next exactly if it was ever paid, the
/// record holds an offer and the payments can be counted. A payee that was paid and cannot be told
/// is an error, which leaves the record as it was.
pub proof fn law_payee_is_told_next<P, F>(c: Cancellation<P, F>, ok: bool, is_offer: bool)
    requires
        c.stage is Abandon || (c.stage is RecordPending && c.details.attempt is None && ok),
    ensures
        ({
            let paid = c.details.paid_count > 0;
            let countable = c.details.paid_count <= 0xFFFF_FFFF;
            let after = c.next(ok, is_offer);
            &&& (after.stage is Notify <==> paid && is_offer && countable)
            &&& (after.stage is Notify ==> after == (Cancellation {
                stage: CancellationStage::Notify,
                ..c
            }))
            &&& (paid && !is_offer ==> after == (Cancellation {
                stage: CancellationStage::Failed(Error::InvalidOffer),
                ..c
            }))
            &&& (paid && is_offer && !countable ==> after == (Cancellation {
                stage: CancellationStage::Failed(Error::InvalidAmount),
                ..c
            }))
            &&& (!paid <==> after.stage is RecordCancelled)
        }),
{
}

/// The recurrence is marked as cancelled when the payee was told, or when nobody was to be told,
/// with one change counted and nothing else changed.
pub proof fn law_recurrence_is_marked_as_cancelled<P, F>(
    c: Cancellation<P, F>,
    ok: bool,
    is_offer: bool,
)
    requires
        c.details.transition_id < u64::MAX,
        c.next(ok, is_offer).stage is RecordCancelled,
    ensures
        c.next(ok, is_offer) == (Cancellation {
            stage: CancellationStage::RecordCancelled,
            details: RecurrenceDetails {
                status: RecurrenceStatus::Cancelled,
                cancellation: RecurrenceCancellationState::Cancelled,
                transition_id: (c.details.transition_id + 1) as u64,
                ..c.details
            },
            ..c
        }),
        c.stage is Notify || c.details.paid_count == 0,
{
}

/// From telling the payee on, nothing stands in the way of a cancellation but the store.
pub proof fn law_cancellation_is_recorded<P, F>(c: Cancellation<P, F>, ok: bool, is_offer: bool)
    ensures
        c.stage is Notify ==> c.next(ok, is_offer).stage is RecordCancelled,
        c.stage is RecordCancelled ==> c.next(true, is_offer) == (Cancellation {
            stage: CancellationStage::Finished,
            ..c
        }) && c.next(false, is_offer) == (Cancellation {
            stage: CancellationStage::Failed(Error::PersistenceFailed),
            ..c
        }),
        c.stage is Finished || c.stage is Failed ==> c.next(ok, is_offer) == c,
{
}

/// The caller is answered exactly when nothing is left to do.
pub proof fn law_cancellation_is_answered<P, F>(c: Cancellation<P, F>)
    ensures
        c.answer() is Some <==> c.stage is Finished || c.stage is Failed,
        c.stage is Finished ==> c.answer() == Some(Ok::<(), Error>(())),
        c.stage matches CancellationStage::Failed(e) ==> c.answer() == Some(Err::<(), Error>(e)),
{
}

/// A stage is announced to change the record exactly if it does, which the count of changes shows.
pub proof fn law_cancellation_announces_changes<P, F>(
    c: Cancellation<P, F>,
    ok: bool,
    is_offer: bool,
)
    requires
        c.details.transition_id < u64::MAX,
    ensures
        c.counts_change(ok) <==> c.next(ok, is_offer).details.transition_id
            == c.details.transition_id + 1,
        !c.counts_change(ok) <==> c.next(ok, is_offer).details == c.details,
{
}

/// The stages of a run follow one another: no outcome, no stage; one outcome more, one stage more.
pub proof fn law_cancellation_goes_stage_by_stage<P, F>(
    c: Cancellation<P, F>,
    outcomes: Seq<bool>,
    ok: bool,
    is_offer: bool,
)
    ensures
        c.run(Seq::empty(), is_offer) == c,
        c.run(outcomes.push(ok), is_offer) == c.run(outcomes, is_offer).next(ok, is_offer),
{
    assert(outcomes.push(ok).drop_last() =~= outcomes);
}

/// The payment that is abandoned is that of the attempt, whether it was submitted or not.
pub proof fn law_payment_of_an_attempt(payment_id: PaymentId, amount_msat: u64)
    ensures
        (RecurrenceAttempt::Prepared { payment_id, amount_msat }).spec_payment_id() == payment_id,
        (RecurrenceAttempt::Submitted { payment_id, amount_msat }).spec_payment_id() == payment_id,
{
}

/// The record of a cancellation holds an offer exactly if its bytes decode to one.
pub proof fn law_record_holds_an_offer<P, F>(c: Cancellation<P, F>)
    ensures
        c.holds_offer() <==> decoded_offer(c.details.original_offer@) is Some,
{
}

// Windows.

/// An offer has windows to ask for exactly if it is a recurring one that says when its periods
/// begin; they are asked for by that time and the given period.
pub proof fn law_windows_of_an_offer(offer: Offer, period_index: u32)
    ensures
        offer_window(offer, period_index) is Ok <==> (offer.recurrence matches Some(recurrence)
            && recurrence.explicit_basetime is Some),
        offer_window(offer, period_index) matches Ok(request) ==> request.period_index
            == period_index && Some(request.basetime) == offer.recurrence->0.explicit_basetime,
        offer_window(offer, period_index) matches Err(e) ==> e == Error::InvalidOffer,
{
}

/// A record has a next window to ask for exactly if it is known when periods begin, it holds a
/// recurring offer, the payments can be counted and the schedule has a period for the next one.
pub proof fn law_next_window_of_a_record<P, F>(
    details: RecurrenceDetails<P, F>,
    is_recurring: bool,
    period_index: Option<u32>,
)
    ensures
        ({
            let r = record_window(details, is_recurring, period_index);
            let known = details.basetime is Some && is_recurring;
            let countable = details.paid_count <= 0xFFFF_FFFF;
            &&& (r is Ok <==> known && countable && period_index is Some)
            &&& (r matches Ok(request) ==> Some(request.basetime) == details.basetime && Some(
                request.period_index,
            ) == period_index)
            &&& (r == Err::<WindowRequest, Error>(Error::InvalidAmount) <==> known && !countable)
            &&& (r == Err::<WindowRequest, Error>(Error::InvalidOffer) <==> !known || (countable
                && period_index is None))
        }),
{
}

/// A window is answered as the schedule has it, for the period that was asked, and is payable
/// exactly from its opening on and before its closing.
pub proof fn law_windows_are_answered(
    request: WindowRequest,
    opens_at: u64,
    closes_at: u64,
    now: u64,
)
    ensures
        request.window_at(None, now) == Err::<RecurrencePaymentWindow, Error>(Error::InvalidOffer),
        request.window_at(Some((opens_at, closes_at)), now) matches Ok(w) && {
            &&& w.period_index == request.period_index
            &&& w.opens_at == opens_at
            &&& w.closes_at == closes_at
            &&& (w.currently_payable <==> opens_at <= now && now < closes_at)
        },
{
}

} // verus!
