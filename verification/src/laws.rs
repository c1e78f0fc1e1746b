//! What holds of recurrences across the operations on them.

use vstd::prelude::*;

use crate::bolt12::{automation_set, removal, routing_set, Bolt12Payment};
use crate::cancellation::cancellation;
use crate::details::{Lookup, RecurrenceDetails, StoreError};
use crate::error::Error;
use crate::initiate::{initiation, RecurrenceConfig, RecurrencePlan};
use crate::next_payment::{next_payment, Timing, WindowQuery};
use crate::payment::{chosen_route, node_default};
use crate::recurrence::{RecurrenceId, RecurrenceStateView};
use crate::submission::Submission;
use crate::types::{Offer, OfferAmount, PaymentId, RouteParameters};

verus! {

/// A recurrence is started on sound terms only: the amount is the requested one, else the offer's;
/// neither it nor the ceiling nor the quantity is zero, and it is within the ceiling.
pub proof fn law_started_on_sound_terms(
    handler: Bolt12Payment,
    offer: Offer,
    first_period: Option<u32>,
    requested: Option<u64>,
    maximum: Option<u64>,
    quantity: Option<u64>,
)
    requires
        initiation(handler, offer, first_period, requested, maximum, quantity) is Ok,
    ensures
        ({
            let amount = initiation(handler, offer, first_period, requested, maximum, quantity)->Ok_0;
            &&& amount > 0
            &&& maximum != Some(0u64)
            &&& quantity != Some(0u64)
            &&& (maximum is Some ==> amount <= maximum->0)
            &&& (requested is Some ==> amount == requested->0)
            &&& (requested is None ==> offer.amount == Some(
                OfferAmount::Bitcoin { amount_msats: amount },
            ))
        }),
{
}

/// The first record of a recurrence that was started on sound terms for an encoded offer meets the
/// rules that persisted state has for amounts, attempts and status.
pub proof fn law_first_record_is_sound<P, F>(
    handler: Bolt12Payment,
    offer: Offer,
    first_period: Option<u32>,
    requested: Option<u64>,
    plan: RecurrencePlan,
    recurrence_id: RecurrenceId,
    payment_id: PaymentId,
    policy: P,
    state: RecurrenceStateView,
)
    requires
        offer.encoded@.len() > 0,
        initiation(
            handler,
            offer,
            first_period,
            requested,
            plan.maximum_amount_msat,
            plan.quantity,
        ) matches Ok(amount) && plan.on_terms(
            handler,
            offer,
            amount,
            plan.maximum_amount_msat,
            plan.quantity,
            plan.payer_note,
            plan.route_parameters,
            plan.initial_start,
        ),
        ({
            let record = plan.first_record::<P, F>(recurrence_id, payment_id, policy);
            &&& state.original_offer == record.original_offer@
            &&& state.amount_msat == record.amount_msat
            &&& state.maximum_amount_msat == record.maximum_amount_msat
            &&& state.quantity == record.quantity
            &&& state.attempt == Some(record.attempt->0@)
            &&& state.retry_state == record.retry_state
            &&& state.cancellation == record.cancellation
            &&& state.status == record.status
        }),
    ensures
        state.terms_hold() && state.attempt_holds() && state.status_holds(),
{
}

/// No second payment of a recurrence is made before its first one went through, whatever becomes of
/// the first.
pub proof fn law_first_payment_comes_first<P, F>(
    handler: Bolt12Payment,
    plan: RecurrencePlan,
    recurrence_id: RecurrenceId,
    payment_id: PaymentId,
    policy: P,
    outcomes: Seq<bool>,
)
    ensures
        next_payment(
            handler,
            Ok(
                Some(
                    plan.first_submission::<P, F>(recurrence_id, payment_id, policy).run(
                        outcomes,
                    ).details,
                ),
            ),
        ) == Err::<u32, Error>(
            if handler.is_running {
                Error::InvalidOffer
            } else {
                Error::NotRunning
            },
        ),
{
    lemma_run_keeps(plan.first_submission::<P, F>(recurrence_id, payment_id, policy), outcomes);
}

/// While a recurrence has an attempt on record no other payment of it is made: neither while the
/// attempt is being submitted nor after.
pub proof fn law_one_attempt_at_a_time<P, F>(
    handler: Bolt12Payment,
    start: Submission<P, F>,
    outcomes: Seq<bool>,
)
    requires
        start.details.attempt is Some,
    ensures
        next_payment(handler, Ok(Some(start.run(outcomes).details))) is Err,
{
    lemma_run_keeps(start, outcomes);
}

/// A submission keeps the number of payments, and an attempt on record.
proof fn lemma_run_keeps<P, F>(start: Submission<P, F>, outcomes: Seq<bool>)
    ensures
        start.run(outcomes).details.paid_count == start.details.paid_count,
        start.details.attempt is Some ==> start.run(outcomes).details.attempt is Some,
    decreases outcomes.len(),
{
    if outcomes.len() > 0 {
        lemma_run_keeps(start, outcomes.drop_last());
    }
}

/// A recurrence that missed a period is over: it is not paid again, it cannot be cancelled, and it
/// can be removed.
pub proof fn law_missed_is_over<P, F>(
    handler: Bolt12Payment,
    query: WindowQuery<P, F>,
    window: Option<(u64, u64)>,
    now: u64,
)
    ensures
        query.timing(window, now) matches Timing::Missed(details) ==> {
            &&& next_payment(handler, Ok(Some(details))) == Err::<u32, Error>(
                if handler.is_running {
                    Error::InvalidOffer
                } else {
                    Error::NotRunning
                },
            )
            &&& cancellation(query.recurrence_id, Ok(Some(details))) is Err
            &&& removal(Ok(Some(details))) is Ok
        },
{
}

/// What may be removed is not paid any more.
pub proof fn law_removable_is_not_paid<P, F>(
    handler: Bolt12Payment,
    details: RecurrenceDetails<P, F>,
)
    requires
        removal(Ok(Some(details))) is Ok,
    ensures
        next_payment(handler, Ok(Some(details))) == Err::<u32, Error>(
            if handler.is_running {
                Error::InvalidOffer
            } else {
                Error::NotRunning
            },
        ),
{
}

/// Once the routing override is taken away, payments go by the limits of the node: those of its
/// configuration, else the defaults.
pub proof fn law_no_override_restores_node_defaults<P, F>(
    handler: Bolt12Payment,
    lookup: Lookup<P, F>,
)
    ensures
        routing_set(lookup, None) matches Ok(details) ==> chosen_route(
            details.routing_override,
            handler.config.route_parameters,
        ) == (match handler.config.route_parameters {
            Some(configured) => configured,
            None => node_default(),
        }),
{
}

/// A routing override is what payments go by, whatever the node is configured with.
pub proof fn law_override_holds<P, F>(
    handler: Bolt12Payment,
    lookup: Lookup<P, F>,
    route: RouteParameters,
)
    ensures
        routing_set(lookup, Some(route)) matches Ok(details) ==> chosen_route(
            details.routing_override,
            handler.config.route_parameters,
        ) == route,
{
}

/// Every change that is made to a record is counted once; so a record never counts fewer changes
/// than payments, if it did not before.
pub proof fn law_changes_are_counted<P, F>(
    details: RecurrenceDetails<P, F>,
    enabled: bool,
    route: Option<RouteParameters>,
    config: RecurrenceConfig<P>,
    recurrence_id: RecurrenceId,
)
    requires
        details.can_change(),
    ensures
        ({
            let lookup: Lookup<P, F> = Ok(Some(details));
            let counted = |r: RecurrenceDetails<P, F>|
                r.transition_id == details.transition_id + 1 && r.paid_count == details.paid_count;
            &&& counted(automation_set(lookup, enabled)->Ok_0)
            &&& counted(routing_set(lookup, route)->Ok_0)
            &&& counted(config.applied(lookup)->Ok_0)
            &&& (cancellation(recurrence_id, lookup) matches Ok(Some(c)) ==> counted(c.details))
        }),
{
}

/// Whether payments are automatic and which routes they take are set independently of one another,
/// and of everything else on record.
pub proof fn law_settings_are_independent<P, F>(
    details: RecurrenceDetails<P, F>,
    enabled: bool,
    route: Option<RouteParameters>,
)
    ensures
        ({
            let lookup = Ok::<_, StoreError>(Some(details));
            let automated = automation_set(lookup, enabled)->Ok_0;
            let routed = routing_set(lookup, route)->Ok_0;
            &&& automated.with_pay_next_automatically(details.pay_next_automatically)
                == details.changed()
            &&& routed.with_routing_override(details.routing_override) == details.changed()
            &&& routing_set(Ok::<_, StoreError>(Some(automated)), route)
                == automation_set(Ok::<_, StoreError>(Some(routed)), enabled)
        }),
{
}

} // verus!
