//! What the operations on offers, refunds and proofs do, in terms of what they are given.

use vstd::prelude::*;

use crate::async_payments::serves;
use crate::bolt12::Bolt12Payment;
use crate::error::Error;
use crate::payer_proof::{note_step, proof_steps, step_if, type_steps, PayerProofOptions, ProofStep};
use crate::payment::{chosen_route, offer_payment, refund_payment, PaymentKind, PaymentStatus};
use crate::receiving::{after, expiry, has_after, offer_refusal};
use crate::sending::{
    fixed_amount, given_amount, named_request_for, params_for, request_for, OfferOutcome,
    OfferPayment, OfferRequest, PaymentRecording,
};
use crate::types::{
    AsyncPaymentsRole, HumanReadableName, Offer, OfferAmount, OfferId, OfferRecurrence, PaymentId,
    Retry, RouteParameters, TimeSpan,
};

verus! {

// Amounts.

/// Without an amount given, exactly a running node pays, exactly an offer that names an amount of
/// bitcoin, and exactly that amount.
pub proof fn law_offer_is_paid_as_it_asks(handler: Bolt12Payment, offer: Offer)
    ensures
        fixed_amount(handler, offer) is Ok <==> handler.is_running && (offer.amount matches Some(
            OfferAmount::Bitcoin { .. },
        )),
        fixed_amount(handler, offer) matches Ok(amount) ==> offer.amount == Some(
            OfferAmount::Bitcoin { amount_msats: amount },
        ),
        fixed_amount(handler, offer) == Err::<u64, Error>(Error::NotRunning)
            <==> !handler.is_running,
        fixed_amount(handler, offer) == Err::<u64, Error>(Error::UnsupportedCurrency)
            <==> handler.is_running && (offer.amount matches Some(OfferAmount::Currency { .. })),
        fixed_amount(handler, offer) == Err::<u64, Error>(Error::InvalidOffer)
            <==> handler.is_running && offer.amount is None,
{
}

/// With an amount given, exactly that amount is paid, exactly if the node runs, the offer is not in
/// another currency and the amount is not less than it asks for.
pub proof fn law_offer_is_paid_as_given(handler: Bolt12Payment, offer: Offer, given: u64)
    ensures
        ({
            let r = given_amount(handler, offer, given);
            let foreign = offer.amount matches Some(OfferAmount::Currency { .. });
            let too_little = offer.amount matches Some(OfferAmount::Bitcoin { amount_msats })
                && given < amount_msats;
            &&& (r == Ok::<u64, Error>(given) <==> handler.is_running && !foreign && !too_little)
            &&& (r is Ok ==> r->Ok_0 == given)
            &&& (r == Err::<u64, Error>(Error::NotRunning) <==> !handler.is_running)
            &&& (r == Err::<u64, Error>(Error::UnsupportedCurrency) <==> handler.is_running
                && foreign)
            &&& (r == Err::<u64, Error>(Error::InvalidAmount) <==> handler.is_running
                && too_little)
        }),
{
}

/// Whoever gives more than enough is not refused: if an amount is accepted, so is every larger one.
pub proof fn law_more_is_enough(handler: Bolt12Payment, offer: Offer, given: u64, more: u64)
    requires
        given_amount(handler, offer, given) is Ok,
        given <= more,
    ensures
        given_amount(handler, offer, more) == Ok::<u64, Error>(more),
{
}

/// An offer that was read has the identifier and the amount that its encoding decodes to, the given
/// schedule, and the encoding itself.
pub proof fn law_offer_is_what_was_read(
    offer: Offer,
    encoded: Seq<u8>,
    id: Seq<u8>,
    amount: Option<OfferAmount>,
    recurrence: Option<OfferRecurrence>,
)
    ensures
        offer.read_from(encoded, id, amount, recurrence) <==> offer.id.0@ == id && offer.amount
            == amount && offer.recurrence == recurrence && offer.encoded@ == encoded,
{
}

// Requests.

/// What the node is asked carries the very amount that was meant for it, if any, and the very
/// quantity; it is a request with a quantity exactly if there is one.
pub proof fn law_request_carries_the_amount(amount: Option<u64>, quantity: Option<u64>)
    ensures
        match request_for(amount, quantity) {
            OfferRequest::Plain { amount_msats } => amount_msats == amount && quantity is None,
            OfferRequest::WithQuantity { amount_msats, quantity: asked } => amount_msats == amount
                && quantity == Some(asked),
            OfferRequest::FromHrn { .. } => false,
        },
{
}

/// A given amount is what the node is asked for in each kind of request, so never less than what
/// was given; a name is passed on as it is and comes before a quantity.
pub proof fn law_given_amount_is_asked_for(
    given: u64,
    quantity: Option<u64>,
    name: Option<HumanReadableName>,
)
    ensures
        match named_request_for(given, quantity, name) {
            OfferRequest::FromHrn { hrn, amount_msats } => amount_msats == given && name == Some(
                hrn,
            ),
            OfferRequest::WithQuantity { amount_msats, quantity: asked } => amount_msats == Some(
                given,
            ) && quantity == Some(asked) && name is None,
            OfferRequest::Plain { amount_msats } => amount_msats == Some(given) && quantity is None
                && name is None,
        },
{
}

/// A payment goes with the given note, is tried again for as long as the node is configured to, and
/// keeps to the given limits on routes, else the configured ones, else the defaults.
pub proof fn law_what_goes_with_a_payment(
    handler: Bolt12Payment,
    note: Option<String>,
    route: Option<RouteParameters>,
)
    ensures
        ({
            let params = params_for(handler, note, route);
            &&& params.payer_note == note
            &&& params.retry_strategy == Retry::Timeout(handler.config.payment_retry_timeout)
            &&& (route is Some ==> params.route_params_config == route->0)
            &&& (route is None && handler.config.route_parameters is Some
                ==> params.route_params_config == handler.config.route_parameters->0)
            &&& (route is None && handler.config.route_parameters is None ==> {
                let limits = params.route_params_config;
                &&& limits.max_total_routing_fee_msat is None
                &&& limits.max_total_cltv_expiry_delta == 1008
                &&& limits.max_path_count == 10
                &&& limits.max_channel_saturation_power_of_half == 2
            })
        }),
{
}

/// Limits on routes are chosen whole: the first that are set, else no limit on fees, 1008 blocks,
/// ten paths and a quarter of a channel.
pub proof fn law_routes_are_chosen(
    given: Option<RouteParameters>,
    configured: Option<RouteParameters>,
)
    ensures
        given is Some ==> chosen_route(given, configured) == given->0,
        given is None && configured is Some ==> chosen_route(given, configured) == configured->0,
        given is None && configured is None ==> {
            let limits = chosen_route(given, configured);
            &&& limits.max_total_routing_fee_msat is None
            &&& limits.max_total_cltv_expiry_delta == 1008
            &&& limits.max_path_count == 10
            &&& limits.max_channel_saturation_power_of_half == 2
        },
{
}

// Records.

/// The record of a payment for an offer says what was asked, of which offer and how it stands, and
/// nothing that is not known yet.
pub proof fn law_record_of_an_offer_payment(
    id: PaymentId,
    offer_id: OfferId,
    note: Option<String>,
    quantity: Option<u64>,
    amount: u64,
    status: PaymentStatus,
)
    ensures
        ({
            let p = offer_payment(id, offer_id, note, quantity, amount, status);
            &&& p.id == id
            &&& p.amount_msat == Some(amount)
            &&& p.fee_paid_msat is None
            &&& p.direction is Outbound
            &&& p.status == status
            &&& p.kind == (PaymentKind::Bolt12Offer {
                hash: None,
                preimage: None,
                secret: None,
                offer_id,
                payer_note: note,
                quantity,
            })
        }),
{
}

/// The record of a refund says what was offered and that it is pending, and nothing that is not
/// known yet.
pub proof fn law_record_of_a_refund(
    id: PaymentId,
    note: Option<String>,
    quantity: Option<u64>,
    amount: u64,
)
    ensures
        ({
            let p = refund_payment(id, note, quantity, amount);
            &&& p.id == id
            &&& p.amount_msat == Some(amount)
            &&& p.fee_paid_msat is None
            &&& p.direction is Outbound
            &&& p.status is Pending
            &&& p.kind == (PaymentKind::Bolt12Refund {
                hash: None,
                preimage: None,
                secret: None,
                payer_note: note,
                quantity,
            })
        }),
{
}

/// A payment under way is recorded as pending and its identifier handed out; a refused one is
/// recorded as failed and the refusal handed out; a duplicate is not recorded. A record holds what
/// the payment was made with.
pub proof fn law_outcome_of_an_offer_payment(p: OfferPayment, outcome: OfferOutcome)
    ensures
        p.after(outcome) == Err::<PaymentRecording, Error>(Error::DuplicatePayment)
            <==> outcome is DuplicatePaymentId,
        p.after(outcome) is Err <==> outcome is DuplicatePaymentId,
        p.after(outcome) matches Ok(recording) ==> {
            &&& recording.payment.id == p.payment_id
            &&& recording.payment.amount_msat == Some(p.amount_msat)
            &&& recording.payment.fee_paid_msat is None
            &&& recording.payment.direction is Outbound
            &&& recording.payment.kind == (PaymentKind::Bolt12Offer {
                hash: None,
                preimage: None,
                secret: None,
                offer_id: p.offer_id,
                payer_note: p.payer_note,
                quantity: p.quantity,
            })
            &&& (outcome is Accepted ==> recording.payment.status is Pending && recording.answer
                == Ok::<PaymentId, Error>(p.payment_id))
            &&& (outcome is Refused ==> recording.payment.status is Failed && recording.answer
                == Err::<PaymentId, Error>(p.refusal))
        },
{
}

// Offers and refunds to be made.

/// An offer can be planned exactly if the node could begin one and the quantity is not zero; that
/// it could not be begun is told first.
pub proof fn law_offers_that_cannot_be_made(builder_created: bool, quantity: Option<u64>)
    ensures
        offer_refusal(builder_created, quantity) is None <==> builder_created && quantity != Some(
            0u64,
        ),
        offer_refusal(builder_created, quantity) == Some(Error::OfferCreationFailed)
            <==> !builder_created,
        offer_refusal(builder_created, quantity) == Some(Error::InvalidQuantity)
            <==> builder_created && quantity == Some(0u64),
{
}

/// What expires does so exactly the given number of seconds later; what is not to expire does not.
pub proof fn law_expiry_is_later(now: TimeSpan, secs: u32)
    requires
        has_after(now, secs),
    ensures
        after(now, secs).secs as int == now.secs as int + secs as int,
        after(now, secs).nanos == now.nanos,
        now.nanos < 1_000_000_000 ==> after(now, secs).wf(),
        expiry(now, Some(secs)) == Some(after(now, secs)),
        expiry(now, None) is None,
{
}

/// A time can be added to exactly if the seconds can be counted then.
pub proof fn law_times_that_can_be_added_to(now: TimeSpan, secs: u32)
    ensures
        has_after(now, secs) <==> now.secs as int + secs as int <= 0xFFFF_FFFF_FFFF_FFFF,
{
}

/// Exactly a node in the role of a server serves others; clients and nodes without a role do not.
pub proof fn law_servers_serve(handler: Bolt12Payment)
    ensures
        serves(handler) <==> (handler.async_payments_role matches Some(role) && match role {
            AsyncPaymentsRole::Server => true,
            AsyncPaymentsRole::Client => false,
        }),
{
}

// Proofs.

/// A proof is built in order: the types as they were listed, each once for each time it is listed,
/// then description, issuer, amount and time, each once if asked for, and at last the note. There
/// are no other steps.
pub proof fn law_proof_is_built_in_order(options: PayerProofOptions)
    ensures
        ({
            let s = proof_steps(options);
            let n = options.extra_tlv_types@.len() as int;
            let a = n + if options.include_offer_description {
                1int
            } else {
                0
            };
            let b = a + if options.include_offer_issuer {
                1int
            } else {
                0
            };
            let c = b + if options.include_invoice_amount {
                1int
            } else {
                0
            };
            let d = c + if options.include_invoice_created_at {
                1int
            } else {
                0
            };
            &&& s.len() == d + if options.note is Some {
                1int
            } else {
                0
            }
            &&& (forall|i: int|
                0 <= i < n ==> #[trigger] s[i] == ProofStep::IncludeType(
                    options.extra_tlv_types@[i],
                ))
            &&& (options.include_offer_description ==> s[n] == ProofStep::IncludeOfferDescription)
            &&& (options.include_offer_issuer ==> s[a] == ProofStep::IncludeOfferIssuer)
            &&& (options.include_invoice_amount ==> s[b] == ProofStep::IncludeInvoiceAmount)
            &&& (options.include_invoice_created_at ==> s[c] == ProofStep::IncludeInvoiceCreatedAt)
            &&& (options.note matches Some(text) ==> s[d] == ProofStep::Note(text))
        }),
{
    let types = type_steps(options.extra_tlv_types@);
    let a = step_if(options.include_offer_description, ProofStep::IncludeOfferDescription);
    let b = step_if(options.include_offer_issuer, ProofStep::IncludeOfferIssuer);
    let c = step_if(options.include_invoice_amount, ProofStep::IncludeInvoiceAmount);
    let d = step_if(options.include_invoice_created_at, ProofStep::IncludeInvoiceCreatedAt);
    let e = note_step(options.note);
    assert(proof_steps(options) == types + a + b + c + d + e);
}

} // verus!
