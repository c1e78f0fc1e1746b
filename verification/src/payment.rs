//! The records that are kept of payments, and what is asked of the node to make one.

use vstd::prelude::*;

use crate::bindings::default_route_parameters;
use crate::recurrence::view_of;
use crate::types::{Config, OfferId, PaymentId, Retry, RouteParameters};

verus! {

/// What a payment was made for.
#[derive(Clone, Debug)]
pub enum PaymentKind {
    /// An offer was paid.
    Bolt12Offer {
        hash: Option<[u8; 32]>,
        preimage: Option<[u8; 32]>,
        secret: Option<[u8; 32]>,
        offer_id: OfferId,
        payer_note: Option<String>,
        quantity: Option<u64>,
    },
    /// A refund was offered.
    Bolt12Refund {
        hash: Option<[u8; 32]>,
        preimage: Option<[u8; 32]>,
        secret: Option<[u8; 32]>,
        payer_note: Option<String>,
        quantity: Option<u64>,
    },
}

/// Whether a payment leaves the node or reaches it.
#[derive(Clone, Copy, Debug, PartialEq, Eq, Structural)]
pub enum PaymentDirection {
    Inbound,
    Outbound,
}

/// How far a payment has come.
#[derive(Clone, Copy, Debug, PartialEq, Eq, Structural)]
pub enum PaymentStatus {
    Pending,
    Succeeded,
    Failed,
}

/// The record of a payment.
#[derive(Clone, Debug)]
pub struct PaymentDetails {
    pub id: PaymentId,
    pub kind: PaymentKind,
    pub amount_msat: Option<u64>,
    pub fee_paid_msat: Option<u64>,
    pub direction: PaymentDirection,
    pub status: PaymentStatus,
}

/// The record of an outbound payment for an offer of which nothing is known but what was asked.
pub open spec fn offer_payment(
    id: PaymentId,
    offer_id: OfferId,
    payer_note: Option<String>,
    quantity: Option<u64>,
    amount_msat: u64,
    status: PaymentStatus,
) -> PaymentDetails {
    PaymentDetails {
        id,
        kind: PaymentKind::Bolt12Offer {
            hash: None,
            preimage: None,
            secret: None,
            offer_id,
            payer_note,
            quantity,
        },
        amount_msat: Some(amount_msat),
        fee_paid_msat: None,
        direction: PaymentDirection::Outbound,
        status,
    }
}

/// The record of a refund that was offered.
pub open spec fn refund_payment(
    id: PaymentId,
    payer_note: Option<String>,
    quantity: Option<u64>,
    amount_msat: u64,
) -> PaymentDetails {
    PaymentDetails {
        id,
        kind: PaymentKind::Bolt12Refund {
            hash: None,
            preimage: None,
            secret: None,
            payer_note,
            quantity,
        },
        amount_msat: Some(amount_msat),
        fee_paid_msat: None,
        direction: PaymentDirection::Outbound,
        status: PaymentStatus::Pending,
    }
}

/// Makes the record of an outbound payment for an offer.
pub(crate) fn record_offer_payment(
    id: PaymentId,
    offer_id: OfferId,
    payer_note: Option<String>,
    quantity: Option<u64>,
    amount_msat: u64,
    status: PaymentStatus,
) -> (r: PaymentDetails)
    ensures
        r == offer_payment(id, offer_id, payer_note, quantity, amount_msat, status),
{
    PaymentDetails {
        id,
        kind: PaymentKind::Bolt12Offer {
            hash: None,
            preimage: None,
            secret: None,
            offer_id,
            payer_note,
            quantity,
        },
        amount_msat: Some(amount_msat),
        fee_paid_msat: None,
        direction: PaymentDirection::Outbound,
        status,
    }
}

/// Makes the record of a refund that was offered.
pub(crate) fn record_refund_payment(
    id: PaymentId,
    payer_note: Option<String>,
    quantity: Option<u64>,
    amount_msat: u64,
) -> (r: PaymentDetails)
    ensures
        r == refund_payment(id, payer_note, quantity, amount_msat),
{
    PaymentDetails {
        id,
        kind: PaymentKind::Bolt12Refund {
            hash: None,
            preimage: None,
            secret: None,
            payer_note,
            quantity,
        },
        amount_msat: Some(amount_msat),
        fee_paid_msat: None,
        direction: PaymentDirection::Outbound,
        status: PaymentStatus::Pending,
    }
}

/// What goes with a payment for an offer beside the amount.
#[derive(Clone, Debug)]
pub struct OptionalOfferPaymentParams {
    /// A note that the payee sees.
    pub payer_note: Option<String>,
    pub route_params_config: RouteParameters,
    pub retry_strategy: Retry,
}

/// The limits on routes that hold where nobody sets any.
pub open spec fn node_default() -> RouteParameters {
    RouteParameters {
        max_total_routing_fee_msat: None,
        max_total_cltv_expiry_delta: 1008,
        max_path_count: 10,
        max_channel_saturation_power_of_half: 2,
    }
}

/// The given limits, else those of the configuration, else the defaults.
pub open spec fn chosen_route(
    given: Option<RouteParameters>,
    configured: Option<RouteParameters>,
) -> RouteParameters {
    match (given, configured) {
        (Some(p), _) => p,
        (None, Some(p)) => p,
        (None, None) => node_default(),
    }
}

/// Chooses the limits on a payment's routes.
pub(crate) fn choose_route(
    given: Option<RouteParameters>,
    configured: Option<RouteParameters>,
) -> (r: RouteParameters)
    ensures
        r == chosen_route(given, configured),
{
    match given {
        Some(p) => p,
        None => match configured {
            Some(p) => p,
            None => default_route_parameters(),
        },
    }
}

/// Parameters that come with a payment override every field of the configured ones and of the
/// defaults; configured ones override every field of the defaults.
pub proof fn law_given_route_parameters_override(given: RouteParameters, config: Config)
    ensures
        chosen_route(Some(given), config.route_parameters) == given,
        config.route_parameters is Some ==> chosen_route(None, config.route_parameters)
            == config.route_parameters->0,
        config.route_parameters is None ==> chosen_route(None, config.route_parameters)
            == node_default(),
{
}

/// Copies an optional note.
pub(crate) fn copy_note(note: &Option<String>) -> (r: Option<String>)
    ensures
        r == *note,
{
    match note {
        Some(text) => Some(text.clone()),
        None => None,
    }
}

/// Copies optional bytes.
pub(crate) fn copy_bytes(bytes: &Option<Vec<u8>>) -> (r: Option<Vec<u8>>)
    ensures
        view_of(r) == view_of(*bytes),
{
    match bytes {
        Some(b) => {
            let copy = b.clone();
            assert(copy@ =~= b@);
            Some(copy)
        },
        None => None,
    }
}

} // verus!
