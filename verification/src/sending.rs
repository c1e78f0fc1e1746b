//! Payments for offers.

use vstd::prelude::*;

use crate::bolt12::Bolt12Payment;
use crate::error::Error;
use crate::payment::{
    choose_route, chosen_route, copy_note, offer_payment, record_offer_payment,
    OptionalOfferPaymentParams, PaymentDetails, PaymentStatus,
};
use crate::types::{
    HumanReadableName, Offer, OfferAmount, OfferId, PaymentId, Retry, RouteParameters,
};

verus! {

/// How the node is asked to pay an offer.
#[derive(Clone, Debug)]
pub enum OfferRequest {
    /// An offer that was found by a name.
    FromHrn { hrn: HumanReadableName, amount_msats: u64 },
    /// A number of the items offered.
    WithQuantity { amount_msats: Option<u64>, quantity: u64 },
    /// The offer as it is.
    Plain { amount_msats: Option<u64> },
}

/// A payment for an offer, about to be handed to the node.
#[derive(Clone, Debug)]
pub struct OfferPayment {
    pub payment_id: PaymentId,
    pub offer_id: OfferId,
    pub request: OfferRequest,
    pub params: OptionalOfferPaymentParams,
    /// The amount on record.
    pub amount_msat: u64,
    pub payer_note: Option<String>,
    pub quantity: Option<u64>,
    /// What the caller is answered if the node refuses.
    pub refusal: Error,
}

/// What the node made of a request to pay.
#[derive(Clone, Copy, Debug, PartialEq, Eq, Structural)]
pub enum OfferOutcome {
    /// The payment is under way.
    Accepted,
    /// A payment with the same identifier exists.
    DuplicatePaymentId,
    /// The request was refused for any other reason.
    Refused,
}

/// A payment to be recorded, and what the caller is answered then.
#[derive(Debug)]
pub struct PaymentRecording {
    pub payment: PaymentDetails,
    pub answer: Result<PaymentId, Error>,
}

/// The amount that an offer is paid with where the payer gives none.
pub open spec fn fixed_amount(handler: Bolt12Payment, offer: Offer) -> Result<u64, Error> {
    if !handler.is_running {
        Err(Error::NotRunning)
    } else {
        match offer.amount {
            Some(OfferAmount::Bitcoin { amount_msats }) => Ok(amount_msats),
            Some(OfferAmount::Currency { .. }) => Err(Error::UnsupportedCurrency),
            None => Err(Error::InvalidOffer),
        }
    }
}

/// The amount that an offer is paid with where the payer gives one: no less than it asks for.
pub open spec fn given_amount(handler: Bolt12Payment, offer: Offer, amount_msat: u64) -> Result<
    u64,
    Error,
> {
    if !handler.is_running {
        Err(Error::NotRunning)
    } else {
        match offer.amount {
            Some(OfferAmount::Bitcoin { amount_msats }) => if amount_msat < amount_msats {
                Err(Error::InvalidAmount)
            } else {
                Ok(amount_msat)
            },
            Some(OfferAmount::Currency { .. }) => Err(Error::UnsupportedCurrency),
            None => Ok(amount_msat),
        }
    }
}

/// A request for a number of items, or for the offer as it is.
pub open spec fn request_for(amount_msats: Option<u64>, quantity: Option<u64>) -> OfferRequest {
    match quantity {
        Some(quantity) => OfferRequest::WithQuantity { amount_msats, quantity },
        None => OfferRequest::Plain { amount_msats },
    }
}

/// A request by a name if there is one, else for a number of items, else for the offer as it is.
pub open spec fn named_request_for(
    amount_msat: u64,
    quantity: Option<u64>,
    hrn: Option<HumanReadableName>,
) -> OfferRequest {
    match hrn {
        Some(hrn) => OfferRequest::FromHrn { hrn, amount_msats: amount_msat },
        None => request_for(Some(amount_msat), quantity),
    }
}

/// What goes with a payment of the handler.
pub open spec fn params_for(
    handler: Bolt12Payment,
    payer_note: Option<String>,
    route_parameters: Option<RouteParameters>,
) -> OptionalOfferPaymentParams {
    OptionalOfferPaymentParams {
        payer_note,
        route_params_config: chosen_route(route_parameters, handler.config.route_parameters),
        retry_strategy: Retry::Timeout(handler.config.payment_retry_timeout),
    }
}

impl OfferPayment {
    /// The record of this payment with a status.
    pub open spec fn recorded(self, status: PaymentStatus) -> PaymentDetails {
        offer_payment(
            self.payment_id,
            self.offer_id,
            self.payer_note,
            self.quantity,
            self.amount_msat,
            status,
        )
    }

    /// What follows on the node's outcome: a payment under way and a refused one are recorded, a
    /// duplicate is not.
    pub open spec fn after(self, outcome: OfferOutcome) -> Result<PaymentRecording, Error> {
        match outcome {
            OfferOutcome::Accepted => Ok(
                PaymentRecording {
                    payment: self.recorded(PaymentStatus::Pending),
                    answer: Ok(self.payment_id),
                },
            ),
            OfferOutcome::DuplicatePaymentId => Err(Error::DuplicatePayment),
            OfferOutcome::Refused => Ok(
                PaymentRecording {
                    payment: self.recorded(PaymentStatus::Failed),
                    answer: Err(self.refusal),
                },
            ),
        }
    }

    /// Takes the node's outcome. The record returned is to be stored.
    pub fn answered(self, outcome: OfferOutcome) -> (r: Result<PaymentRecording, Error>)
        ensures
            r == self.after(outcome),
    {
        match outcome {
            OfferOutcome::Accepted => Ok(
                PaymentRecording {
                    payment: record_offer_payment(
                        self.payment_id,
                        self.offer_id,
                        self.payer_note,
                        self.quantity,
                        self.amount_msat,
                        PaymentStatus::Pending,
                    ),
                    answer: Ok(self.payment_id),
                },
            ),
            OfferOutcome::DuplicatePaymentId => Err(Error::DuplicatePayment),
            OfferOutcome::Refused => Ok(
                PaymentRecording {
                    payment: record_offer_payment(
                        self.payment_id,
                        self.offer_id,
                        self.payer_note,
                        self.quantity,
                        self.amount_msat,
                        PaymentStatus::Failed,
                    ),
                    answer: Err(self.refusal),
                },
            ),
        }
    }
}

impl PaymentRecording {
    /// What the caller is answered when the record was handed to the store: the store's error comes
    /// before everything else.
    pub fn stored(self, outcome: Result<(), Error>) -> (r: Result<PaymentId, Error>)
        ensures
            r == (match outcome {
                Ok(_) => self.answer,
                Err(e) => Err(e),
            }),
    {
        match outcome {
            Ok(_) => self.answer,
            Err(e) => Err(e),
        }
    }
}

impl Bolt12Payment {
    /// What goes with a payment.
    fn params(&self, payer_note: &Option<String>, route_parameters: Option<RouteParameters>) -> (r:
        OptionalOfferPaymentParams)
        ensures
            r == params_for(*self, *payer_note, route_parameters),
    {
        OptionalOfferPaymentParams {
            payer_note: copy_note(payer_note),
            route_params_config: choose_route(route_parameters, self.config.route_parameters),
            retry_strategy: Retry::Timeout(self.config.payment_retry_timeout),
        }
    }

    /// Send a payment given an offer.
    ///
    /// If `payer_note` is `Some` it will be seen by the recipient and reflected back in the invoice
    /// response.
    ///
    /// If `quantity` is `Some` it represents the number of items requested.
    ///
    /// If `route_parameters` are provided they override the defaults as well as the node-wide
    /// parameters, field by field.
    pub fn send(
        &self,
        payment_id: PaymentId,
        offer: &Offer,
        quantity: Option<u64>,
        payer_note: Option<String>,
        route_parameters: Option<RouteParameters>,
    ) -> (r: Result<OfferPayment, Error>)
        ensures
            r == (match fixed_amount(*self, *offer) {
                Ok(amount_msat) => Ok(
                    OfferPayment {
                        payment_id,
                        offer_id: offer.id,
                        request: request_for(None, quantity),
                        params: params_for(*self, payer_note, route_parameters),
                        amount_msat,
                        payer_note,
                        quantity,
                        refusal: Error::InvoiceRequestCreationFailed,
                    },
                ),
                Err(e) => Err(e),
            }),
    {
        if !self.is_running {
            return Err(Error::NotRunning);
        }
        let amount_msat: u64 = match offer.amount {
            Some(OfferAmount::Bitcoin { amount_msats }) => amount_msats,
            Some(OfferAmount::Currency { .. }) => {
                return Err(Error::UnsupportedCurrency);
            },
            None => {
                return Err(Error::InvalidOffer);
            },
        };
        let params = self.params(&payer_note, route_parameters);
        let request = match quantity {
            Some(quantity) => OfferRequest::WithQuantity { amount_msats: None, quantity },
            None => OfferRequest::Plain { amount_msats: None },
        };
        Ok(
            OfferPayment {
                payment_id,
                offer_id: offer.id,
                request,
                params,
                amount_msat,
                payer_note,
                quantity,
                refusal: Error::InvoiceRequestCreationFailed,
            },
        )
    }

    /// Send a payment given an offer, an amount in millisatoshi and possibly the name that the
    /// offer was found by.
    pub fn send_using_amount_inner(
        &self,
        payment_id: PaymentId,
        offer: &Offer,
        amount_msat: u64,
        quantity: Option<u64>,
        payer_note: Option<String>,
        route_parameters: Option<RouteParameters>,
        hrn: Option<HumanReadableName>,
    ) -> (r: Result<OfferPayment, Error>)
        ensures
            r == (match given_amount(*self, *offer, amount_msat) {
                Ok(amount_msat) => Ok(
                    OfferPayment {
                        payment_id,
                        offer_id: offer.id,
                        request: named_request_for(amount_msat, quantity, hrn),
                        params: params_for(*self, payer_note, route_parameters),
                        amount_msat,
                        payer_note,
                        quantity,
                        refusal: Error::PaymentSendingFailed,
                    },
                ),
                Err(e) => Err(e),
            }),
            r matches Ok(p) ==> p.amount_msat == amount_msat && match p.request {
                OfferRequest::FromHrn { amount_msats, .. } => amount_msats == amount_msat,
                OfferRequest::WithQuantity { amount_msats, .. } => amount_msats == Some(
                    amount_msat,
                ),
                OfferRequest::Plain { amount_msats } => amount_msats == Some(amount_msat),
            },
    {
        if !self.is_running {
            return Err(Error::NotRunning);
        }
        let offer_amount_msat: u64 = match offer.amount {
            Some(OfferAmount::Bitcoin { amount_msats }) => amount_msats,
            Some(OfferAmount::Currency { .. }) => {
                return Err(Error::UnsupportedCurrency);
            },
            None => amount_msat,
        };
        if amount_msat < offer_amount_msat {
            return Err(Error::InvalidAmount);
        }
        let params = self.params(&payer_note, route_parameters);
        let request = match hrn {
            Some(hrn) => OfferRequest::FromHrn { hrn, amount_msats: amount_msat },
            None => match quantity {
                Some(quantity) => OfferRequest::WithQuantity {
                    amount_msats: Some(amount_msat),
                    quantity,
                },
                None => OfferRequest::Plain { amount_msats: Some(amount_msat) },
            },
        };
        Ok(
            OfferPayment {
                payment_id,
                offer_id: offer.id,
                request,
                params,
                amount_msat,
                payer_note,
                quantity,
                refusal: Error::PaymentSendingFailed,
            },
        )
    }

    /// Send a payment given an offer and an amount in millisatoshi.
    ///
    /// This will fail if the amount given is less than the value required by the given offer.
    ///
    /// This can be used to pay a so-called "zero-amount" offer, i.e., an offer that leaves the
    /// amount paid to be determined by the user.
    ///
    /// If `payer_note` is `Some` it will be seen by the recipient and reflected back in the invoice
    /// response.
    ///
    /// If `route_parameters` are provided they override the defaults as well as the node-wide
    /// parameters, field by field.
    pub fn send_using_amount(
        &self,
        payment_id: PaymentId,
        offer: &Offer,
        amount_msat: u64,
        quantity: Option<u64>,
        payer_note: Option<String>,
        route_parameters: Option<RouteParameters>,
    ) -> (r: Result<OfferPayment, Error>)
        ensures
            r == (match given_amount(*self, *offer, amount_msat) {
                Ok(amount_msat) => Ok(
                    OfferPayment {
                        payment_id,
                        offer_id: offer.id,
                        request: request_for(Some(amount_msat), quantity),
                        params: params_for(*self, payer_note, route_parameters),
                        amount_msat,
                        payer_note,
                        quantity,
                        refusal: Error::PaymentSendingFailed,
                    },
                ),
                Err(e) => Err(e),
            }),
            r matches Ok(p) ==> p.amount_msat == amount_msat && match p.request {
                OfferRequest::FromHrn { .. } => false,
                OfferRequest::WithQuantity { amount_msats, .. } => amount_msats == Some(
                    amount_msat,
                ),
                OfferRequest::Plain { amount_msats } => amount_msats == Some(amount_msat),
            },
    {
        self.send_using_amount_inner(
            payment_id,
            offer,
            amount_msat,
            quantity,
            payer_note,
            route_parameters,
            None,
        )
    }
}

/// An offer is never paid with less than it asks for, nor in another currency than bitcoin, and
/// only by a running node.
pub proof fn law_never_less_than_asked(handler: Bolt12Payment, offer: Offer, amount_msat: u64)
    ensures
        given_amount(handler, offer, amount_msat) is Ok <==> handler.is_running && match offer.amount {
            Some(OfferAmount::Bitcoin { amount_msats }) => amount_msat >= amount_msats,
            Some(OfferAmount::Currency { .. }) => false,
            None => true,
        },
        given_amount(handler, offer, amount_msat) is Ok ==> given_amount(handler, offer, amount_msat)
            == Ok::<u64, Error>(amount_msat),
{
}

/// An offer that names an amount can be paid without giving one, and then costs what giving that
/// amount costs; an offer that leaves the amount to the payer can only be paid by giving one.
pub proof fn law_zero_amount_offers_need_an_amount(handler: Bolt12Payment, offer: Offer)
    requires
        handler.is_running,
    ensures
        offer.amount is None ==> fixed_amount(handler, offer) == Err::<u64, Error>(
            Error::InvalidOffer,
        ) && (forall|amount_msat: u64| given_amount(handler, offer, amount_msat) is Ok),
        fixed_amount(handler, offer) matches Ok(amount_msat) ==> given_amount(
            handler,
            offer,
            amount_msat,
        ) == Ok::<u64, Error>(amount_msat),
{
}

/// Of a payment there is exactly one record, pending if the node took it and failed if it did not;
/// of a duplicate there is none. The caller gets the identifier exactly for a payment on record as
/// pending.
pub proof fn law_payments_are_recorded(p: OfferPayment, outcome: OfferOutcome)
    ensures
        p.after(outcome) is Err <==> outcome is DuplicatePaymentId,
        p.after(outcome) matches Ok(recording) ==> {
            &&& recording.payment.id == p.payment_id
            &&& recording.payment.amount_msat == Some(p.amount_msat)
            &&& recording.answer == Ok::<PaymentId, Error>(p.payment_id)
                <==> recording.payment.status is Pending
            &&& recording.payment.status is Failed <==> outcome is Refused
        },
{
}

} // verus!
