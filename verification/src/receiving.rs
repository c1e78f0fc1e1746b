//! Offers to be paid, and refunds.

use vstd::prelude::*;

use crate::bolt12::Bolt12Payment;
use crate::error::Error;
use crate::payment::{
    choose_route, chosen_route, record_refund_payment, refund_payment, PaymentDetails,
};
use crate::types::{PaymentId, Retry, RouteParameters, TimeSpan};

verus! {

/// What an offer is built with.
#[derive(Clone, Debug)]
pub struct OfferPlan {
    /// The amount asked for; without one the payer chooses.
    pub amount_msats: Option<u64>,
    pub description: String,
    /// When the offer expires, counted from the Unix epoch.
    pub absolute_expiry: Option<TimeSpan>,
    /// The most items that may be asked for; without it only one.
    pub max_quantity: Option<u64>,
}

/// What a refund is built with.
#[derive(Clone, Debug)]
pub struct RefundPlan {
    pub payment_id: PaymentId,
    pub amount_msat: u64,
    /// When the refund expires, counted from the Unix epoch.
    pub absolute_expiry: TimeSpan,
    pub retry_strategy: Retry,
    pub route_parameters: RouteParameters,
    pub quantity: Option<u64>,
    pub payer_note: Option<String>,
}

/// A refund whose payment is to be recorded before the refund is handed out.
#[derive(Debug)]
pub struct RefundRecording<R> {
    pub payment: PaymentDetails,
    pub refund: R,
}

/// A refund whose payment may be requested.
#[derive(Clone, Copy, Debug, PartialEq, Eq, Structural)]
pub struct RefundRequest;

/// A number of seconds after a time.
pub open spec fn after(now: TimeSpan, secs: u32) -> TimeSpan {
    TimeSpan { secs: (now.secs + secs) as u64, nanos: now.nanos }
}

/// Whether a number of seconds after a time is a time.
pub open spec fn has_after(now: TimeSpan, secs: u32) -> bool {
    now.secs + secs <= u64::MAX
}

/// Adds seconds to a time.
fn add_secs(now: TimeSpan, secs: u32) -> (r: TimeSpan)
    requires
        has_after(now, secs),
    ensures
        r == after(now, secs),
{
    TimeSpan { secs: now.secs + secs as u64, nanos: now.nanos }
}

/// When an offer made now expires.
pub open spec fn expiry(now: TimeSpan, expiry_secs: Option<u32>) -> Option<TimeSpan> {
    match expiry_secs {
        Some(secs) => Some(after(now, secs)),
        None => None,
    }
}

/// Why an offer for a number of items cannot be planned.
pub open spec fn offer_refusal(builder_created: bool, quantity: Option<u64>) -> Option<Error> {
    if !builder_created {
        Some(Error::OfferCreationFailed)
    } else if quantity == Some(0u64) {
        Some(Error::InvalidQuantity)
    } else {
        None
    }
}

impl OfferPlan {
    /// Takes the offer that was built by this plan, if it could be built.
    pub fn built<O>(self, offer: Option<O>) -> (r: Result<O, Error>)
        ensures
            r == (match offer {
                Some(offer) => Ok(offer),
                None => Err(Error::OfferCreationFailed),
            }),
    {
        match offer {
            Some(offer) => Ok(offer),
            None => Err(Error::OfferCreationFailed),
        }
    }
}

impl RefundPlan {
    /// Takes the refund that was built by this plan, if it could be built. The record returned is
    /// to be stored.
    pub fn built<R>(self, refund: Option<R>) -> (r: Result<RefundRecording<R>, Error>)
        ensures
            r == (match refund {
                Some(refund) => Ok(
                    RefundRecording {
                        payment: refund_payment(
                            self.payment_id,
                            self.payer_note,
                            self.quantity,
                            self.amount_msat,
                        ),
                        refund,
                    },
                ),
                None => Err(Error::RefundCreationFailed),
            }),
    {
        match refund {
            Some(refund) => Ok(
                RefundRecording {
                    payment: record_refund_payment(
                        self.payment_id,
                        self.payer_note,
                        self.quantity,
                        self.amount_msat,
                    ),
                    refund,
                },
            ),
            None => Err(Error::RefundCreationFailed),
        }
    }
}

impl<R> RefundRecording<R> {
    /// What the caller is answered when the record was handed to the store: the refund, or the
    /// store's error.
    pub fn stored(self, outcome: Result<(), Error>) -> (r: Result<R, Error>)
        ensures
            r == (match outcome {
                Ok(_) => Ok(self.refund),
                Err(e) => Err(e),
            }),
    {
        match outcome {
            Ok(_) => Ok(self.refund),
            Err(e) => Err(e),
        }
    }
}

impl RefundRequest {
    /// Takes the invoice that the node made for the refund, if it made one.
    pub fn answered<I>(self, invoice: Option<I>) -> (r: Result<I, Error>)
        ensures
            r == (match invoice {
                Some(invoice) => Ok(invoice),
                None => Err(Error::InvoiceRequestCreationFailed),
            }),
    {
        match invoice {
            Some(invoice) => Ok(invoice),
            None => Err(Error::InvoiceRequestCreationFailed),
        }
    }
}

impl Bolt12Payment {
    /// Plans an offer for an amount. `builder_created` says whether the node could begin one.
    pub fn receive_inner(
        &self,
        builder_created: bool,
        now: TimeSpan,
        amount_msat: u64,
        description: &str,
        expiry_secs: Option<u32>,
        quantity: Option<u64>,
    ) -> (r: Result<OfferPlan, Error>)
        requires
            builder_created && expiry_secs is Some ==> has_after(now, expiry_secs->0),
        ensures
            match (r, offer_refusal(builder_created, quantity)) {
                (Ok(plan), None) => {
                    &&& plan.amount_msats == Some(amount_msat)
                    &&& plan.description@ == description@
                    &&& plan.absolute_expiry == expiry(now, expiry_secs)
                    &&& plan.max_quantity == quantity
                },
                (Err(e), Some(f)) => e == f,
                _ => false,
            },
    {
        if !builder_created {
            return Err(Error::OfferCreationFailed);
        }
        let absolute_expiry = match expiry_secs {
            Some(secs) => Some(add_secs(now, secs)),
            None => None,
        };
        if let Some(quantity) = quantity {
            if quantity == 0 {
                return Err(Error::InvalidQuantity);
            }
        }
        Ok(
            OfferPlan {
                amount_msats: Some(amount_msat),
                description: description.to_owned(),
                absolute_expiry,
                max_quantity: quantity,
            },
        )
    }

    /// Plans a payable offer that can be used to request and receive a payment of the amount
    /// given. `builder_created` says whether the node could begin one.
    pub fn receive(
        &self,
        builder_created: bool,
        now: TimeSpan,
        amount_msat: u64,
        description: &str,
        expiry_secs: Option<u32>,
        quantity: Option<u64>,
    ) -> (r: Result<OfferPlan, Error>)
        requires
            builder_created && expiry_secs is Some ==> has_after(now, expiry_secs->0),
        ensures
            match (r, offer_refusal(builder_created, quantity)) {
                (Ok(plan), None) => {
                    &&& plan.amount_msats == Some(amount_msat)
                    &&& plan.description@ == description@
                    &&& plan.absolute_expiry == expiry(now, expiry_secs)
                    &&& plan.max_quantity == quantity
                },
                (Err(e), Some(f)) => e == f,
                _ => false,
            },
    {
        self.receive_inner(builder_created, now, amount_msat, description, expiry_secs, quantity)
    }

    /// Plans a payable offer that can be used to request and receive a payment for which the
    /// amount is to be determined by the user, also known as a "zero-amount" offer.
    /// `builder_created` says whether the node could begin one.
    pub fn receive_variable_amount(
        &self,
        builder_created: bool,
        now: TimeSpan,
        description: &str,
        expiry_secs: Option<u32>,
    ) -> (r: Result<OfferPlan, Error>)
        requires
            builder_created && expiry_secs is Some ==> has_after(now, expiry_secs->0),
        ensures
            match (r, offer_refusal(builder_created, None)) {
                (Ok(plan), None) => {
                    &&& plan.amount_msats is None
                    &&& plan.description@ == description@
                    &&& plan.absolute_expiry == expiry(now, expiry_secs)
                    &&& plan.max_quantity is None
                },
                (Err(e), Some(f)) => e == f,
                _ => false,
            },
    {
        if !builder_created {
            return Err(Error::OfferCreationFailed);
        }
        let absolute_expiry = match expiry_secs {
            Some(secs) => Some(add_secs(now, secs)),
            None => None,
        };
        Ok(
            OfferPlan {
                amount_msats: None,
                description: description.to_owned(),
                absolute_expiry,
                max_quantity: None,
            },
        )
    }

    /// Decides whether a refund payment may be requested.
    pub fn request_refund_payment(&self) -> (r: Result<RefundRequest, Error>)
        ensures
            r == (if self.is_running {
                Ok(RefundRequest)
            } else {
                Err(Error::NotRunning)
            }),
    {
        if !self.is_running {
            return Err(Error::NotRunning);
        }
        Ok(RefundRequest)
    }

    /// Plans a refund that can be used to offer a refund payment of the amount given.
    ///
    /// If `route_parameters` are provided they override the defaults as well as the node-wide
    /// parameters, field by field.
    pub fn initiate_refund(
        &self,
        payment_id: PaymentId,
        now: TimeSpan,
        amount_msat: u64,
        expiry_secs: u32,
        quantity: Option<u64>,
        payer_note: Option<String>,
        route_parameters: Option<RouteParameters>,
    ) -> (r: RefundPlan)
        requires
            has_after(now, expiry_secs),
        ensures
            r == (RefundPlan {
                payment_id,
                amount_msat,
                absolute_expiry: after(now, expiry_secs),
                retry_strategy: Retry::Timeout(self.config.payment_retry_timeout),
                route_parameters: chosen_route(route_parameters, self.config.route_parameters),
                quantity,
                payer_note,
            }),
    {
        RefundPlan {
            payment_id,
            amount_msat,
            absolute_expiry: add_secs(now, expiry_secs),
            retry_strategy: Retry::Timeout(self.config.payment_retry_timeout),
            route_parameters: choose_route(route_parameters, self.config.route_parameters),
            quantity,
            payer_note,
        }
    }
}

} // verus!
