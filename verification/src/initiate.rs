//! The first payment of a recurrence.

use vstd::prelude::*;

use crate::bolt12::{changeable, recurrence_amount, validate_recurrence_amount, Bolt12Payment};
use crate::details::{Lookup, RecurrenceDetails};
use crate::error::Error;
use crate::payment::{chosen_route, choose_route, copy_note, OptionalOfferPaymentParams};
use crate::recurrence::{
    is_zero, RecurrenceAttempt, RecurrenceCancellationState, RecurrenceId, RecurrenceRetryState,
    RecurrenceStatus,
};
use crate::submission::{RecurrencePaymentParams, RecurrenceRequest, Stage, Submission};
use crate::types::{Offer, OfferAmount, OfferId, PaymentId, Retry, RouteParameters};

verus! {

/// What a recurrence is started with.
#[derive(Clone, Debug)]
pub struct RecurrenceConfig<P> {
    pub amount_msat: Option<u64>,
    pub maximum_amount_msat: Option<u64>,
    pub quantity: Option<u64>,
    pub payer_note: Option<String>,
    pub routing_override: Option<RouteParameters>,
    pub initial_start: Option<u32>,
    pub pay_next_automatically: bool,
    pub retry_policy: P,
}

/// A recurrence that may be started: its terms are checked, its identifiers are still to be drawn.
#[derive(Clone, Debug)]
pub struct RecurrencePlan {
    pub original_offer: Vec<u8>,
    pub offer_id: OfferId,
    pub amount_msat: u64,
    pub maximum_amount_msat: Option<u64>,
    pub quantity: Option<u64>,
    pub payer_note: Option<String>,
    pub route_parameters: Option<RouteParameters>,
    pub initial_start: Option<u32>,
    pub basetime: Option<u64>,
    pub retry_policy: Retry,
}

/// The amount that an offer asks for in bitcoin; other currencies are not paid.
pub open spec fn bitcoin_amount(offer: Offer) -> Result<Option<u64>, Error> {
    match offer.amount {
        None => Ok(None),
        Some(OfferAmount::Bitcoin { amount_msats }) => Ok(Some(amount_msats)),
        Some(OfferAmount::Currency { .. }) => Err(Error::UnsupportedCurrency),
    }
}

/// The amount of each payment of a recurrence that may be started, or why it may not.
///
/// `first_period` is the period of the first payment, if the schedule allows the chosen start.
pub open spec fn initiation(
    handler: Bolt12Payment,
    offer: Offer,
    first_period: Option<u32>,
    amount_msat: Option<u64>,
    maximum_amount_msat: Option<u64>,
    quantity: Option<u64>,
) -> Result<u64, Error> {
    if !handler.is_running {
        Err(Error::NotRunning)
    } else if offer.recurrence is None || first_period is None {
        Err(Error::InvoiceRequestCreationFailed)
    } else {
        match bitcoin_amount(offer) {
            Err(e) => Err(e),
            Ok(offered) => match recurrence_amount(offered, amount_msat, maximum_amount_msat) {
                Err(e) => Err(e),
                Ok(amount) => if amount == 0 || maximum_amount_msat == Some(0u64) {
                    Err(Error::InvalidAmount)
                } else if quantity == Some(0u64) {
                    Err(Error::InvalidQuantity)
                } else {
                    Ok(amount)
                },
            },
        }
    }
}

impl RecurrencePlan {
    /// Whether this plan is for an offer on the given terms.
    pub open spec fn on_terms(
        self,
        handler: Bolt12Payment,
        offer: Offer,
        amount_msat: u64,
        maximum_amount_msat: Option<u64>,
        quantity: Option<u64>,
        payer_note: Option<String>,
        route_parameters: Option<RouteParameters>,
        initial_start: Option<u32>,
    ) -> bool {
        &&& self.original_offer@ == offer.encoded@
        &&& self.offer_id == offer.id
        &&& self.amount_msat == amount_msat
        &&& self.maximum_amount_msat == maximum_amount_msat
        &&& self.quantity == quantity
        &&& self.payer_note == payer_note
        &&& self.route_parameters == route_parameters
        &&& self.initial_start == initial_start
        &&& self.basetime == offer.recurrence->0.explicit_basetime
        &&& self.retry_policy == Retry::Timeout(handler.config.payment_retry_timeout)
    }

    /// The record that the recurrence begins with.
    pub open spec fn first_record<P, F>(
        self,
        recurrence_id: RecurrenceId,
        payment_id: PaymentId,
        policy: P,
    ) -> RecurrenceDetails<P, F> {
        RecurrenceDetails {
            id: recurrence_id,
            original_offer: self.original_offer,
            amount_msat: Some(self.amount_msat),
            maximum_amount_msat: self.maximum_amount_msat,
            quantity: self.quantity,
            payer_note: self.payer_note,
            routing_override: self.route_parameters,
            retry_policy: self.retry_policy,
            recurrence_retry_policy: Some(policy),
            retry_state: RecurrenceRetryState { attempts: 0, next_retry_at: None },
            pay_next_automatically: false,
            initial_start: self.initial_start,
            paid_count: 0,
            basetime: self.basetime,
            opaque_state: None,
            last_successful_payment_id: None,
            attempt: Some(
                RecurrenceAttempt::Prepared { payment_id, amount_msat: self.amount_msat },
            ),
            cancellation: RecurrenceCancellationState::NotRequested,
            failure: None,
            transition_id: 0,
            status: RecurrenceStatus::Active,
        }
    }

    /// The request for the first payment.
    pub open spec fn first_request(self) -> RecurrenceRequest {
        RecurrenceRequest {
            amount_msat: Some(self.amount_msat),
            params: RecurrencePaymentParams {
                counter: 0,
                start: self.initial_start,
                prev_state: None,
                quantity: self.quantity,
                expected_invoice_recurrence_basetime: self.basetime,
            },
            optional: OptionalOfferPaymentParams {
                payer_note: self.payer_note,
                route_params_config: chosen_route(self.route_parameters, None),
                retry_strategy: self.retry_policy,
            },
        }
    }

    /// The first payment, about to be recorded.
    pub open spec fn first_submission<P, F>(
        self,
        recurrence_id: RecurrenceId,
        payment_id: PaymentId,
        policy: P,
    ) -> Submission<P, F> {
        Submission {
            recurrence_id,
            payment_id,
            offer_id: self.offer_id,
            amount_msat: self.amount_msat,
            request: self.first_request(),
            details: self.first_record(recurrence_id, payment_id, policy),
            stage: Stage::RecordAttempt,
        }
    }

    /// Gives the recurrence and its first payment the identifiers drawn for them. `policy` is the
    /// default policy for failed periods.
    pub fn register<P, F>(self, recurrence_id: RecurrenceId, payment_id: PaymentId, policy: P) -> (r:
        Submission<P, F>)
        ensures
            r == self.first_submission::<P, F>(recurrence_id, payment_id, policy),
    {
        let request = RecurrenceRequest {
            amount_msat: Some(self.amount_msat),
            params: RecurrencePaymentParams {
                counter: 0,
                start: self.initial_start,
                prev_state: None,
                quantity: self.quantity,
                expected_invoice_recurrence_basetime: self.basetime,
            },
            optional: OptionalOfferPaymentParams {
                payer_note: copy_note(&self.payer_note),
                route_params_config: choose_route(self.route_parameters, None),
                retry_strategy: self.retry_policy,
            },
        };
        let details = RecurrenceDetails {
            id: recurrence_id,
            original_offer: self.original_offer,
            amount_msat: Some(self.amount_msat),
            maximum_amount_msat: self.maximum_amount_msat,
            quantity: self.quantity,
            payer_note: self.payer_note,
            routing_override: self.route_parameters,
            retry_policy: self.retry_policy,
            recurrence_retry_policy: Some(policy),
            retry_state: RecurrenceRetryState { attempts: 0, next_retry_at: None },
            pay_next_automatically: false,
            initial_start: self.initial_start,
            paid_count: 0,
            basetime: self.basetime,
            opaque_state: None,
            last_successful_payment_id: None,
            attempt: Some(
                RecurrenceAttempt::Prepared { payment_id, amount_msat: self.amount_msat },
            ),
            cancellation: RecurrenceCancellationState::NotRequested,
            failure: None,
            transition_id: 0,
            status: RecurrenceStatus::Active,
        };
        Submission {
            recurrence_id,
            payment_id,
            offer_id: self.offer_id,
            amount_msat: self.amount_msat,
            request,
            details,
            stage: Stage::RecordAttempt,
        }
    }
}

impl<P> RecurrenceConfig<P> {
    /// What a started recurrence is recorded with beside what was submitted, from what the store
    /// answered for it.
    pub open spec fn applied<F>(self, lookup: Lookup<P, F>) -> Result<
        RecurrenceDetails<P, F>,
        Error,
    > {
        match lookup {
            Ok(Some(details)) => Ok(
                details.with_pay_next_automatically(self.pay_next_automatically).with_retry_policy(
                    self.retry_policy,
                ).changed(),
            ),
            _ => Err(Error::PersistenceFailed),
        }
    }

    /// Completes the record of a recurrence that was just started. The record returned is to be
    /// stored.
    pub fn apply<F>(self, lookup: Lookup<P, F>) -> (r: Result<RecurrenceDetails<P, F>, Error>)
        requires
            changeable(lookup),
        ensures
            r == self.applied(lookup),
    {
        match lookup {
            Ok(Some(mut details)) => {
                details.pay_next_automatically = self.pay_next_automatically;
                details.recurrence_retry_policy = Some(self.retry_policy);
                details.count_change();
                Ok(details)
            },
            _ => Err(Error::PersistenceFailed),
        }
    }
}

impl Bolt12Payment {
    /// Checks the terms of a recurrence for a recurring offer, and plans its registration and the
    /// primary invoice request.
    ///
    /// `first_period` is the period of the first payment, if the offer's schedule allows
    /// `initial_start`. The identifiers are drawn only after this succeeded.
    pub fn initiate_recurrence(
        &self,
        offer: &Offer,
        first_period: Option<u32>,
        amount_msat: Option<u64>,
        maximum_amount_msat: Option<u64>,
        quantity: Option<u64>,
        payer_note: Option<String>,
        route_parameters: Option<RouteParameters>,
        initial_start: Option<u32>,
    ) -> (r: Result<RecurrencePlan, Error>)
        ensures
            match (
                r,
                initiation(
                    *self,
                    *offer,
                    first_period,
                    amount_msat,
                    maximum_amount_msat,
                    quantity,
                ),
            ) {
                (Ok(plan), Ok(amount)) => plan.on_terms(
                    *self,
                    *offer,
                    amount,
                    maximum_amount_msat,
                    quantity,
                    payer_note,
                    route_parameters,
                    initial_start,
                ),
                (Err(e), Err(f)) => e == f,
                _ => false,
            },
    {
        if !self.is_running {
            return Err(Error::NotRunning);
        }
        let recurrence = match offer.recurrence {
            Some(recurrence) => recurrence,
            None => {
                return Err(Error::InvoiceRequestCreationFailed);
            },
        };
        if first_period.is_none() {
            return Err(Error::InvoiceRequestCreationFailed);
        }
        let offer_amount_msat: Option<u64> = match offer.amount {
            Some(OfferAmount::Bitcoin { amount_msats }) => Some(amount_msats),
            Some(OfferAmount::Currency { .. }) => {
                return Err(Error::UnsupportedCurrency);
            },
            None => None,
        };
        let amount_msat: u64 = match validate_recurrence_amount(
            offer_amount_msat,
            amount_msat,
            maximum_amount_msat,
        ) {
            Ok(amount) => amount,
            Err(e) => {
                return Err(e);
            },
        };
        if amount_msat == 0 || is_zero(maximum_amount_msat) {
            return Err(Error::InvalidAmount);
        }
        if is_zero(quantity) {
            return Err(Error::InvalidQuantity);
        }
        let original_offer = offer.encoded.clone();
        assert(original_offer@ =~= offer.encoded@);
        Ok(
            RecurrencePlan {
                original_offer,
                offer_id: offer.id,
                amount_msat,
                maximum_amount_msat,
                quantity,
                payer_note,
                route_parameters,
                initial_start,
                basetime: recurrence.explicit_basetime,
                retry_policy: Retry::Timeout(self.config.payment_retry_timeout),
            },
        )
    }

    /// Starts a recurrence using the supplied durable configuration. The plan goes the way of
    /// [`Bolt12Payment::initiate_recurrence`]; once its first payment was submitted,
    /// [`RecurrenceConfig::apply`] completes the record.
    pub fn start_recurrence<P>(
        &self,
        offer: &Offer,
        first_period: Option<u32>,
        config: &RecurrenceConfig<P>,
    ) -> (r: Result<RecurrencePlan, Error>)
        ensures
            match (
                r,
                initiation(
                    *self,
                    *offer,
                    first_period,
                    config.amount_msat,
                    config.maximum_amount_msat,
                    config.quantity,
                ),
            ) {
                (Ok(plan), Ok(amount)) => plan.on_terms(
                    *self,
                    *offer,
                    amount,
                    config.maximum_amount_msat,
                    config.quantity,
                    config.payer_note,
                    config.routing_override,
                    config.initial_start,
                ),
                (Err(e), Err(f)) => e == f,
                _ => false,
            },
    {
        self.initiate_recurrence(
            offer,
            first_period,
            config.amount_msat,
            config.maximum_amount_msat,
            config.quantity,
            copy_note(&config.payer_note),
            config.routing_override,
            config.initial_start,
        )
    }
}

} // verus!
