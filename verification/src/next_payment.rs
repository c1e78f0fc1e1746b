//! The payments of a recurrence after the first.

use vstd::prelude::*;

use crate::bindings::{decoded_offer, display_untrusted, parse_offer, printable_text};
use crate::bolt12::Bolt12Payment;
use crate::details::{find, found, Lookup, RecurrenceDetails};
use crate::error::Error;
use crate::payment::{choose_route, chosen_route, copy_bytes, OptionalOfferPaymentParams};
use crate::recurrence::{view_of, RecurrenceAttempt, RecurrenceId, RecurrenceStatus};
use crate::submission::{RecurrencePaymentParams, RecurrenceRequest, Stage, Submission};
use crate::types::{OfferId, OfferRecurrence, PaymentId, Retry};

verus! {

/// A recurrence whose record allows a payment.
#[derive(Clone, Debug)]
pub struct NextPayment<P, F> {
    pub recurrence_id: RecurrenceId,
    pub details: RecurrenceDetails<P, F>,
    /// The number of payments made before.
    pub counter: u32,
}

/// A recurrence with a payment to come. Its schedule is asked for the period of that payment, by
/// `counter` and the record's `initial_start`.
#[derive(Clone, Debug)]
pub struct PeriodQuery<P, F> {
    pub recurrence_id: RecurrenceId,
    pub details: RecurrenceDetails<P, F>,
    pub offer_id: OfferId,
    /// The number of payments made before.
    pub counter: u32,
}

/// A recurrence whose next period is known. Its schedule is asked when that period can be paid, by
/// `basetime` and `period_index`.
#[derive(Clone, Debug)]
pub struct WindowQuery<P, F> {
    pub recurrence_id: RecurrenceId,
    pub details: RecurrenceDetails<P, F>,
    pub offer_id: OfferId,
    pub counter: u32,
    pub period_index: u32,
    pub basetime: u64,
}

/// A payment that is due. The store is asked to claim its attempt.
#[derive(Clone, Debug)]
pub struct DuePayment {
    pub recurrence_id: RecurrenceId,
    pub offer_id: OfferId,
    pub counter: u32,
    pub amount_msat: u64,
    pub retry_policy: Retry,
}

/// Whether the next payment can be made now.
#[derive(Clone, Debug)]
pub enum Timing<P, F> {
    /// It cannot.
    Refused(Error),
    /// It is too late; the record is to be stored, and the caller is refused.
    Missed(RecurrenceDetails<P, F>),
    /// It can.
    Due(DuePayment),
}

/// The number of payments made before the next one, if the record allows one.
pub open spec fn payments_before<P, F>(details: RecurrenceDetails<P, F>) -> Result<u32, Error> {
    if !(details.status is Active) || details.paid_count == 0 {
        Err(Error::InvalidOffer)
    } else if details.attempt is Some {
        Err(Error::PaymentSendingFailed)
    } else if details.paid_count > u32::MAX {
        Err(Error::InvalidAmount)
    } else {
        Ok(details.paid_count as u32)
    }
}

/// Whether the handler may make a next payment: the number of payments made before, or the refusal.
pub open spec fn next_payment<P, F>(handler: Bolt12Payment, lookup: Lookup<P, F>) -> Result<
    u32,
    Error,
> {
    if !handler.is_running {
        Err(Error::NotRunning)
    } else {
        match found(lookup) {
            Err(e) => Err(e),
            Ok(details) => payments_before(details),
        }
    }
}

/// Whether a period lies within a schedule.
pub open spec fn within_limit(recurrence: OfferRecurrence, period_index: u32) -> bool {
    recurrence.limit matches Some(limit) ==> period_index <= limit
}

impl<P, F> NextPayment<P, F> {
    /// Takes the identifier of the offer that the record holds, if what it holds is an offer.
    pub fn of_offer(self, offer_id: Option<OfferId>) -> (r: Result<PeriodQuery<P, F>, Error>)
        ensures
            r == (match offer_id {
                Some(offer_id) => Ok(
                    PeriodQuery {
                        recurrence_id: self.recurrence_id,
                        details: self.details,
                        offer_id,
                        counter: self.counter,
                    },
                ),
                None => Err(Error::InvalidOffer),
            }),
    {
        match offer_id {
            Some(offer_id) => Ok(
                PeriodQuery {
                    recurrence_id: self.recurrence_id,
                    details: self.details,
                    offer_id,
                    counter: self.counter,
                },
            ),
            None => Err(Error::InvalidOffer),
        }
    }
}

impl<P, F> PeriodQuery<P, F> {
    /// Whether the next period can be asked for: there is a schedule, it has the period, the period
    /// is not past the last one, and it is known when periods begin.
    pub open spec fn has_period(
        self,
        recurrence: Option<OfferRecurrence>,
        period_index: Option<u32>,
    ) -> bool {
        &&& recurrence is Some
        &&& period_index is Some
        &&& within_limit(recurrence->0, period_index->0)
        &&& self.details.basetime is Some
    }

    /// The recurrence with the next period known.
    pub open spec fn scheduled(self, period_index: u32) -> WindowQuery<P, F> {
        WindowQuery {
            recurrence_id: self.recurrence_id,
            details: self.details,
            offer_id: self.offer_id,
            counter: self.counter,
            period_index,
            basetime: self.details.basetime->0,
        }
    }

    /// Takes the schedule of the record's offer and its answer for the period of the payment.
    pub fn period(self, recurrence: Option<OfferRecurrence>, period_index: Option<u32>) -> (r:
        Result<WindowQuery<P, F>, Error>)
        ensures
            r == (if self.has_period(recurrence, period_index) {
                Ok(self.scheduled(period_index->0))
            } else {
                Err(Error::InvalidOffer)
            }),
    {
        let recurrence = match recurrence {
            Some(recurrence) => recurrence,
            None => {
                return Err(Error::InvalidOffer);
            },
        };
        let period_index: u32 = match period_index {
            Some(period_index) => period_index,
            None => {
                return Err(Error::InvalidOffer);
            },
        };
        if let Some(limit) = recurrence.limit {
            if period_index > limit {
                return Err(Error::InvalidOffer);
            }
        }
        let basetime: u64 = match self.details.basetime {
            Some(basetime) => basetime,
            None => {
                return Err(Error::InvalidOffer);
            },
        };
        Ok(
            WindowQuery {
                recurrence_id: self.recurrence_id,
                details: self.details,
                offer_id: self.offer_id,
                counter: self.counter,
                period_index,
                basetime,
            },
        )
    }
}

impl<P, F> WindowQuery<P, F> {
    /// The payment, if it is due.
    pub open spec fn due(self) -> DuePayment {
        DuePayment {
            recurrence_id: self.recurrence_id,
            offer_id: self.offer_id,
            counter: self.counter,
            amount_msat: self.details.amount_msat->0,
            retry_policy: self.details.retry_policy,
        }
    }

    /// What a window and the time make of the payment.
    pub open spec fn timing(self, window: Option<(u64, u64)>, now: u64) -> Timing<P, F> {
        match window {
            None => Timing::Refused(Error::InvalidOffer),
            Some((opening, closing)) => if now < opening {
                Timing::Refused(Error::InvalidOffer)
            } else if now >= closing {
                Timing::Missed(self.details.with_status(RecurrenceStatus::Missed).changed())
            } else if self.details.amount_msat is None {
                Timing::Refused(Error::InvalidAmount)
            } else {
                Timing::Due(self.due())
            },
        }
    }

    /// Whether the answer will be that the period was missed, which changes the record.
    pub fn is_missed(&self, window: Option<(u64, u64)>, now: u64) -> (r: bool)
        ensures
            r == (self.timing(window, now) is Missed),
    {
        match window {
            Some((opening, closing)) => now >= opening && now >= closing,
            None => false,
        }
    }

    /// Takes the schedule's answer for when the period can be paid, from the first second to the
    /// one after the last, and the time.
    pub fn answer(self, window: Option<(u64, u64)>, now: u64) -> (r: Timing<P, F>)
        requires
            self.timing(window, now) is Missed ==> self.details.can_change(),
        ensures
            r == self.timing(window, now),
    {
        let (opening, closing): (u64, u64) = match window {
            Some(window) => window,
            None => {
                return Timing::Refused(Error::InvalidOffer);
            },
        };
        if now < opening {
            return Timing::Refused(Error::InvalidOffer);
        }
        if now >= closing {
            let mut details = self.details;
            details.status = RecurrenceStatus::Missed;
            details.count_change();
            return Timing::Missed(details);
        }
        match self.details.amount_msat {
            None => Timing::Refused(Error::InvalidAmount),
            Some(amount_msat) => Timing::Due(
                DuePayment {
                    recurrence_id: self.recurrence_id,
                    offer_id: self.offer_id,
                    counter: self.counter,
                    amount_msat,
                    retry_policy: self.details.retry_policy,
                },
            ),
        }
    }
}

impl<P, F> Timing<P, F> {
    /// What the caller is answered if the payment is not due.
    pub fn refusal(&self) -> (r: Option<Error>)
        ensures
            r == (match *self {
                Timing::Refused(e) => Some(e),
                Timing::Missed(_) => Some(Error::InvalidOffer),
                Timing::Due(_) => None,
            }),
    {
        match self {
            Timing::Refused(e) => Some(*e),
            Timing::Missed(_) => Some(Error::InvalidOffer),
            Timing::Due(_) => None,
        }
    }
}

impl DuePayment {
    /// The attempt to be claimed.
    pub open spec fn prepared(self, payment_id: PaymentId) -> RecurrenceAttempt {
        RecurrenceAttempt::Prepared { payment_id, amount_msat: self.amount_msat }
    }

    /// The attempt to be claimed, with the identifier drawn for the payment.
    pub fn attempt(&self, payment_id: PaymentId) -> (r: RecurrenceAttempt)
        ensures
            r == self.prepared(payment_id),
    {
        RecurrenceAttempt::Prepared { payment_id, amount_msat: self.amount_msat }
    }

    /// Whether a submission makes this payment by a claimed record, with a note.
    pub open spec fn made_by<P, F>(
        self,
        handler: Bolt12Payment,
        payment_id: PaymentId,
        details: RecurrenceDetails<P, F>,
        payer_note: Option<Seq<char>>,
        s: Submission<P, F>,
    ) -> bool {
        &&& s.recurrence_id == self.recurrence_id
        &&& s.payment_id == payment_id
        &&& s.offer_id == self.offer_id
        &&& s.amount_msat == self.amount_msat
        &&& s.details == details
        &&& s.stage is RecordPayment
        &&& s.request.amount_msat == details.amount_msat
        &&& s.request.params.follow(details, self.counter)
        &&& view_of(s.request.optional.payer_note) == payer_note
        &&& s.request.optional.route_params_config == chosen_route(
            details.routing_override,
            handler.config.route_parameters,
        )
        &&& s.request.optional.retry_strategy == self.retry_policy
    }

    /// The submission of this payment by a claimed record, with the note that the payee is to see.
    pub fn submission<P, F>(
        self,
        handler: &Bolt12Payment,
        payment_id: PaymentId,
        details: RecurrenceDetails<P, F>,
        payer_note: Option<String>,
    ) -> (r: Submission<P, F>)
        ensures
            self.made_by(*handler, payment_id, details, view_of(payer_note), r),
    {
        let request = RecurrenceRequest {
            amount_msat: details.amount_msat,
            params: RecurrencePaymentParams {
                counter: self.counter,
                start: details.initial_start,
                prev_state: copy_bytes(&details.opaque_state),
                quantity: details.quantity,
                expected_invoice_recurrence_basetime: details.basetime,
            },
            optional: OptionalOfferPaymentParams {
                payer_note,
                route_params_config: choose_route(
                    details.routing_override,
                    handler.config.route_parameters,
                ),
                retry_strategy: self.retry_policy,
            },
        };
        Submission {
            recurrence_id: self.recurrence_id,
            payment_id,
            offer_id: self.offer_id,
            amount_msat: self.amount_msat,
            request,
            details,
            stage: Stage::RecordPayment,
        }
    }

    /// Takes the store's answer to the claim of the attempt: the record with the attempt, or
    /// nothing if another attempt holds it. The payee sees the record's note as it is displayed.
    pub fn claimed<P, F>(
        self,
        handler: &Bolt12Payment,
        payment_id: PaymentId,
        claim: Lookup<P, F>,
    ) -> (r: Result<Submission<P, F>, Error>)
        ensures
            match (r, claim) {
                (Ok(s), Ok(Some(details))) => self.made_by(
                    *handler,
                    payment_id,
                    details,
                    displayed(details.payer_note),
                    s,
                ),
                (Err(e), Ok(None)) => e == Error::PaymentSendingFailed,
                (Err(e), Err(_)) => e == Error::PersistenceFailed,
                _ => false,
            },
    {
        match claim {
            Ok(Some(details)) => {
                let payer_note = match &details.payer_note {
                    Some(note) => Some(display_untrusted(note)),
                    None => None,
                };
                Ok(self.submission(handler, payment_id, details, payer_note))
            },
            Ok(None) => Err(Error::PaymentSendingFailed),
            Err(_) => Err(Error::PersistenceFailed),
        }
    }
}

/// A note as it is displayed.
pub open spec fn displayed(note: Option<String>) -> Option<Seq<char>> {
    match note {
        Some(text) => Some(printable_text(text@)),
        None => None,
    }
}

impl Bolt12Payment {
    /// Decides by the record whether there is a next payment to be made.
    pub fn check_next_payment<P, F>(&self, recurrence_id: RecurrenceId, lookup: Lookup<P, F>) -> (r:
        Result<NextPayment<P, F>, Error>)
        ensures
            r == (match next_payment(*self, lookup) {
                Ok(counter) => Ok(
                    NextPayment { recurrence_id, details: found(lookup)->Ok_0, counter },
                ),
                Err(e) => Err(e),
            }),
    {
        if !self.is_running {
            return Err(Error::NotRunning);
        }
        let details = match find(lookup) {
            Ok(details) => details,
            Err(e) => {
                return Err(e);
            },
        };
        if details.status != RecurrenceStatus::Active || details.paid_count == 0 {
            return Err(Error::InvalidOffer);
        }
        if details.attempt.is_some() {
            return Err(Error::PaymentSendingFailed);
        }
        if details.paid_count > u32::MAX as u64 {
            return Err(Error::InvalidAmount);
        }
        let counter: u32 = details.paid_count as u32;
        Ok(NextPayment { recurrence_id, details, counter })
    }

    /// Begins the next sequential payment for an active recurring offer, from what the store
    /// answered for it.
    pub fn pay_next_recurrence<P, F>(&self, recurrence_id: RecurrenceId, lookup: Lookup<P, F>) -> (r:
        Result<PeriodQuery<P, F>, Error>)
        ensures
            match next_payment(*self, lookup) {
                Err(e) => r == Err::<PeriodQuery<P, F>, Error>(e),
                Ok(counter) => {
                    let details = found(lookup)->Ok_0;
                    match (r, decoded_offer(details.original_offer@)) {
                        (Ok(query), Some((id, _))) => {
                            &&& query.recurrence_id == recurrence_id
                            &&& query.details == details
                            &&& query.offer_id@ == id
                            &&& query.counter == counter
                        },
                        (Err(e), None) => e == Error::InvalidOffer,
                        _ => false,
                    }
                },
            },
    {
        let next = match self.check_next_payment(recurrence_id, lookup) {
            Ok(next) => next,
            Err(e) => {
                return Err(e);
            },
        };
        let encoded = next.details.original_offer.clone();
        assert(encoded@ =~= next.details.original_offer@);
        match parse_offer(encoded) {
            Ok((offer_id, _)) => next.of_offer(Some(offer_id)),
            Err(_) => next.of_offer(None),
        }
    }
}

} // verus!
