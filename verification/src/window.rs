//! When the periods of a recurrence can be paid.

use vstd::prelude::*;

use crate::bindings::{decoded_offer, parse_offer};
use crate::bolt12::Bolt12Payment;
use crate::details::{find, found, Lookup, RecurrenceDetails};
use crate::error::Error;
use crate::next_payment::{next_payment, PeriodQuery, WindowQuery};
use crate::types::{Offer, OfferRecurrence};

verus! {

/// When a period can be paid: from `opens_at` on and before `closes_at`.
#[derive(Clone, Copy, Debug, PartialEq, Eq, Structural)]
pub struct RecurrencePaymentWindow {
    pub period_index: u32,
    pub opens_at: u64,
    pub closes_at: u64,
    pub currently_payable: bool,
}

/// What a schedule is asked to find the window of a period.
#[derive(Clone, Copy, Debug, PartialEq, Eq, Structural)]
pub struct WindowRequest {
    /// When the first period begins.
    pub basetime: u64,
    pub period_index: u32,
}

/// What is asked for a period of an offer: only an offer that says when its periods begin has
/// windows before it is paid.
pub open spec fn offer_window(offer: Offer, period_index: u32) -> Result<WindowRequest, Error> {
    match offer.recurrence {
        Some(OfferRecurrence { explicit_basetime: Some(basetime), .. }) => Ok(
            WindowRequest { basetime, period_index },
        ),
        _ => Err(Error::InvalidOffer),
    }
}

/// What is asked for the next period of a record. `is_recurring` says whether the record holds a
/// recurring offer, `period_index` which period the offer's schedule has for the next payment.
pub open spec fn record_window<P, F>(
    details: RecurrenceDetails<P, F>,
    is_recurring: bool,
    period_index: Option<u32>,
) -> Result<WindowRequest, Error> {
    if details.basetime is None || !is_recurring {
        Err(Error::InvalidOffer)
    } else if details.paid_count > u32::MAX {
        Err(Error::InvalidAmount)
    } else {
        match period_index {
            None => Err(Error::InvalidOffer),
            Some(period_index) => Ok(
                WindowRequest { basetime: details.basetime->0, period_index },
            ),
        }
    }
}

impl WindowRequest {
    /// The window at a time, if the schedule has one.
    pub open spec fn window_at(self, window: Option<(u64, u64)>, now: u64) -> Result<
        RecurrencePaymentWindow,
        Error,
    > {
        match window {
            None => Err(Error::InvalidOffer),
            Some((opens_at, closes_at)) => Ok(
                RecurrencePaymentWindow {
                    period_index: self.period_index,
                    opens_at,
                    closes_at,
                    currently_payable: opens_at <= now < closes_at,
                },
            ),
        }
    }

    /// Takes the schedule's answer, and the time.
    pub fn answer(self, window: Option<(u64, u64)>, now: u64) -> (r: Result<
        RecurrencePaymentWindow,
        Error,
    >)
        ensures
            r == self.window_at(window, now),
    {
        match window {
            None => Err(Error::InvalidOffer),
            Some((opens_at, closes_at)) => Ok(
                RecurrencePaymentWindow {
                    period_index: self.period_index,
                    opens_at,
                    closes_at,
                    currently_payable: now >= opens_at && now < closes_at,
                },
            ),
        }
    }
}

/// Asks for the window of the next period of a record. `is_recurring` says whether the record holds
/// a recurring offer, `period_index` which period the offer's schedule has for the next payment.
pub fn next_window<P, F>(
    details: &RecurrenceDetails<P, F>,
    is_recurring: bool,
    period_index: Option<u32>,
) -> (r: Result<WindowRequest, Error>)
    ensures
        r == record_window(*details, is_recurring, period_index),
{
    let basetime: u64 = match details.basetime {
        Some(basetime) => basetime,
        None => {
            return Err(Error::InvalidOffer);
        },
    };
    if !is_recurring {
        return Err(Error::InvalidOffer);
    }
    if details.paid_count > u32::MAX as u64 {
        return Err(Error::InvalidAmount);
    }
    match period_index {
        Some(period_index) => Ok(WindowRequest { basetime, period_index }),
        None => Err(Error::InvalidOffer),
    }
}

impl Bolt12Payment {
    /// Asks for the payment window for a period of an explicit-basetime offer.
    pub fn recurrence_payment_window(&self, offer: &Offer, period_index: u32) -> (r: Result<
        WindowRequest,
        Error,
    >)
        ensures
            r == offer_window(*offer, period_index),
    {
        let recurrence = match offer.recurrence {
            Some(recurrence) => recurrence,
            None => {
                return Err(Error::InvalidOffer);
            },
        };
        match recurrence.explicit_basetime {
            Some(basetime) => Ok(WindowRequest { basetime, period_index }),
            None => Err(Error::InvalidOffer),
        }
    }

    /// Asks for the next payment window for an existing recurrence, from what the store answered
    /// for it. `recurrence` is the schedule of the record's offer, if that is a recurring one;
    /// `period_index` is the schedule's answer for the period of the next payment, by the record's
    /// `paid_count` and `initial_start`.
    pub fn next_recurrence_payment_window<P, F>(
        &self,
        lookup: Lookup<P, F>,
        recurrence: Option<OfferRecurrence>,
        period_index: Option<u32>,
    ) -> (r: Result<WindowRequest, Error>)
        ensures
            r == (match found(lookup) {
                Err(e) => Err(e),
                Ok(details) => record_window(
                    details,
                    decoded_offer(details.original_offer@) is Some && recurrence is Some,
                    period_index,
                ),
            }),
    {
        let details = match find(lookup) {
            Ok(details) => details,
            Err(e) => {
                return Err(e);
            },
        };
        let encoded = details.original_offer.clone();
        assert(encoded@ =~= details.original_offer@);
        let is_offer: bool = parse_offer(encoded).is_ok();
        next_window(&details, is_offer && recurrence.is_some(), period_index)
    }
}

/// A payment that a recurrence may make, in a period that its schedule has, is due exactly when
/// that period's window is payable at the time; and the recurrence is missed exactly when the
/// window has opened and closed.
pub proof fn law_due_when_payable<P, F>(query: WindowQuery<P, F>, window: (u64, u64), now: u64)
    requires
        query.details.amount_msat is Some,
    ensures
        ({
            let request = WindowRequest {
                basetime: query.basetime,
                period_index: query.period_index,
            };
            let at = request.window_at(Some(window), now)->Ok_0;
            &&& query.timing(Some(window), now) is Due <==> at.currently_payable
            &&& query.timing(Some(window), now) is Missed <==> at.opens_at <= now && at.closes_at
                <= now
        }),
{
}

/// The next window asked for is the window that the next payment is held to, whichever period the
/// schedule has for that payment.
pub proof fn law_next_window_is_the_next_payments<P, F>(
    handler: Bolt12Payment,
    query: PeriodQuery<P, F>,
    recurrence: OfferRecurrence,
    period_index: u32,
)
    requires
        next_payment(handler, Ok(Some(query.details))) == Ok::<u32, Error>(query.counter),
        query.has_period(Some(recurrence), Some(period_index)),
    ensures
        record_window(query.details, true, Some(period_index)) == Ok::<WindowRequest, Error>(
            WindowRequest {
                basetime: query.scheduled(period_index).basetime,
                period_index: query.scheduled(period_index).period_index,
            },
        ),
{
}

} // verus!
