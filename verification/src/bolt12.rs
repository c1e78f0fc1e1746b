//! The payment handler, and what it does with the records of recurrences.

use vstd::prelude::*;

use crate::details::{find, found, is_removable, removable, Lookup, RecurrenceDetails};
use crate::error::Error;
use crate::recurrence::exceeds;
use crate::types::{AsyncPaymentsRole, Config, RouteParameters};

verus! {

/// A payment handler allowing to create and pay offers and refunds.
///
/// It decides; the answers of the node and of the stores are handed to it. A method whose work goes
/// on after such an answer returns what to ask, and the answer is given to the value returned.
#[derive(Clone, Copy, Debug)]
pub struct Bolt12Payment {
    pub config: Config,
    pub is_running: bool,
    pub async_payments_role: Option<AsyncPaymentsRole>,
}

/// The amount of each payment: the requested one, else the offer's, within the ceiling.
pub open spec fn recurrence_amount(
    offer_amount_msat: Option<u64>,
    requested_amount_msat: Option<u64>,
    maximum_amount_msat: Option<u64>,
) -> Result<u64, Error> {
    let wanted = if requested_amount_msat is Some {
        requested_amount_msat
    } else {
        offer_amount_msat
    };
    match (wanted, maximum_amount_msat) {
        (None, _) => Err(Error::InvalidAmount),
        (Some(amount), Some(maximum)) if amount > maximum => Err(Error::InvalidAmount),
        (Some(amount), _) => Ok(amount),
    }
}

/// Determines the amount of each payment of a recurrence.
pub fn validate_recurrence_amount(
    offer_amount_msat: Option<u64>,
    requested_amount_msat: Option<u64>,
    maximum_amount_msat: Option<u64>,
) -> (r: Result<u64, Error>)
    ensures
        r == recurrence_amount(offer_amount_msat, requested_amount_msat, maximum_amount_msat),
{
    let amount_msat: u64 = match requested_amount_msat {
        Some(amount) => amount,
        None => match offer_amount_msat {
            Some(amount) => amount,
            None => {
                return Err(Error::InvalidAmount);
            },
        },
    };
    if exceeds(amount_msat, maximum_amount_msat) {
        return Err(Error::InvalidAmount);
    }
    Ok(amount_msat)
}

/// Whether a lookup, if it found a record, found one of which one more change can be counted.
pub open spec fn changeable<P, F>(lookup: Lookup<P, F>) -> bool {
    lookup matches Ok(Some(details)) ==> details.can_change()
}

/// What the setter of automatic payments hands to the store.
pub open spec fn automation_set<P, F>(lookup: Lookup<P, F>, enabled: bool) -> Result<
    RecurrenceDetails<P, F>,
    Error,
> {
    match found(lookup) {
        Err(e) => Err(e),
        Ok(details) => Ok(details.with_pay_next_automatically(enabled).changed()),
    }
}

/// What the setter of routing limits hands to the store.
pub open spec fn routing_set<P, F>(
    lookup: Lookup<P, F>,
    route_parameters: Option<RouteParameters>,
) -> Result<RecurrenceDetails<P, F>, Error> {
    match found(lookup) {
        Err(e) => Err(e),
        Ok(details) => Ok(details.with_routing_override(route_parameters).changed()),
    }
}

/// What a request for removal is answered: only a recurrence that is over, or stuck, is removed.
pub open spec fn removal<P, F>(lookup: Lookup<P, F>) -> Result<(), Error> {
    match found(lookup) {
        Err(e) => Err(e),
        Ok(details) => if removable(details.status) {
            Ok(())
        } else {
            Err(Error::InvalidOffer)
        },
    }
}

impl Bolt12Payment {
    /// A payment handler for a node.
    pub fn new(
        config: Config,
        is_running: bool,
        async_payments_role: Option<AsyncPaymentsRole>,
    ) -> (r: Self)
        ensures
            r == (Bolt12Payment { config, is_running, async_payments_role }),
    {
        Bolt12Payment { config, is_running, async_payments_role }
    }

    /// Returns the durable details for a recurrence, from what the store answered.
    pub fn recurrence<P, F>(&self, lookup: Lookup<P, F>) -> (r: Result<
        RecurrenceDetails<P, F>,
        Error,
    >)
        ensures
            r == found(lookup),
    {
        find(lookup)
    }

    /// Decides whether a recurrence may be removed; the records of its payments stay.
    pub fn remove_recurrence<P, F>(&self, lookup: Lookup<P, F>) -> (r: Result<(), Error>)
        ensures
            r == removal(lookup),
    {
        match find(lookup) {
            Err(e) => Err(e),
            Ok(details) => if is_removable(details.status) {
                Ok(())
            } else {
                Err(Error::InvalidOffer)
            },
        }
    }

    /// Sets whether future recurrence periods should be submitted automatically. The record
    /// returned is to be stored.
    pub fn set_pay_next_automatically<P, F>(&self, lookup: Lookup<P, F>, enabled: bool) -> (r:
        Result<RecurrenceDetails<P, F>, Error>)
        requires
            changeable(lookup),
        ensures
            r == automation_set(lookup, enabled),
    {
        match find(lookup) {
            Err(e) => Err(e),
            Ok(mut details) => {
                details.pay_next_automatically = enabled;
                details.count_change();
                Ok(details)
            },
        }
    }

    /// Sets a per-recurrence routing override; `None` restores node defaults. The record returned
    /// is to be stored.
    pub fn set_recurrence_route_parameters<P, F>(
        &self,
        lookup: Lookup<P, F>,
        route_parameters: Option<RouteParameters>,
    ) -> (r: Result<RecurrenceDetails<P, F>, Error>)
        requires
            changeable(lookup),
        ensures
            r == routing_set(lookup, route_parameters),
    {
        match find(lookup) {
            Err(e) => Err(e),
            Ok(mut details) => {
                details.routing_override = route_parameters;
                details.count_change();
                Ok(details)
            },
        }
    }
}

} // verus!
