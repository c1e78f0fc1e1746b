//! What the stores hold, and what becomes of it.

use vstd::prelude::*;

use crate::bolt12::{automation_set, removal, routing_set};
use crate::details::{found, Lookup, RecurrenceDetails};
use crate::error::Error;
use crate::payment::PaymentDetails;
use crate::recurrence::RecurrenceId;
use crate::types::RouteParameters;

verus! {

/// The records of recurrences and of payments, by the bytes of their identifiers.
#[verifier::ext_equal]
pub struct Records<P, F> {
    pub recurrences: Map<Seq<u8>, RecurrenceDetails<P, F>>,
    pub payments: Map<Seq<u8>, PaymentDetails>,
}

impl<P, F> Records<P, F> {
    /// Whether every recurrence is kept under its own identifier.
    pub open spec fn wf(self) -> bool {
        forall|key: Seq<u8>| #[trigger]
            self.recurrences.dom().contains(key) ==> self.recurrences[key].id@ == key
    }

    /// What looking a recurrence up answers.
    pub open spec fn lookup(self, id: RecurrenceId) -> Lookup<P, F> {
        if self.recurrences.dom().contains(id@) {
            Ok(Some(self.recurrences[id@]))
        } else {
            Ok(None)
        }
    }

    /// The records with one of a recurrence stored.
    pub open spec fn with(self, details: RecurrenceDetails<P, F>) -> Self {
        Records { recurrences: self.recurrences.insert(details.id@, details), ..self }
    }

    /// The records without that of a recurrence.
    pub open spec fn without(self, id: RecurrenceId) -> Self {
        Records { recurrences: self.recurrences.remove(id@), ..self }
    }

    /// The records after a request for removal: without the recurrence if it may be removed, and
    /// else as they were.
    pub open spec fn after_removal(self, id: RecurrenceId) -> Self {
        if removal(self.lookup(id)) is Ok {
            self.without(id)
        } else {
            self
        }
    }

    /// The records after a changed one was to be stored, which is not done on an error.
    pub open spec fn after_change(self, change: Result<RecurrenceDetails<P, F>, Error>) -> Self {
        match change {
            Ok(details) => self.with(details),
            Err(_) => self,
        }
    }
}

/// Once a recurrence is removed it is not found any more, and removing it again fails for that.
/// Every other recurrence is found as before, and the payments of all of them stay on record.
pub proof fn law_removed_is_gone<P, F>(
    records: Records<P, F>,
    id: RecurrenceId,
    other: RecurrenceId,
)
    requires
        removal(records.lookup(id)) is Ok,
    ensures
        ({
            let after = records.after_removal(id);
            &&& found(after.lookup(id)) == Err::<RecurrenceDetails<P, F>, Error>(
                Error::InvalidOfferId,
            )
            &&& removal(after.lookup(id)) == Err::<(), Error>(Error::InvalidOfferId)
            &&& (other@ != id@ ==> after.lookup(other) == records.lookup(other))
            &&& after.payments == records.payments
            &&& (records.wf() ==> after.wf())
        }),
{
}

/// A refused removal leaves every record as it was.
pub proof fn law_refused_removal_changes_nothing<P, F>(records: Records<P, F>, id: RecurrenceId)
    requires
        removal(records.lookup(id)) is Err,
    ensures
        records.after_removal(id) == records,
{
}

/// A setting is found again as it was set, with everything else on record as before: on the same
/// recurrence but for the count of changes, on every other recurrence, and of payments.
pub proof fn law_settings_are_found_again<P, F>(
    records: Records<P, F>,
    id: RecurrenceId,
    other: RecurrenceId,
    enabled: bool,
    route: Option<RouteParameters>,
)
    requires
        records.wf(),
        found(records.lookup(id)) is Ok,
    ensures
        ({
            let details = found(records.lookup(id))->Ok_0;
            let automated = records.after_change(automation_set(records.lookup(id), enabled));
            let routed = records.after_change(routing_set(records.lookup(id), route));
            &&& found(automated.lookup(id)) == Ok::<RecurrenceDetails<P, F>, Error>(
                details.with_pay_next_automatically(enabled).changed(),
            )
            &&& found(routed.lookup(id)) == Ok::<RecurrenceDetails<P, F>, Error>(
                details.with_routing_override(route).changed(),
            )
            &&& (other@ != id@ ==> automated.lookup(other) == records.lookup(other)
                && routed.lookup(other) == records.lookup(other))
            &&& automated.payments == records.payments
            &&& routed.payments == records.payments
            &&& automated.wf() && routed.wf()
        }),
{
}

} // verus!
