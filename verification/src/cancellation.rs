//! The cancellation of a recurrence.
//!
//! That cancellation is pending is recorded before anything else happens, so that no payment is
//! resumed while it goes on. The attempt under way is abandoned, the payee is told if it was ever
//! paid, and only then is the record marked as cancelled.

use vstd::prelude::*;

use crate::bindings::{decoded_offer, parse_offer};
use crate::bolt12::{changeable, removal, Bolt12Payment};
use crate::details::{find, found, is_removable, removable, Lookup, RecurrenceDetails};
use crate::error::Error;
use crate::next_payment::next_payment;
use crate::payment::copy_bytes;
use crate::recurrence::{view_of, RecurrenceCancellationState, RecurrenceId, RecurrenceStatus};
use crate::types::PaymentId;

verus! {

/// Where in its schedule a recurrence is cancelled.
#[derive(Clone, Debug)]
pub struct RecurrenceCancellationParams {
    /// The number of payments made.
    pub counter: u32,
    pub start: Option<u32>,
    /// What the payee handed out with the last payment, to recognise the recurrence by.
    pub prev_state: Option<Vec<u8>>,
}

/// What is to be done next.
#[derive(Clone, Copy, Debug, PartialEq, Eq, Structural)]
pub enum CancellationStage {
    /// Store the record, which says that cancellation is pending.
    RecordPending,
    /// Abandon the payment of the record's attempt.
    Abandon,
    /// Ask the node to tell the payee.
    Notify,
    /// Store the record, which says that the recurrence is cancelled.
    RecordCancelled,
    /// Nothing: the recurrence is cancelled.
    Finished,
    /// Nothing: the caller is answered with an error.
    Failed(Error),
}

/// A cancellation on its way.
#[derive(Clone, Debug)]
pub struct Cancellation<P, F> {
    pub recurrence_id: RecurrenceId,
    pub details: RecurrenceDetails<P, F>,
    pub stage: CancellationStage,
}

impl<P, F> RecurrenceDetails<P, F> {
    /// The record of a recurrence whose cancellation has begun.
    pub open spec fn pending(self) -> Self {
        self.with_cancellation(
            RecurrenceStatus::CancellationPending,
            RecurrenceCancellationState::Pending,
        ).changed()
    }

    /// The record of a recurrence that is cancelled.
    pub open spec fn cancelled(self) -> Self {
        self.with_cancellation(
            RecurrenceStatus::Cancelled,
            RecurrenceCancellationState::Cancelled,
        ).changed()
    }
}

/// What a request for cancellation is answered: an error if the recurrence is over or stuck,
/// nothing if its cancellation is pending already, and else a cancellation to go through.
pub open spec fn cancellation<P, F>(recurrence_id: RecurrenceId, lookup: Lookup<P, F>) -> Result<
    Option<Cancellation<P, F>>,
    Error,
> {
    match found(lookup) {
        Err(e) => Err(e),
        Ok(details) => if removable(details.status) {
            Err(Error::InvalidOffer)
        } else if details.status is CancellationPending {
            Ok(None)
        } else {
            Ok(
                Some(
                    Cancellation {
                        recurrence_id,
                        details: details.pending(),
                        stage: CancellationStage::RecordPending,
                    },
                ),
            )
        },
    }
}

impl<P, F> Cancellation<P, F> {
    /// The cancellation after a stage that leads to an error.
    pub open spec fn failed(self, e: Error) -> Self {
        Cancellation { stage: CancellationStage::Failed(e), ..self }
    }

    /// The cancellation when nothing is left but to record it.
    pub open spec fn settled(self) -> Self {
        Cancellation {
            stage: CancellationStage::RecordCancelled,
            details: self.details.cancelled(),
            ..self
        }
    }

    /// The cancellation when no attempt is under way any more. The payee is told if it was ever
    /// paid; `is_offer` says whether the record holds an offer to tell it by.
    pub open spec fn abandoned(self, is_offer: bool) -> Self {
        if self.details.paid_count == 0 {
            self.settled()
        } else if !is_offer {
            self.failed(Error::InvalidOffer)
        } else if self.details.paid_count > u32::MAX {
            self.failed(Error::InvalidAmount)
        } else {
            Cancellation { stage: CancellationStage::Notify, ..self }
        }
    }

    /// The cancellation after a stage. How abandoning and telling the payee went does not matter.
    pub open spec fn next(self, ok: bool, is_offer: bool) -> Self {
        match self.stage {
            CancellationStage::RecordPending => if !ok {
                self.failed(Error::PersistenceFailed)
            } else if self.details.attempt is Some {
                Cancellation { stage: CancellationStage::Abandon, ..self }
            } else {
                self.abandoned(is_offer)
            },
            CancellationStage::Abandon => self.abandoned(is_offer),
            CancellationStage::Notify => self.settled(),
            CancellationStage::RecordCancelled => if ok {
                Cancellation { stage: CancellationStage::Finished, ..self }
            } else {
                self.failed(Error::PersistenceFailed)
            },
            CancellationStage::Finished => self,
            CancellationStage::Failed(_) => self,
        }
    }

    /// The cancellation after as many stages as there are outcomes.
    pub open spec fn run(self, outcomes: Seq<bool>, is_offer: bool) -> Self
        decreases outcomes.len(),
    {
        if outcomes.len() == 0 {
            self
        } else {
            self.run(outcomes.drop_last(), is_offer).next(outcomes.last(), is_offer)
        }
    }

    /// Whether a stage that went well, or did not, leaves nothing but to record the cancellation,
    /// which changes the record.
    pub open spec fn counts_change(self, ok: bool) -> bool {
        match self.stage {
            CancellationStage::RecordPending => ok && self.details.attempt is None
                && self.details.paid_count == 0,
            CancellationStage::Abandon => self.details.paid_count == 0,
            CancellationStage::Notify => true,
            _ => false,
        }
    }

    /// Whether the record holds an offer.
    pub open spec fn holds_offer(self) -> bool {
        decoded_offer(self.details.original_offer@) is Some
    }

    /// What the caller is answered, once nothing is left to do.
    pub open spec fn answer(self) -> Option<Result<(), Error>> {
        match self.stage {
            CancellationStage::Finished => Some(Ok(())),
            CancellationStage::Failed(e) => Some(Err(e)),
            _ => None,
        }
    }

    /// The payment to be abandoned.
    pub fn payment(&self) -> (r: Option<PaymentId>)
        ensures
            r == (match self.details.attempt {
                Some(attempt) => Some(attempt.spec_payment_id()),
                None => None,
            }),
    {
        match &self.details.attempt {
            Some(attempt) => Some(attempt.payment_id()),
            None => None,
        }
    }

    /// What the payee is told.
    pub fn params(&self) -> (r: RecurrenceCancellationParams)
        requires
            self.details.paid_count <= u32::MAX,
        ensures
            r.counter == self.details.paid_count,
            r.start == self.details.initial_start,
            view_of(r.prev_state) == view_of(self.details.opaque_state),
    {
        RecurrenceCancellationParams {
            counter: self.details.paid_count as u32,
            start: self.details.initial_start,
            prev_state: copy_bytes(&self.details.opaque_state),
        }
    }

    /// Marks the record as cancelled.
    fn settle(&mut self)
        requires
            old(self).details.can_change(),
        ensures
            *final(self) == old(self).settled(),
    {
        self.details.status = RecurrenceStatus::Cancelled;
        self.details.cancellation = RecurrenceCancellationState::Cancelled;
        self.details.count_change();
        self.stage = CancellationStage::RecordCancelled;
    }

    /// Moves on when no attempt is under way any more.
    fn leave_attempt(&mut self, is_offer: bool)
        requires
            old(self).abandoned(is_offer).stage is RecordCancelled ==> old(
                self,
            ).details.can_change(),
        ensures
            *final(self) == old(self).abandoned(is_offer),
    {
        if self.details.paid_count == 0 {
            self.settle();
        } else if !is_offer {
            self.stage = CancellationStage::Failed(Error::InvalidOffer);
        } else if self.details.paid_count > u32::MAX as u64 {
            self.stage = CancellationStage::Failed(Error::InvalidAmount);
        } else {
            self.stage = CancellationStage::Notify;
        }
    }

    /// Whether the record will change when it is noted how a stage went.
    pub fn changes_record(&self, ok: bool) -> (r: bool)
        ensures
            r == self.counts_change(ok),
    {
        match self.stage {
            CancellationStage::RecordPending => ok && self.details.attempt.is_none()
                && self.details.paid_count == 0,
            CancellationStage::Abandon => self.details.paid_count == 0,
            CancellationStage::Notify => true,
            _ => false,
        }
    }

    /// Takes note of how a stage went and moves on to the next; `is_offer` says whether the record
    /// holds an offer.
    pub fn advance_with(&mut self, ok: bool, is_offer: bool)
        requires
            old(self).counts_change(ok) ==> old(self).details.can_change(),
        ensures
            *final(self) == old(self).next(ok, is_offer),
    {
        match self.stage {
            CancellationStage::RecordPending => {
                if !ok {
                    self.stage = CancellationStage::Failed(Error::PersistenceFailed);
                } else if self.details.attempt.is_some() {
                    self.stage = CancellationStage::Abandon;
                } else {
                    self.leave_attempt(is_offer);
                }
            },
            CancellationStage::Abandon => {
                self.leave_attempt(is_offer);
            },
            CancellationStage::Notify => {
                self.settle();
            },
            CancellationStage::RecordCancelled => {
                self.stage = if ok {
                    CancellationStage::Finished
                } else {
                    CancellationStage::Failed(Error::PersistenceFailed)
                };
            },
            CancellationStage::Finished => {},
            CancellationStage::Failed(_) => {},
        }
    }

    /// Takes note of how a stage went and moves on to the next.
    pub fn advance(&mut self, ok: bool)
        requires
            old(self).counts_change(ok) ==> old(self).details.can_change(),
        ensures
            *final(self) == old(self).next(ok, old(self).holds_offer()),
    {
        let encoded = self.details.original_offer.clone();
        assert(encoded@ =~= self.details.original_offer@);
        let is_offer: bool = parse_offer(encoded).is_ok();
        self.advance_with(ok, is_offer);
    }

    /// What the caller is answered, once nothing is left to do.
    pub fn result(&self) -> (r: Option<Result<(), Error>>)
        ensures
            r == self.answer(),
    {
        match self.stage {
            CancellationStage::Finished => Some(Ok(())),
            CancellationStage::Failed(e) => Some(Err(e)),
            _ => None,
        }
    }
}

impl Bolt12Payment {
    /// Begins to cancel a recurring offer, from what the store answered for it. Nothing is to be
    /// done if its cancellation is pending already.
    pub fn cancel_recurrence<P, F>(&self, recurrence_id: RecurrenceId, lookup: Lookup<P, F>) -> (r:
        Result<Option<Cancellation<P, F>>, Error>)
        requires
            cancellation(recurrence_id, lookup) matches Ok(Some(_)) ==> changeable(lookup),
        ensures
            r == cancellation(recurrence_id, lookup),
    {
        let mut details = match find(lookup) {
            Ok(details) => details,
            Err(e) => {
                return Err(e);
            },
        };
        if is_removable(details.status) {
            return Err(Error::InvalidOffer);
        }
        if details.status == RecurrenceStatus::CancellationPending {
            return Ok(None);
        }
        details.status = RecurrenceStatus::CancellationPending;
        details.cancellation = RecurrenceCancellationState::Pending;
        details.count_change();
        Ok(
            Some(
                Cancellation { recurrence_id, details, stage: CancellationStage::RecordPending },
            ),
        )
    }
}

/// The record during a cancellation that began with another: pending, until it is settled.
spec fn underway<P, F>(c: Cancellation<P, F>, start: Cancellation<P, F>) -> bool {
    match c.stage {
        CancellationStage::RecordCancelled => c.details == start.details.cancelled(),
        CancellationStage::Finished => c.details == start.details.cancelled(),
        CancellationStage::Failed(_) => c.details == start.details || c.details
            == start.details.cancelled(),
        _ => c.details == start.details,
    }
}

/// The record is the one that the cancellation began with until it is marked as cancelled.
proof fn lemma_underway<P, F>(start: Cancellation<P, F>, outcomes: Seq<bool>, is_offer: bool)
    requires
        start.stage is RecordPending,
    ensures
        underway(start.run(outcomes, is_offer), start),
        outcomes.len() > 0 && !outcomes[0] ==> start.run(outcomes, is_offer).stage
            == CancellationStage::Failed(Error::PersistenceFailed),
        outcomes.len() > 0 ==> !(start.run(outcomes, is_offer).stage is RecordPending),
    decreases outcomes.len(),
{
    if outcomes.len() > 0 {
        lemma_underway(start, outcomes.drop_last(), is_offer);
        if outcomes.len() > 1 {
            assert(outcomes.drop_last()[0] == outcomes[0]);
        }
    }
}

/// Nothing is abandoned and the payee is not told unless it was recorded before that cancellation
/// is pending, and the record still says so then.
pub proof fn law_pending_is_recorded_first<P, F>(
    recurrence_id: RecurrenceId,
    lookup: Lookup<P, F>,
    outcomes: Seq<bool>,
    is_offer: bool,
)
    requires
        cancellation(recurrence_id, lookup) matches Ok(Some(_)),
        ({
            let stage = (cancellation(recurrence_id, lookup)->Ok_0->0).run(outcomes, is_offer).stage;
            stage is Abandon || stage is Notify
        }),
    ensures
        outcomes.len() > 0 && outcomes[0],
        ({
            let c = (cancellation(recurrence_id, lookup)->Ok_0->0).run(outcomes, is_offer);
            c.details == found(lookup)->Ok_0.pending()
        }),
{
    let start = cancellation(recurrence_id, lookup)->Ok_0->0;
    lemma_underway(start, outcomes, is_offer);
}

/// A recurrence can be removed exactly when a request to cancel it is refused for its status.
pub proof fn law_removable_or_cancellable<P, F>(
    recurrence_id: RecurrenceId,
    details: RecurrenceDetails<P, F>,
)
    ensures
        removal(Ok(Some(details))) is Ok <==> cancellation(recurrence_id, Ok(Some(details))) is Err,
{
}

/// While a cancellation is pending, asking for it again changes nothing and does not fail.
pub proof fn law_cancelling_twice<P, F>(
    recurrence_id: RecurrenceId,
    details: RecurrenceDetails<P, F>,
)
    requires
        cancellation(recurrence_id, Ok(Some(details))) matches Ok(Some(_)),
    ensures
        cancellation(recurrence_id, Ok(Some(details.pending()))) == Ok::<
            Option<Cancellation<P, F>>,
            Error,
        >(None),
{
}

/// From the moment that its cancellation is recorded as pending, and after it is cancelled, no
/// further payment of a recurrence is made.
pub proof fn law_no_payment_while_cancelling<P, F>(
    handler: Bolt12Payment,
    details: RecurrenceDetails<P, F>,
)
    ensures
        next_payment(handler, Ok(Some(details.pending()))) is Err,
        next_payment(handler, Ok(Some(details.pending().cancelled()))) is Err,
{
}

/// A cancellation that finishes has recorded the recurrence as cancelled, with two changes counted
/// and nothing else changed; the recurrence can be removed then.
pub proof fn law_finished_cancellation<P, F>(
    recurrence_id: RecurrenceId,
    lookup: Lookup<P, F>,
    outcomes: Seq<bool>,
    is_offer: bool,
)
    requires
        cancellation(recurrence_id, lookup) matches Ok(Some(_)),
        (cancellation(recurrence_id, lookup)->Ok_0->0).run(outcomes, is_offer).stage is Finished,
    ensures
        ({
            let c = (cancellation(recurrence_id, lookup)->Ok_0->0).run(outcomes, is_offer);
            &&& c.details == found(lookup)->Ok_0.pending().cancelled()
            &&& removal(Ok(Some(c.details))) is Ok
        }),
{
    let start = cancellation(recurrence_id, lookup)->Ok_0->0;
    lemma_underway(start, outcomes, is_offer);
}

/// Where every stage goes well, a cancellation is over after at most four; it fails only if the
/// payee was paid and the record does not say by which offer, or was paid more often than can be
/// told.
pub proof fn law_cancellation_comes_to_an_end<P, F>(
    recurrence_id: RecurrenceId,
    lookup: Lookup<P, F>,
    is_offer: bool,
)
    requires
        cancellation(recurrence_id, lookup) matches Ok(Some(_)),
    ensures
        ({
            let start = cancellation(recurrence_id, lookup)->Ok_0->0;
            let paid_count = found(lookup)->Ok_0.paid_count;
            start.next(true, is_offer).next(true, is_offer).next(true, is_offer).next(
                true,
                is_offer,
            ).answer() == Some(
                if paid_count > 0 && !is_offer {
                    Err::<(), Error>(Error::InvalidOffer)
                } else if paid_count > u32::MAX {
                    Err::<(), Error>(Error::InvalidAmount)
                } else {
                    Ok::<(), Error>(())
                },
            )
        }),
{
}

/// A cancellation does not depend on how abandoning the payment or telling the payee went.
pub proof fn law_cancellation_is_local<P, F>(c: Cancellation<P, F>, is_offer: bool)
    requires
        c.stage is Abandon || c.stage is Notify,
    ensures
        c.next(false, is_offer) == c.next(true, is_offer),
{
}

/// The payee is told of a cancellation only if it was paid before, and if it was, the recurrence
/// is not marked as cancelled before the payee was told.
pub proof fn law_payee_is_told_if_paid<P, F>(
    recurrence_id: RecurrenceId,
    lookup: Lookup<P, F>,
    outcomes: Seq<bool>,
    ok: bool,
    is_offer: bool,
)
    requires
        cancellation(recurrence_id, lookup) matches Ok(Some(_)),
    ensures
        ({
            let c = (cancellation(recurrence_id, lookup)->Ok_0->0).run(outcomes, is_offer);
            let paid = found(lookup)->Ok_0.paid_count > 0;
            &&& (c.stage is Notify ==> paid)
            &&& (paid && c.next(ok, is_offer).stage is RecordCancelled ==> c.stage is Notify)
        }),
{
    let start = cancellation(recurrence_id, lookup)->Ok_0->0;
    lemma_underway(start, outcomes, is_offer);
    if outcomes.len() > 0 {
        lemma_underway(start, outcomes.drop_last(), is_offer);
    }
}

} // verus!
