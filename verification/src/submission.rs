//! The way of one payment of a recurrence, from its record to the answer.
//!
//! The attempt is recorded first, the payment second; only when both are on record is the request
//! submitted, and what came of it is recorded last. An interrupted call leaves records to go on
//! from.

use vstd::prelude::*;

use crate::details::RecurrenceDetails;
use crate::error::Error;
use crate::payment::{
    copy_note, offer_payment, record_offer_payment, OptionalOfferPaymentParams, PaymentDetails,
    PaymentStatus,
};
use crate::recurrence::{view_of, RecurrenceAttempt, RecurrenceId, RecurrenceStatus};
use crate::types::{OfferId, PaymentId};

verus! {

/// Where in its schedule a payment stands.
#[derive(Clone, Debug)]
pub struct RecurrencePaymentParams {
    /// The number of payments made before.
    pub counter: u32,
    pub start: Option<u32>,
    /// What the payee handed out with the payment before.
    pub prev_state: Option<Vec<u8>>,
    pub quantity: Option<u64>,
    pub expected_invoice_recurrence_basetime: Option<u64>,
}

impl RecurrencePaymentParams {
    /// Whether these are the parameters of a payment after `counter` others by a record.
    pub open spec fn follow<P, F>(self, details: RecurrenceDetails<P, F>, counter: u32) -> bool {
        &&& self.counter == counter
        &&& self.start == details.initial_start
        &&& view_of(self.prev_state) == view_of(details.opaque_state)
        &&& self.quantity == details.quantity
        &&& self.expected_invoice_recurrence_basetime == details.basetime
    }
}

/// What the node is asked to pay.
#[derive(Clone, Debug)]
pub struct RecurrenceRequest {
    pub amount_msat: Option<u64>,
    pub params: RecurrencePaymentParams,
    pub optional: OptionalOfferPaymentParams,
}

/// What is to be done next.
#[derive(Clone, Copy, Debug, PartialEq, Eq, Structural)]
pub enum Stage {
    /// Store the record with the prepared attempt as a new one.
    RecordAttempt,
    /// Store the record of the payment.
    RecordPayment,
    /// Hand the request to the node.
    Submit,
    /// Store the record as it has become.
    RecordOutcome,
    /// Nothing: the identifiers are valid.
    Finished,
    /// Nothing: the attempt could not be recorded.
    Failed,
}

/// A payment of a recurrence on its way.
#[derive(Clone, Debug)]
pub struct Submission<P, F> {
    pub recurrence_id: RecurrenceId,
    pub payment_id: PaymentId,
    pub offer_id: OfferId,
    /// The amount of the attempt.
    pub amount_msat: u64,
    pub request: RecurrenceRequest,
    pub details: RecurrenceDetails<P, F>,
    pub stage: Stage,
}

/// What follows on a stage, when it went well or did not.
pub open spec fn next_stage(stage: Stage, ok: bool) -> Stage {
    match stage {
        Stage::RecordAttempt => if ok {
            Stage::RecordPayment
        } else {
            Stage::Failed
        },
        Stage::RecordPayment => if ok {
            Stage::Submit
        } else {
            Stage::RecordOutcome
        },
        Stage::Submit => Stage::RecordOutcome,
        Stage::RecordOutcome => Stage::Finished,
        Stage::Finished => Stage::Finished,
        Stage::Failed => Stage::Failed,
    }
}

impl<P, F> Submission<P, F> {
    /// The attempt once the node has taken the request.
    pub open spec fn submitted(self) -> RecurrenceAttempt {
        RecurrenceAttempt::Submitted {
            payment_id: self.payment_id,
            amount_msat: self.amount_msat,
        }
    }

    /// Whether a stage that went well, or did not, changes the record.
    pub open spec fn counts_change(self, ok: bool) -> bool {
        self.stage is Submit || (self.stage is RecordPayment && !ok)
    }

    /// The record after a stage: a payment that cannot be recorded or submitted needs attention, a
    /// submitted one is marked so, and nothing else changes it.
    pub open spec fn next_details(self, ok: bool) -> RecurrenceDetails<P, F> {
        match (self.stage, ok) {
            (Stage::RecordPayment, false) => self.details.with_status(
                RecurrenceStatus::RequiresAttention,
            ).changed(),
            (Stage::Submit, true) => self.details.with_attempt(self.submitted()).changed(),
            (Stage::Submit, false) => self.details.with_status(
                RecurrenceStatus::RequiresAttention,
            ).changed(),
            _ => self.details,
        }
    }

    /// The submission after a stage.
    pub open spec fn next(self, ok: bool) -> Self {
        Submission {
            stage: next_stage(self.stage, ok),
            details: self.next_details(ok),
            ..self
        }
    }

    /// The submission after as many stages as there are outcomes.
    pub open spec fn run(self, outcomes: Seq<bool>) -> Self
        decreases outcomes.len(),
    {
        if outcomes.len() == 0 {
            self
        } else {
            self.run(outcomes.drop_last()).next(outcomes.last())
        }
    }

    /// What the caller is answered, once nothing is left to do.
    pub open spec fn answer(self) -> Option<Result<(RecurrenceId, PaymentId), Error>> {
        match self.stage {
            Stage::Finished => Some(Ok((self.recurrence_id, self.payment_id))),
            Stage::Failed => Some(Err(Error::PersistenceFailed)),
            _ => None,
        }
    }

    /// The record to be kept of the payment.
    pub fn payment(&self) -> (r: PaymentDetails)
        ensures
            r == offer_payment(
                self.payment_id,
                self.offer_id,
                self.details.payer_note,
                self.details.quantity,
                self.amount_msat,
                PaymentStatus::Pending,
            ),
    {
        record_offer_payment(
            self.payment_id,
            self.offer_id,
            copy_note(&self.details.payer_note),
            self.details.quantity,
            self.amount_msat,
            PaymentStatus::Pending,
        )
    }

    /// Whether the record will change when it is noted how a stage went.
    pub fn changes_record(&self, ok: bool) -> (r: bool)
        ensures
            r == self.counts_change(ok),
    {
        self.stage == Stage::Submit || (self.stage == Stage::RecordPayment && !ok)
    }

    /// Takes note of how a stage went and moves on to the next.
    pub fn advance(&mut self, ok: bool)
        requires
            old(self).counts_change(ok) ==> old(self).details.can_change(),
        ensures
            *final(self) == old(self).next(ok),
    {
        match self.stage {
            Stage::RecordAttempt => {
                self.stage = if ok {
                    Stage::RecordPayment
                } else {
                    Stage::Failed
                };
            },
            Stage::RecordPayment => {
                if ok {
                    self.stage = Stage::Submit;
                } else {
                    self.details.status = RecurrenceStatus::RequiresAttention;
                    self.details.count_change();
                    self.stage = Stage::RecordOutcome;
                }
            },
            Stage::Submit => {
                if ok {
                    self.details.attempt = Some(
                        RecurrenceAttempt::Submitted {
                            payment_id: self.payment_id,
                            amount_msat: self.amount_msat,
                        },
                    );
                } else {
                    self.details.status = RecurrenceStatus::RequiresAttention;
                }
                self.details.count_change();
                self.stage = Stage::RecordOutcome;
            },
            Stage::RecordOutcome => {
                self.stage = Stage::Finished;
            },
            Stage::Finished => {},
            Stage::Failed => {},
        }
    }

    /// What the caller is answered, once nothing is left to do.
    pub fn result(&self) -> (r: Option<Result<(RecurrenceId, PaymentId), Error>>)
        ensures
            r == self.answer(),
    {
        match self.stage {
            Stage::Finished => Some(Ok((self.recurrence_id, self.payment_id))),
            Stage::Failed => Some(Err(Error::PersistenceFailed)),
            _ => None,
        }
    }
}

/// Four outcomes, one after the other.
proof fn lemma_run_of_four<P, F>(start: Submission<P, F>, outcomes: Seq<bool>)
    requires
        outcomes.len() <= 4,
    ensures
        outcomes.len() == 0 ==> start.run(outcomes) == start,
        outcomes.len() == 1 ==> start.run(outcomes) == start.next(outcomes[0]),
        outcomes.len() == 2 ==> start.run(outcomes) == start.next(outcomes[0]).next(outcomes[1]),
        outcomes.len() == 3 ==> start.run(outcomes) == start.next(outcomes[0]).next(
            outcomes[1],
        ).next(outcomes[2]),
        outcomes.len() == 4 ==> start.run(outcomes) == start.next(outcomes[0]).next(
            outcomes[1],
        ).next(outcomes[2]).next(outcomes[3]),
{
    reveal_with_fuel(Submission::run, 5);
    if outcomes.len() >= 2 {
        assert(outcomes.drop_last().last() == outcomes[outcomes.len() - 2]);
    }
    if outcomes.len() >= 3 {
        assert(outcomes.drop_last().drop_last().last() == outcomes[outcomes.len() - 3]);
    }
    if outcomes.len() >= 4 {
        assert(outcomes.drop_last().drop_last().drop_last().last() == outcomes[0]);
    }
}

/// A payment of a new recurrence comes to be submitted only if its attempt and its payment were
/// recorded before, whatever the outcomes are.
pub proof fn law_recorded_before_submitted<P, F>(start: Submission<P, F>, outcomes: Seq<bool>)
    requires
        start.stage is RecordAttempt,
        start.run(outcomes).stage is Submit,
    ensures
        outcomes == seq![true, true],
    decreases outcomes.len(),
{
    if outcomes.len() > 0 {
        let before = outcomes.drop_last();
        assert(start.run(before).stage is RecordPayment && outcomes.last());
        assert(before.len() > 0);
        let first = before.drop_last();
        assert(start.run(first).stage is RecordAttempt && before.last());
        lemma_only_the_start_records_the_attempt(start, first);
        assert(outcomes =~= seq![true, true]);
    }
}

/// Nothing leads back to recording the attempt.
proof fn lemma_only_the_start_records_the_attempt<P, F>(
    start: Submission<P, F>,
    outcomes: Seq<bool>,
)
    requires
        start.run(outcomes).stage is RecordAttempt,
    ensures
        outcomes.len() == 0,
{
}

/// Nothing leads back to recording the payment once it was recorded.
proof fn lemma_only_the_start_records_the_payment<P, F>(
    start: Submission<P, F>,
    outcomes: Seq<bool>,
)
    requires
        start.stage is RecordPayment,
        start.run(outcomes).stage is RecordPayment,
    ensures
        outcomes.len() == 0,
{
    if outcomes.len() > 0 {
        lemma_only_the_start_records_the_attempt(start, outcomes.drop_last());
    }
}

/// A payment of a claimed attempt comes to be submitted only if the payment was recorded before.
pub proof fn law_claimed_recorded_before_submitted<P, F>(
    start: Submission<P, F>,
    outcomes: Seq<bool>,
)
    requires
        start.stage is RecordPayment,
        start.run(outcomes).stage is Submit,
    ensures
        outcomes == seq![true],
{
    if outcomes.len() > 0 {
        let before = outcomes.drop_last();
        lemma_only_the_start_records_the_payment(start, before);
        assert(outcomes =~= seq![true]);
    }
}

/// Once the attempt of a new recurrence is recorded the caller gets its identifiers, even when
/// recording the payment or submitting it fails; when the attempt is not recorded the caller gets
/// an error and nothing was submitted.
pub proof fn law_identifiers_once_recorded<P, F>(start: Submission<P, F>, outcomes: Seq<bool>)
    requires
        start.stage is RecordAttempt,
        outcomes.len() == 4,
    ensures
        start.run(outcomes).answer() == Some(
            if outcomes[0] {
                Ok::<(RecurrenceId, PaymentId), Error>((start.recurrence_id, start.payment_id))
            } else {
                Err::<(RecurrenceId, PaymentId), Error>(Error::PersistenceFailed)
            },
        ),
{
    lemma_run_of_four(start, outcomes);
}

/// Once an attempt was claimed the caller gets the identifiers, whatever happens to the payment.
pub proof fn law_identifiers_once_claimed<P, F>(start: Submission<P, F>, outcomes: Seq<bool>)
    requires
        start.stage is RecordPayment,
        outcomes.len() == 3,
    ensures
        start.run(outcomes).answer() == Some(
            Ok::<(RecurrenceId, PaymentId), Error>((start.recurrence_id, start.payment_id)),
        ),
{
    lemma_run_of_four(start, outcomes);
}

/// What becomes of the record of a recorded attempt: the attempt is marked as submitted exactly if
/// the payment was recorded and the node took the request; otherwise the attempt stays as it was
/// and the recurrence needs attention. Either way exactly one change is counted, and nothing else
/// changes.
pub proof fn law_outcome_of_a_submission<P, F>(
    start: Submission<P, F>,
    recorded: bool,
    taken: bool,
    stored: bool,
)
    requires
        start.stage is RecordPayment,
    ensures
        start.run(seq![recorded, taken, stored]).details == (if recorded && taken {
            start.details.with_attempt(start.submitted()).changed()
        } else {
            start.details.with_status(RecurrenceStatus::RequiresAttention).changed()
        }),
{
    lemma_run_of_four(start, seq![recorded, taken, stored]);
}

} // verus!
