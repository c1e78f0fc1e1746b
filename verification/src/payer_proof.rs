//! Proofs that a payment was made, and how much of the invoice they disclose.

use vstd::prelude::*;
use vstd::seq_lib::lemma_seq_concat_contains_all_elements;

use crate::bolt12::Bolt12Payment;
use crate::error::Error;
use crate::types::PaymentId;

verus! {

/// Options controlling which optional fields are disclosed in a payer proof.
///
/// A payer proof always commits to the payer id, the payment hash, and the issuer signing pubkey,
/// and additionally discloses the invoice features whenever the invoice carries any. Everything
/// else is disclosed only if requested here.
#[derive(Clone, Debug, PartialEq, Eq)]
pub struct PayerProofOptions {
    /// An optional note to attach to the payer proof itself.
    pub note: Option<String>,
    /// Whether to disclose the offer description.
    pub include_offer_description: bool,
    /// Whether to disclose the offer issuer.
    pub include_offer_issuer: bool,
    /// Whether to disclose the invoice amount.
    pub include_invoice_amount: bool,
    /// Whether to disclose the invoice creation timestamp.
    pub include_invoice_created_at: bool,
    /// Additional TLV types to disclose, for fields not covered by the flags above.
    pub extra_tlv_types: Vec<u64>,
}

impl Default for PayerProofOptions {
    /// Nothing is disclosed.
    fn default() -> (r: Self)
        ensures
            r.note is None,
            !r.include_offer_description,
            !r.include_offer_issuer,
            !r.include_invoice_amount,
            !r.include_invoice_created_at,
            r.extra_tlv_types@ == Seq::<u64>::empty(),
    {
        PayerProofOptions {
            note: None,
            include_offer_description: false,
            include_offer_issuer: false,
            include_invoice_amount: false,
            include_invoice_created_at: false,
            extra_tlv_types: Vec::new(),
        }
    }
}

/// One thing that the builder of a proof is told.
#[derive(Clone, Debug)]
pub enum ProofStep {
    /// Disclose the field of a TLV type; the builder refuses types that must not be disclosed.
    IncludeType(u64),
    IncludeOfferDescription,
    IncludeOfferIssuer,
    IncludeInvoiceAmount,
    IncludeInvoiceCreatedAt,
    /// Attach a note.
    Note(String),
}

/// How a proof is built: the builder is told these steps in their order, up to the first that it
/// refuses.
#[derive(Clone, Debug)]
pub struct ProofPlan {
    /// The payment that is proved.
    pub payment_id: PaymentId,
    pub steps: Vec<ProofStep>,
}

/// A step, if it is asked for.
pub open spec fn step_if(asked: bool, step: ProofStep) -> Seq<ProofStep> {
    if asked {
        seq![step]
    } else {
        Seq::empty()
    }
}

/// The steps that disclose fields by their types.
pub open spec fn type_steps(types: Seq<u64>) -> Seq<ProofStep> {
    Seq::new(types.len(), |i: int| ProofStep::IncludeType(types[i]))
}

/// The step that attaches a note, if there is one.
pub open spec fn note_step(note: Option<String>) -> Seq<ProofStep> {
    match note {
        Some(text) => seq![ProofStep::Note(text)],
        None => Seq::empty(),
    }
}

/// The steps that the options ask for.
pub open spec fn proof_steps(options: PayerProofOptions) -> Seq<ProofStep> {
    type_steps(options.extra_tlv_types@) + step_if(
        options.include_offer_description,
        ProofStep::IncludeOfferDescription,
    ) + step_if(options.include_offer_issuer, ProofStep::IncludeOfferIssuer) + step_if(
        options.include_invoice_amount,
        ProofStep::IncludeInvoiceAmount,
    ) + step_if(options.include_invoice_created_at, ProofStep::IncludeInvoiceCreatedAt) + note_step(
        options.note,
    )
}

impl ProofPlan {
    /// Takes the proof, if every step was accepted and it could be built and signed.
    pub fn built<T>(self, proved: Option<T>) -> (r: Result<T, Error>)
        ensures
            r == (match proved {
                Some(proved) => Ok(proved),
                None => Err(Error::PayerProofCreationFailed),
            }),
    {
        match proved {
            Some(proved) => Ok(proved),
            None => Err(Error::PayerProofCreationFailed),
        }
    }
}

impl Bolt12Payment {
    /// Plans a payer proof for a payment this node made.
    ///
    /// A payer proof lets the payer demonstrate to a third party that they paid a particular
    /// invoice, disclosing only the invoice fields they choose to reveal via
    /// [`PayerProofOptions`].
    pub fn create_payer_proof(&self, payment_id: PaymentId, options: Option<PayerProofOptions>) -> (r:
        ProofPlan)
        ensures
            r.payment_id == payment_id,
            r.steps@ == (match options {
                Some(options) => proof_steps(options),
                None => Seq::empty(),
            }),
    {
        let given = options.is_some();
        let options = match options {
            Some(options) => options,
            None => PayerProofOptions::default(),
        };
        let mut steps: Vec<ProofStep> = Vec::new();
        let mut i: usize = 0;
        while i < options.extra_tlv_types.len()
            invariant
                i <= options.extra_tlv_types.len(),
                steps@ == type_steps(options.extra_tlv_types@.take(i as int)),
            decreases options.extra_tlv_types.len() - i,
        {
            steps.push(ProofStep::IncludeType(options.extra_tlv_types[i]));
            i = i + 1;
            assert(steps@ =~= type_steps(options.extra_tlv_types@.take(i as int)));
        }
        assert(options.extra_tlv_types@.take(i as int) =~= options.extra_tlv_types@);
        if options.include_offer_description {
            steps.push(ProofStep::IncludeOfferDescription);
        }
        if options.include_offer_issuer {
            steps.push(ProofStep::IncludeOfferIssuer);
        }
        if options.include_invoice_amount {
            steps.push(ProofStep::IncludeInvoiceAmount);
        }
        if options.include_invoice_created_at {
            steps.push(ProofStep::IncludeInvoiceCreatedAt);
        }
        let ghost asked = proof_steps(options);
        if let Some(note) = options.note {
            steps.push(ProofStep::Note(note));
        }
        assert(steps@ =~= asked);
        assert(!given ==> asked =~= Seq::empty());
        ProofPlan { payment_id, steps }
    }
}

/// A field is disclosed, and a note attached, exactly if the options ask for it.
pub proof fn law_disclosed_if_asked(options: PayerProofOptions, typ: u64, note: String)
    ensures
        proof_steps(options).contains(ProofStep::IncludeOfferDescription)
            <==> options.include_offer_description,
        proof_steps(options).contains(ProofStep::IncludeOfferIssuer)
            <==> options.include_offer_issuer,
        proof_steps(options).contains(ProofStep::IncludeInvoiceAmount)
            <==> options.include_invoice_amount,
        proof_steps(options).contains(ProofStep::IncludeInvoiceCreatedAt)
            <==> options.include_invoice_created_at,
        proof_steps(options).contains(ProofStep::IncludeType(typ))
            <==> options.extra_tlv_types@.contains(typ),
        proof_steps(options).contains(ProofStep::Note(note)) <==> options.note == Some(note),
{
    lemma_steps_contain(options, ProofStep::IncludeOfferDescription);
    lemma_steps_contain(options, ProofStep::IncludeOfferIssuer);
    lemma_steps_contain(options, ProofStep::IncludeInvoiceAmount);
    lemma_steps_contain(options, ProofStep::IncludeInvoiceCreatedAt);
    lemma_steps_contain(options, ProofStep::IncludeType(typ));
    lemma_steps_contain(options, ProofStep::Note(note));
}

/// The steps are those of the types, of the flags and of the note.
proof fn lemma_steps_contain(options: PayerProofOptions, step: ProofStep)
    ensures
        proof_steps(options).contains(step) <==> match step {
            ProofStep::IncludeType(typ) => options.extra_tlv_types@.contains(typ),
            ProofStep::IncludeOfferDescription => options.include_offer_description,
            ProofStep::IncludeOfferIssuer => options.include_offer_issuer,
            ProofStep::IncludeInvoiceAmount => options.include_invoice_amount,
            ProofStep::IncludeInvoiceCreatedAt => options.include_invoice_created_at,
            ProofStep::Note(note) => options.note == Some(note),
        },
{
    let types = type_steps(options.extra_tlv_types@);
    let a = step_if(options.include_offer_description, ProofStep::IncludeOfferDescription);
    let b = step_if(options.include_offer_issuer, ProofStep::IncludeOfferIssuer);
    let c = step_if(options.include_invoice_amount, ProofStep::IncludeInvoiceAmount);
    let d = step_if(options.include_invoice_created_at, ProofStep::IncludeInvoiceCreatedAt);
    let e = note_step(options.note);
    lemma_seq_concat_contains_all_elements(types + a + b + c + d, e, step);
    lemma_seq_concat_contains_all_elements(types + a + b + c, d, step);
    lemma_seq_concat_contains_all_elements(types + a + b, c, step);
    lemma_seq_concat_contains_all_elements(types + a, b, step);
    lemma_seq_concat_contains_all_elements(types, a, step);
    lemma_step_if(options.include_offer_description, ProofStep::IncludeOfferDescription, step);
    lemma_step_if(options.include_offer_issuer, ProofStep::IncludeOfferIssuer, step);
    lemma_step_if(options.include_invoice_amount, ProofStep::IncludeInvoiceAmount, step);
    lemma_step_if(options.include_invoice_created_at, ProofStep::IncludeInvoiceCreatedAt, step);
    if let Some(text) = options.note {
        lemma_step_if(true, ProofStep::Note(text), step);
    }
    lemma_type_steps(options.extra_tlv_types@, step);
}

/// A step that is asked for is the only one.
proof fn lemma_step_if(asked: bool, step: ProofStep, other: ProofStep)
    ensures
        step_if(asked, step).contains(other) <==> asked && step == other,
{
    if asked {
        assert(step_if(asked, step)[0] == step);
    }
}

/// The types are disclosed by steps of their own, and those disclose nothing else.
proof fn lemma_type_steps(types: Seq<u64>, step: ProofStep)
    ensures
        type_steps(types).contains(step) <==> match step {
            ProofStep::IncludeType(typ) => types.contains(typ),
            _ => false,
        },
{
    if let ProofStep::IncludeType(typ) = step {
        if types.contains(typ) {
            let i = choose|i: int| 0 <= i < types.len() && types[i] == typ;
            assert(type_steps(types)[i] == step);
        }
        if type_steps(types).contains(step) {
            let i = choose|i: int| 0 <= i < types.len() && type_steps(types)[i] == step;
            assert(types[i] == typ);
        }
    }
}

/// Options that ask for nothing, which are also those of a proof without options, disclose nothing.
pub proof fn law_nothing_disclosed_by_default(options: PayerProofOptions)
    requires
        options.note is None,
        !options.include_offer_description,
        !options.include_offer_issuer,
        !options.include_invoice_amount,
        !options.include_invoice_created_at,
        options.extra_tlv_types@ == Seq::<u64>::empty(),
    ensures
        proof_steps(options) == Seq::<ProofStep>::empty(),
{
    assert(proof_steps(options) =~= Seq::<ProofStep>::empty());
}

} // verus!
