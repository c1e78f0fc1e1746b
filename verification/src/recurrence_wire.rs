//! How the persisted state of a recurring offer stands in storage.

use vstd::prelude::*;
use vstd::slice::slice_subrange;

use crate::error::WireError;
use crate::recurrence::{
    view_of, RecurrenceAttempt, RecurrenceAttemptView, RecurrenceCancellationState, RecurrenceId,
    RecurrenceRetryState, RecurrenceStatus,
};
use crate::tlv::{
    complete, fits, holds_fields, lemma_parsed_struct, lemma_struct_round_trip, parse_struct,
    read_struct, records_from, struct_bytes, table_view, write_struct, Layout, Schema, Table,
};
use crate::types::{used, PaymentId};
use crate::wire::{
    be_bytes, copy_array32, lemma_pow256, lemma_uint_round_trip, parse_array32, parse_uint, pow256,
    read_array32, read_uint, write_be,
};

verus! {

// Variants: a byte that tells them apart, then the fields of the variant.

/// The fields of a variant without any.
pub open spec fn empty_schema() -> Schema {
    Schema {
        first: 0,
        required: Seq::empty(),
        field: |i: int, s: Seq<u8>| Err(WireError::InvalidValue),
    }
}

/// Layout of a variant without fields.
pub struct EmptyLayout;

impl Layout for EmptyLayout {
    open spec fn schema(&self) -> Schema {
        empty_schema()
    }

    fn first(&self) -> (r: u64) {
        0
    }

    fn required(&self) -> (r: Vec<bool>) {
        Vec::new()
    }

    fn field(&self, i: usize, s: &[u8]) -> (r: Result<usize, WireError>) {
        Err(WireError::InvalidValue)
    }
}

/// A variant: its byte, then its fields.
pub open spec fn variant_bytes(id: u8, table: Table) -> Seq<u8> {
    seq![id] + struct_bytes(0, table)
}

/// Reads a variant of a type whose `count` variants have the even numbers from zero on.
pub open spec fn parse_variant(s: Seq<u8>, count: nat, schema: Schema) -> Result<
    ((u8, Table), int),
    WireError,
> {
    if s.len() == 0 {
        Err(WireError::ShortRead)
    } else if s[0] % 2 != 0 || s[0] >= 2 * count {
        Err(WireError::UnknownRequiredFeature)
    } else {
        match parse_struct(schema, s.skip(1)) {
            Err(e) => Err(e),
            Ok((table, n)) => Ok(((s[0], table), 1 + n)),
        }
    }
}

proof fn lemma_variant_round_trip(id: u8, table: Table, count: nat, schema: Schema, tail: Seq<u8>)
    requires
        id % 2 == 0,
        id < 2 * count,
        schema.first == 0,
        fits(schema, table),
    ensures
        parse_variant(variant_bytes(id, table) + tail, count, schema) == Ok::<
            ((u8, Table), int),
            WireError,
        >(((id, table), variant_bytes(id, table).len() as int)),
{
    let s = variant_bytes(id, table) + tail;
    assert(s.skip(1) =~= struct_bytes(0, table) + tail);
    lemma_struct_round_trip(schema, table, tail);
}

/// Reads a variant off the front of `s`.
fn read_variant<L: Layout>(layout: &L, count: u8, s: &[u8]) -> (r: Result<
    (u8, Vec<Option<Vec<u8>>>, usize),
    WireError,
>)
    requires
        count <= 100,
    ensures
        match r {
            Ok((id, table, n)) => parse_variant(s@, count as nat, layout.schema()) == Ok::<
                ((u8, Table), int),
                WireError,
            >(((id, table_view(table@)), n as int)) && n <= s@.len(),
            Err(e) => parse_variant(s@, count as nat, layout.schema()) == Err::<
                ((u8, Table), int),
                WireError,
            >(e),
        },
{
    if s.len() == 0 {
        return Err(WireError::ShortRead);
    }
    let id: u8 = s[0];
    if id % 2 != 0 || id >= 2 * count {
        return Err(WireError::UnknownRequiredFeature);
    }
    let rest = slice_subrange(s, 1, s.len());
    assert(rest@ =~= s@.skip(1));
    match read_struct(layout, rest) {
        Err(e) => Err(e),
        Ok((table, n)) => Ok((id, table, 1 + n)),
    }
}

/// The byte of a status.
pub open spec fn status_id(status: RecurrenceStatus) -> u8 {
    match status {
        RecurrenceStatus::Active => 0,
        RecurrenceStatus::CancellationPending => 2,
        RecurrenceStatus::Cancelled => 4,
        RecurrenceStatus::Completed => 6,
        RecurrenceStatus::Missed => 8,
        RecurrenceStatus::RequiresAttention => 10,
    }
}

/// The status that a byte tells.
pub open spec fn status_of(id: u8) -> RecurrenceStatus {
    if id == 0 {
        RecurrenceStatus::Active
    } else if id == 2 {
        RecurrenceStatus::CancellationPending
    } else if id == 4 {
        RecurrenceStatus::Cancelled
    } else if id == 6 {
        RecurrenceStatus::Completed
    } else if id == 8 {
        RecurrenceStatus::Missed
    } else {
        RecurrenceStatus::RequiresAttention
    }
}

/// A status in storage.
pub open spec fn status_bytes(status: RecurrenceStatus) -> Seq<u8> {
    variant_bytes(status_id(status), Seq::empty())
}

/// Reads a status.
pub open spec fn parse_status(s: Seq<u8>) -> Result<(RecurrenceStatus, int), WireError> {
    match parse_variant(s, 6, empty_schema()) {
        Err(e) => Err(e),
        Ok(((id, _), n)) => Ok((status_of(id), n)),
    }
}

/// A status that was written is read back as it was, whatever follows it.
pub proof fn law_status_round_trip(status: RecurrenceStatus, tail: Seq<u8>)
    ensures
        parse_status(status_bytes(status) + tail) == Ok::<(RecurrenceStatus, int), WireError>(
            (status, status_bytes(status).len() as int),
        ),
{
    lemma_variant_round_trip(status_id(status), Seq::empty(), 6, empty_schema(), tail);
}

impl RecurrenceStatus {
    /// Appends the status.
    pub fn write(&self, out: &mut Vec<u8>)
        ensures
            final(out)@ == old(out)@ + status_bytes(*self),
    {
        out.push(
            match self {
                RecurrenceStatus::Active => 0,
                RecurrenceStatus::CancellationPending => 2,
                RecurrenceStatus::Cancelled => 4,
                RecurrenceStatus::Completed => 6,
                RecurrenceStatus::Missed => 8,
                RecurrenceStatus::RequiresAttention => 10,
            },
        );
        let none: Vec<Option<Vec<u8>>> = Vec::new();
        assert(table_view(none@) =~= Seq::empty());
        write_struct(out, 0, &none);
        assert(out@ =~= old(out)@ + status_bytes(*self));
    }

    /// Reads a status off the front of `s`, and tells how many bytes it takes.
    pub fn read(s: &[u8]) -> (r: Result<(RecurrenceStatus, usize), WireError>)
        ensures
            match r {
                Ok((status, n)) => parse_status(s@) == Ok::<(RecurrenceStatus, int), WireError>(
                    (status, n as int),
                ) && n <= s@.len(),
                Err(e) => parse_status(s@) == Err::<(RecurrenceStatus, int), WireError>(e),
            },
    {
        match read_variant(&EmptyLayout, 6, s) {
            Err(e) => Err(e),
            Ok((id, _, n)) => {
                let status: RecurrenceStatus = match id {
                    0 => RecurrenceStatus::Active,
                    2 => RecurrenceStatus::CancellationPending,
                    4 => RecurrenceStatus::Cancelled,
                    6 => RecurrenceStatus::Completed,
                    8 => RecurrenceStatus::Missed,
                    _ => RecurrenceStatus::RequiresAttention,
                };
                Ok((status, n))
            },
        }
    }
}

/// The byte of a cancellation state.
pub open spec fn cancellation_id(state: RecurrenceCancellationState) -> u8 {
    match state {
        RecurrenceCancellationState::NotRequested => 0,
        RecurrenceCancellationState::Pending => 2,
        RecurrenceCancellationState::Cancelled => 4,
    }
}

/// The cancellation state that a byte tells.
pub open spec fn cancellation_of(id: u8) -> RecurrenceCancellationState {
    if id == 0 {
        RecurrenceCancellationState::NotRequested
    } else if id == 2 {
        RecurrenceCancellationState::Pending
    } else {
        RecurrenceCancellationState::Cancelled
    }
}

/// A cancellation state in storage.
pub open spec fn cancellation_bytes(state: RecurrenceCancellationState) -> Seq<u8> {
    variant_bytes(cancellation_id(state), Seq::empty())
}

/// Reads a cancellation state.
pub open spec fn parse_cancellation(s: Seq<u8>) -> Result<
    (RecurrenceCancellationState, int),
    WireError,
> {
    match parse_variant(s, 3, empty_schema()) {
        Err(e) => Err(e),
        Ok(((id, _), n)) => Ok((cancellation_of(id), n)),
    }
}

/// A cancellation state that was written is read back as it was, whatever follows it.
pub proof fn law_cancellation_round_trip(state: RecurrenceCancellationState, tail: Seq<u8>)
    ensures
        parse_cancellation(cancellation_bytes(state) + tail) == Ok::<
            (RecurrenceCancellationState, int),
            WireError,
        >((state, cancellation_bytes(state).len() as int)),
{
    lemma_variant_round_trip(cancellation_id(state), Seq::empty(), 3, empty_schema(), tail);
}

impl RecurrenceCancellationState {
    /// Appends the cancellation state.
    pub fn write(&self, out: &mut Vec<u8>)
        ensures
            final(out)@ == old(out)@ + cancellation_bytes(*self),
    {
        out.push(
            match self {
                RecurrenceCancellationState::NotRequested => 0,
                RecurrenceCancellationState::Pending => 2,
                RecurrenceCancellationState::Cancelled => 4,
            },
        );
        let none: Vec<Option<Vec<u8>>> = Vec::new();
        assert(table_view(none@) =~= Seq::empty());
        write_struct(out, 0, &none);
        assert(out@ =~= old(out)@ + cancellation_bytes(*self));
    }

    /// Reads a cancellation state off the front of `s`, and tells how many bytes it takes.
    pub fn read(s: &[u8]) -> (r: Result<(RecurrenceCancellationState, usize), WireError>)
        ensures
            match r {
                Ok((state, n)) => parse_cancellation(s@) == Ok::<
                    (RecurrenceCancellationState, int),
                    WireError,
                >((state, n as int)) && n <= s@.len(),
                Err(e) => parse_cancellation(s@) == Err::<
                    (RecurrenceCancellationState, int),
                    WireError,
                >(e),
            },
    {
        match read_variant(&EmptyLayout, 3, s) {
            Err(e) => Err(e),
            Ok((id, _, n)) => {
                let state: RecurrenceCancellationState = match id {
                    0 => RecurrenceCancellationState::NotRequested,
                    2 => RecurrenceCancellationState::Pending,
                    _ => RecurrenceCancellationState::Cancelled,
                };
                Ok((state, n))
            },
        }
    }
}

// Fields: the values that a table holds.

/// The number of `n` bytes in a field.
pub open spec fn uint_in(field: Option<Seq<u8>>, n: nat) -> Option<u64> {
    match field {
        Some(value) => Some(parse_uint(value, n)->Ok_0.0),
        None => None,
    }
}

/// A number as a field of `n` bytes.
pub open spec fn uint_field(v: Option<u64>, n: nat) -> Option<Seq<u8>> {
    match v {
        Some(v) => Some(be_bytes(v as nat, n)),
        None => None,
    }
}

pub proof fn lemma_uint_field(v: Option<u64>, n: nat)
    requires
        v is Some ==> v->0 < pow256(n),
    ensures
        uint_in(uint_field(v, n), n) == v,
        uint_field(v, n) matches Some(value) ==> used(parse_uint(value, n)) == Ok::<int, WireError>(
            value.len() as int,
        ) && value.len() == n,
{
    if let Some(v) = v {
        lemma_uint_round_trip(v, n, Seq::empty());
        assert(be_bytes(v as nat, n) + Seq::<u8>::empty() =~= be_bytes(v as nat, n));
    }
}

/// A number as a field of `n` bytes.
pub(crate) fn encode_uint(v: Option<u64>, n: usize) -> (r: Option<Vec<u8>>)
    ensures
        view_of(r) == uint_field(v, n as nat),
{
    match v {
        Some(v) => {
            let mut value: Vec<u8> = Vec::new();
            write_be(&mut value, v, n);
            assert(value@ =~= be_bytes(v as nat, n as nat));
            Some(value)
        },
        None => None,
    }
}

/// The number of `n` bytes in a field.
pub(crate) fn decode_uint(field: &Option<Vec<u8>>, n: usize) -> (r: Option<u64>)
    requires
        n <= 8,
        field matches Some(value) ==> used(parse_uint(value@, n as nat)) is Ok,
    ensures
        r == uint_in(view_of(*field), n as nat),
        r matches Some(v) ==> v < pow256(n as nat),
{
    match field {
        Some(value) => match read_uint(value.as_slice(), n) {
            Ok((v, _)) => Some(v),
            Err(_) => None,
        },
        None => None,
    }
}

// Retry state.

/// The fields of a retry state.
pub open spec fn retry_state_schema() -> Schema {
    Schema {
        first: 0,
        required: seq![true, false],
        field: |i: int, s: Seq<u8>|
            if i == 0 {
                used(parse_uint(s, 4))
            } else {
                used(parse_uint(s, 8))
            },
    }
}

/// Layout of a retry state.
pub struct RetryStateLayout;

impl Layout for RetryStateLayout {
    open spec fn schema(&self) -> Schema {
        retry_state_schema()
    }

    fn first(&self) -> (r: u64) {
        0
    }

    fn required(&self) -> (r: Vec<bool>) {
        let r: Vec<bool> = vec![true, false];
        assert(r@ =~= retry_state_schema().required);
        r
    }

    fn field(&self, i: usize, s: &[u8]) -> (r: Result<usize, WireError>) {
        match read_uint(s, if i == 0 { 4 } else { 8 }) {
            Ok((_, n)) => Ok(n),
            Err(e) => Err(e),
        }
    }
}

/// A retry state as a table of fields.
pub open spec fn retry_state_fields(state: RecurrenceRetryState) -> Table {
    seq![uint_field(Some(state.attempts as u64), 4), uint_field(state.next_retry_at, 8)]
}

/// The retry state that a table of fields stands for.
pub open spec fn retry_state_of(t: Table) -> RecurrenceRetryState {
    RecurrenceRetryState {
        attempts: uint_in(t[0], 4)->0 as u32,
        next_retry_at: uint_in(t[1], 8),
    }
}

/// A retry state in storage.
pub open spec fn retry_state_bytes(state: RecurrenceRetryState) -> Seq<u8> {
    struct_bytes(0, retry_state_fields(state))
}

/// Reads a retry state.
pub open spec fn parse_retry_state(s: Seq<u8>) -> Result<(RecurrenceRetryState, int), WireError> {
    match parse_struct(retry_state_schema(), s) {
        Err(e) => Err(e),
        Ok((table, n)) => Ok((retry_state_of(table), n)),
    }
}

/// A retry state that was written is read back as it was, whatever follows it.
pub proof fn law_retry_state_round_trip(state: RecurrenceRetryState, tail: Seq<u8>)
    ensures
        parse_retry_state(retry_state_bytes(state) + tail) == Ok::<
            (RecurrenceRetryState, int),
            WireError,
        >((state, retry_state_bytes(state).len() as int)),
{
    let schema = retry_state_schema();
    let t = retry_state_fields(state);
    lemma_pow256();
    lemma_uint_field(Some(state.attempts as u64), 4);
    lemma_uint_field(state.next_retry_at, 8);
    assert(records_from(0, t, 0).len() <= 16) by {
        reveal_with_fuel(records_from, 3);
    }
    assert(holds_fields(schema, t));
    assert(complete(schema, t));
    lemma_struct_round_trip(schema, t, tail);
}

impl RecurrenceRetryState {
    /// Appends the retry state.
    pub fn write(&self, out: &mut Vec<u8>)
        ensures
            final(out)@ == old(out)@ + retry_state_bytes(*self),
    {
        let fields: Vec<Option<Vec<u8>>> = vec![
            encode_uint(Some(self.attempts as u64), 4),
            encode_uint(self.next_retry_at, 8),
        ];
        assert(table_view(fields@) =~= retry_state_fields(*self));
        write_struct(out, 0, &fields);
    }

    /// Reads a retry state off the front of `s`, and tells how many bytes it takes.
    pub fn read(s: &[u8]) -> (r: Result<(RecurrenceRetryState, usize), WireError>)
        ensures
            match r {
                Ok((state, n)) => parse_retry_state(s@) == Ok::<
                    (RecurrenceRetryState, int),
                    WireError,
                >((state, n as int)) && n <= s@.len(),
                Err(e) => parse_retry_state(s@) == Err::<(RecurrenceRetryState, int), WireError>(e),
            },
    {
        match read_struct(&RetryStateLayout, s) {
            Err(e) => Err(e),
            Ok((fields, n)) => {
                let ghost t = table_view(fields@);
                proof {
                    lemma_parsed_struct(retry_state_schema(), s@);
                    assert(retry_state_schema().required[0]);
                    assert(t[0] == view_of(fields@[0]) && t[1] == view_of(fields@[1]));
                    lemma_pow256();
                }
                let attempts: u32 = match decode_uint(&fields[0], 4) {
                    Some(v) => v as u32,
                    None => 0,
                };
                let next_retry_at: Option<u64> = decode_uint(&fields[1], 8);
                Ok((RecurrenceRetryState { attempts, next_retry_at }, n))
            },
        }
    }
}

// Attempts.

/// The fields of an attempt.
pub open spec fn attempt_schema() -> Schema {
    Schema {
        first: 0,
        required: seq![true, true],
        field: |i: int, s: Seq<u8>|
            if i == 0 {
                used(parse_array32(s))
            } else {
                used(parse_uint(s, 8))
            },
    }
}

/// Layout of an attempt.
pub struct AttemptLayout;

impl Layout for AttemptLayout {
    open spec fn schema(&self) -> Schema {
        attempt_schema()
    }

    fn first(&self) -> (r: u64) {
        0
    }

    fn required(&self) -> (r: Vec<bool>) {
        let r: Vec<bool> = vec![true, true];
        assert(r@ =~= attempt_schema().required);
        r
    }

    fn field(&self, i: usize, s: &[u8]) -> (r: Result<usize, WireError>) {
        if i == 0 {
            match read_array32(s) {
                Ok((_, n)) => Ok(n),
                Err(e) => Err(e),
            }
        } else {
            match read_uint(s, 8) {
                Ok((_, n)) => Ok(n),
                Err(e) => Err(e),
            }
        }
    }
}

/// The byte of an attempt.
pub open spec fn attempt_id(attempt: RecurrenceAttemptView) -> u8 {
    match attempt {
        RecurrenceAttemptView::Prepared { .. } => 0,
        RecurrenceAttemptView::Submitted { .. } => 2,
    }
}

/// An attempt as a table of fields.
pub open spec fn attempt_fields(attempt: RecurrenceAttemptView) -> Table {
    match attempt {
        RecurrenceAttemptView::Prepared { payment_id, amount_msat } => seq![
            Some(payment_id),
            uint_field(Some(amount_msat), 8),
        ],
        RecurrenceAttemptView::Submitted { payment_id, amount_msat } => seq![
            Some(payment_id),
            uint_field(Some(amount_msat), 8),
        ],
    }
}

/// The attempt that a byte and a table of fields stand for.
pub open spec fn attempt_of(id: u8, t: Table) -> RecurrenceAttemptView {
    if id == 0 {
        RecurrenceAttemptView::Prepared { payment_id: t[0]->0, amount_msat: uint_in(t[1], 8)->0 }
    } else {
        RecurrenceAttemptView::Submitted { payment_id: t[0]->0, amount_msat: uint_in(t[1], 8)->0 }
    }
}

/// An attempt in storage.
pub open spec fn attempt_bytes(attempt: RecurrenceAttemptView) -> Seq<u8> {
    variant_bytes(attempt_id(attempt), attempt_fields(attempt))
}

/// Reads an attempt.
pub open spec fn parse_attempt(s: Seq<u8>) -> Result<(RecurrenceAttemptView, int), WireError> {
    match parse_variant(s, 2, attempt_schema()) {
        Err(e) => Err(e),
        Ok(((id, table), n)) => Ok((attempt_of(id, table), n)),
    }
}

/// An attempt that was written is read back as it was, whatever follows it.
pub proof fn law_attempt_round_trip(attempt: RecurrenceAttempt, tail: Seq<u8>)
    ensures
        parse_attempt(attempt_bytes(attempt@) + tail) == Ok::<
            (RecurrenceAttemptView, int),
            WireError,
        >((attempt@, attempt_bytes(attempt@).len() as int)),
{
    lemma_attempt_round_trip(attempt@, tail);
}

/// Whether an attempt's payment identifier has the length of one.
pub open spec fn attempt_wf(attempt: RecurrenceAttemptView) -> bool {
    match attempt {
        RecurrenceAttemptView::Prepared { payment_id, .. } => payment_id.len() == 32,
        RecurrenceAttemptView::Submitted { payment_id, .. } => payment_id.len() == 32,
    }
}

pub proof fn lemma_attempt_round_trip(attempt: RecurrenceAttemptView, tail: Seq<u8>)
    requires
        attempt_wf(attempt),
    ensures
        parse_attempt(attempt_bytes(attempt) + tail) == Ok::<
            (RecurrenceAttemptView, int),
            WireError,
        >((attempt, attempt_bytes(attempt).len() as int)),
{
    let schema = attempt_schema();
    let t = attempt_fields(attempt);
    lemma_pow256();
    lemma_uint_field(Some(attempt.amount()), 8);
    assert(t[0]->0.take(32) =~= t[0]->0);
    assert(records_from(0, t, 0).len() <= 60) by {
        reveal_with_fuel(records_from, 3);
    }
    assert(holds_fields(schema, t));
    assert(complete(schema, t));
    lemma_variant_round_trip(attempt_id(attempt), t, 2, schema, tail);
}

impl RecurrenceAttempt {
    /// Appends the attempt.
    pub fn write(&self, out: &mut Vec<u8>)
        ensures
            final(out)@ == old(out)@ + attempt_bytes(self@),
    {
        let (id, payment_id, amount_msat): (u8, PaymentId, u64) = match self {
            RecurrenceAttempt::Prepared { payment_id, amount_msat } => (0, *payment_id, *amount_msat),
            RecurrenceAttempt::Submitted { payment_id, amount_msat } => (2, *payment_id, *amount_msat),
        };
        out.push(id);
        let fields: Vec<Option<Vec<u8>>> = vec![
            Some(encode_array32(&payment_id.0)),
            encode_uint(Some(amount_msat), 8),
        ];
        assert(table_view(fields@) =~= attempt_fields(self@));
        write_struct(out, 0, &fields);
        assert(out@ =~= old(out)@ + attempt_bytes(self@));
    }

    /// Reads an attempt off the front of `s`, and tells how many bytes it takes.
    pub fn read(s: &[u8]) -> (r: Result<(RecurrenceAttempt, usize), WireError>)
        ensures
            match r {
                Ok((attempt, n)) => parse_attempt(s@) == Ok::<
                    (RecurrenceAttemptView, int),
                    WireError,
                >((attempt@, n as int)) && n <= s@.len(),
                Err(e) => parse_attempt(s@) == Err::<(RecurrenceAttemptView, int), WireError>(e),
            },
    {
        match read_variant(&AttemptLayout, 2, s) {
            Err(e) => Err(e),
            Ok((id, fields, n)) => {
                let ghost t = table_view(fields@);
                proof {
                    lemma_parsed_struct(attempt_schema(), s@.skip(1));
                    assert(attempt_schema().required[0] && attempt_schema().required[1]);
                    assert(t[0] == view_of(fields@[0]) && t[1] == view_of(fields@[1]));
                    lemma_pow256();
                }
                let payment_id: PaymentId = PaymentId(
                    match decode_array32(&fields[0]) {
                        Some(v) => v,
                        None => [0;32],
                    },
                );
                let amount_msat: u64 = match decode_uint(&fields[1], 8) {
                    Some(v) => v,
                    None => 0,
                };
                let attempt: RecurrenceAttempt = if id == 0 {
                    RecurrenceAttempt::Prepared { payment_id, amount_msat }
                } else {
                    RecurrenceAttempt::Submitted { payment_id, amount_msat }
                };
                assert(attempt@ == attempt_of(id, t));
                Ok((attempt, n))
            },
        }
    }
}

/// An identifier as a field.
pub(crate) fn encode_array32(v: &[u8; 32]) -> (r: Vec<u8>)
    ensures
        r@ == v@,
{
    vstd::slice::slice_to_vec(v.as_slice())
}

/// The identifier in a field.
pub(crate) fn decode_array32(field: &Option<Vec<u8>>) -> (r: Option<[u8; 32]>)
    requires
        field matches Some(value) ==> value@.len() == 32,
    ensures
        view_of(r) == view_of(*field),
{
    match field {
        Some(value) => {
            let r: [u8; 32] = copy_array32(value.as_slice());
            assert(r@ =~= value@);
            Some(r)
        },
        None => None,
    }
}

// Identifiers.

impl RecurrenceId {
    /// Appends the identifier.
    pub fn write(&self, out: &mut Vec<u8>)
        ensures
            final(out)@ == old(out)@ + self@,
    {
        out.extend_from_slice(self.0.as_slice());
        assert(out@ =~= old(out)@ + self@);
    }

    /// Reads an identifier off the front of `s`, and tells how many bytes it takes.
    pub fn read(s: &[u8]) -> (r: Result<(RecurrenceId, usize), WireError>)
        ensures
            match r {
                Ok((id, n)) => parse_array32(s@) == Ok::<(Seq<u8>, int), WireError>((id@, n as int))
                    && n == 32,
                Err(e) => parse_array32(s@) == Err::<(Seq<u8>, int), WireError>(e),
            },
    {
        match read_array32(s) {
            Err(e) => Err(e),
            Ok((v, n)) => Ok((RecurrenceId(v), n)),
        }
    }
}

/// An identifier that was written is read back as it was, whatever follows it.
pub proof fn law_recurrence_id_round_trip(id: RecurrenceId, tail: Seq<u8>)
    ensures
        parse_array32(id@ + tail) == Ok::<(Seq<u8>, int), WireError>((id@, id@.len() as int)),
{
    assert((id@ + tail).take(32) =~= id@);
}

} // verus!
