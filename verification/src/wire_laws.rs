//! How numbers, byte strings, records and identifiers stand on the wire, byte by byte.

use vstd::prelude::*;
use vstd::utf8::{decode_utf8, encode_utf8, valid_utf8};

use crate::error::WireError;
use crate::hex::{hex_text, hex_value, parse_hex_id};
use crate::recurrence::{
    RecurrenceAttemptView, RecurrenceCancellationState, RecurrenceId, RecurrenceRetryState,
    RecurrenceStateView, RecurrenceStatus,
};
use crate::recurrence_wire::{
    attempt_bytes, attempt_schema, cancellation_bytes, empty_schema, parse_attempt,
    parse_cancellation, parse_retry_state, parse_status, retry_state_bytes, retry_state_schema,
    status_bytes, uint_field,
};
use crate::state_wire::{
    parse_state, state_bytes, state_field, state_fields, state_of, state_schema,
};
use crate::text::{parse_text, text_bytes};
use crate::tlv::{
    parse_records, parse_struct, record_bytes, records_from, struct_bytes, Schema, Table,
};
use crate::types::{parse_retry, parse_route_parameters, retry_bytes, route_parameters_bytes, used};
use crate::wire::{
    be_bytes, be_value, bigsize_bytes, blob_bytes, bool_bytes, length_bytes,
    lemma_be_bytes_of_value, lemma_bigsize_canonical, lemma_bigsize_round_trip,
    lemma_blob_round_trip, lemma_pow256, parse_array32, parse_bigsize, parse_blob, parse_bool,
    parse_length, parse_uint,
};

verus! {

// Numbers.

/// Numbers are written with the most significant byte first.
pub proof fn law_numbers_are_big_endian(a: u8, b: u16, c: u32, d: u64)
    ensures
        be_bytes(a as nat, 1) == seq![a],
        ({
            let s = be_bytes(b as nat, 2);
            s.len() == 2 && s[0] * 0x100 + s[1] == b
        }),
        ({
            let s = be_bytes(c as nat, 4);
            s.len() == 4 && s[0] * 0x100_0000 + s[1] * 0x1_0000 + s[2] * 0x100 + s[3] == c
        }),
        ({
            let s = be_bytes(d as nat, 8);
            &&& s.len() == 8
            &&& s[0] * 0x100_0000_0000_0000 + s[1] * 0x1_0000_0000_0000 + s[2] * 0x100_0000_0000
                + s[3] * 0x1_0000_0000 + s[4] * 0x100_0000 + s[5] * 0x1_0000 + s[6] * 0x100 + s[7]
                == d
        }),
{
    reveal_with_fuel(be_bytes, 9);
    assert(be_bytes(a as nat, 1) =~= seq![a]);
}

/// Bytes are read as numbers with the most significant byte first.
pub proof fn law_numbers_are_read_big_endian(s: Seq<u8>)
    ensures
        s.len() == 1 ==> be_value(s) == s[0],
        s.len() == 2 ==> be_value(s) == s[0] * 0x100 + s[1],
        s.len() == 4 ==> be_value(s) == s[0] * 0x100_0000 + s[1] * 0x1_0000 + s[2] * 0x100 + s[3],
        s.len() == 8 ==> be_value(s) == s[0] * 0x100_0000_0000_0000 + s[1] * 0x1_0000_0000_0000
            + s[2] * 0x100_0000_0000 + s[3] * 0x1_0000_0000 + s[4] * 0x100_0000 + s[5] * 0x1_0000
            + s[6] * 0x100 + s[7],
{
    reveal_with_fuel(be_value, 9);
}

/// A number is read exactly if enough bytes are there, and is those bytes'.
pub proof fn law_numbers_are_read(s: Seq<u8>, n: nat)
    requires
        n == 1 || n == 2 || n == 4 || n == 8,
    ensures
        parse_uint(s, n) is Ok <==> s.len() >= n,
        parse_uint(s, n) matches Ok((v, k)) ==> k == n && be_bytes(v as nat, n) == s.take(
            n as int,
        ),
        parse_uint(s, n) matches Err(e) ==> e == WireError::ShortRead,
{
    if s.len() >= n {
        lemma_pow256();
        lemma_be_bytes_of_value(s.take(n as int));
    }
}

/// A variable-length integer is one byte below 0xFD; else a byte that tells how many follow, two,
/// four or eight, as few as will do.
pub proof fn law_variable_length_integers(v: u64)
    ensures
        ({
            let s = bigsize_bytes(v);
            &&& (v < 0xFD ==> s == seq![v as u8])
            &&& (0xFD <= v <= 0xFFFF ==> s == seq![0xFDu8] + be_bytes(v as nat, 2))
            &&& (0xFFFF < v <= 0xFFFF_FFFF ==> s == seq![0xFEu8] + be_bytes(v as nat, 4))
            &&& (0xFFFF_FFFF < v ==> s == seq![0xFFu8] + be_bytes(v as nat, 8))
        }),
{
    assert(v < 0xFD ==> bigsize_bytes(v) =~= seq![v as u8]) by {
        reveal_with_fuel(be_bytes, 1);
    }
}

/// A variable-length integer is read exactly from its own bytes, whatever follows them. Otherwise
/// there are too few bytes for what the first one tells, or a shorter form would have done.
pub proof fn law_variable_length_integers_are_read(s: Seq<u8>)
    ensures
        parse_bigsize(s) matches Ok((v, n)) ==> 1 <= n <= s.len() && s.take(n) == bigsize_bytes(v),
        forall|v: u64|
            bigsize_bytes(v).len() <= s.len() && s.take(bigsize_bytes(v).len() as int)
                == #[trigger] bigsize_bytes(v) ==> parse_bigsize(s) == Ok::<(u64, int), WireError>(
                (v, bigsize_bytes(v).len() as int),
            ),
        parse_bigsize(s) == Err::<(u64, int), WireError>(WireError::ShortRead) <==> s.len() == 0 || (
        s[0] == 0xFD && s.len() < 3) || (s[0] == 0xFE && s.len() < 5) || (s[0] == 0xFF && s.len()
            < 9),
        parse_bigsize(s) matches Err(e) ==> e == WireError::ShortRead || e
            == WireError::InvalidValue,
{
    lemma_bigsize_canonical(s);
    assert forall|v: u64|
        bigsize_bytes(v).len() <= s.len() && s.take(bigsize_bytes(v).len() as int)
            == #[trigger] bigsize_bytes(v) implies parse_bigsize(s) == Ok::<(u64, int), WireError>(
        (v, bigsize_bytes(v).len() as int),
    ) by {
        let n = bigsize_bytes(v).len() as int;
        lemma_bigsize_round_trip(v, s.skip(n));
        assert(s.take(n) + s.skip(n) =~= s);
    }
}

/// Truth values are one byte, and no other byte is one.
pub proof fn law_truth_values(v: bool, s: Seq<u8>)
    ensures
        bool_bytes(true) == seq![1u8],
        bool_bytes(false) == seq![0u8],
        parse_bool(s) == (if s.len() == 0 {
            Err::<(bool, int), WireError>(WireError::ShortRead)
        } else if s[0] == 0 {
            Ok((false, 1))
        } else if s[0] == 1 {
            Ok((true, 1))
        } else {
            Err(WireError::InvalidValue)
        }),
{
}

/// Identifiers are read as the 32 bytes they are.
pub proof fn law_identifiers_are_read(s: Seq<u8>)
    ensures
        parse_array32(s) == (if s.len() < 32 {
            Err::<(Seq<u8>, int), WireError>(WireError::ShortRead)
        } else {
            Ok((s.subrange(0, 32), 32))
        }),
{
}

// Byte strings and text.

/// A byte string stands behind its length, which takes two bytes below 0xFFFF; else it is 0xFFFF
/// and eight bytes for what is beyond.
pub proof fn law_byte_strings(b: Seq<u8>)
    requires
        b.len() <= u64::MAX,
    ensures
        b.len() < 0xFFFF ==> blob_bytes(b) == be_bytes(b.len(), 2) + b,
        b.len() >= 0xFFFF ==> blob_bytes(b) == seq![0xFFu8, 0xFFu8] + be_bytes(
            (b.len() - 0xFFFF) as nat,
            8,
        ) + b,
{
    assert(be_bytes(0xFFFF, 2) =~= seq![0xFFu8, 0xFFu8]) by {
        reveal_with_fuel(be_bytes, 3);
    }
}

/// A byte string is read exactly from its own bytes, whatever follows them.
pub proof fn law_byte_strings_are_read(s: Seq<u8>)
    ensures
        parse_blob(s) matches Ok((b, n)) ==> n <= s.len() && b.len() <= u64::MAX && s.take(n)
            == blob_bytes(b),
        forall|b: Seq<u8>|
            b.len() <= u64::MAX && blob_bytes(b).len() <= s.len() && s.take(
                blob_bytes(b).len() as int,
            ) == #[trigger] blob_bytes(b) ==> parse_blob(s) == Ok::<(Seq<u8>, int), WireError>(
                (b, blob_bytes(b).len() as int),
            ),
        parse_blob(s) matches Err(e) ==> e == WireError::ShortRead || e == WireError::InvalidValue,
{
    lemma_pow256();
    if let Ok((len, n)) = parse_length(s) {
        law_numbers_are_read(s, 2);
        if n == 2 {
            assert(s.take(n) =~= length_bytes(len));
        } else {
            law_numbers_are_read(s.skip(2), 8);
            lemma_be_bytes_of_value(s.take(2));
            lemma_be_bytes_of_value(s.skip(2).take(8));
            assert(s.take(n) =~= s.take(2) + s.skip(2).take(8));
            assert(s.take(n) =~= length_bytes(len));
        }
        if len <= s.len() - n {
            assert(s.take(n + len) =~= s.take(n) + s.subrange(n, n + len));
        }
    }
    assert forall|b: Seq<u8>|
        b.len() <= u64::MAX && blob_bytes(b).len() <= s.len() && s.take(blob_bytes(b).len() as int)
            == #[trigger] blob_bytes(b) implies parse_blob(s) == Ok::<(Seq<u8>, int), WireError>(
        (b, blob_bytes(b).len() as int),
    ) by {
        let n = blob_bytes(b).len() as int;
        lemma_blob_round_trip(b, s.skip(n));
        assert(s.take(n) + s.skip(n) =~= s);
    }
}

/// Text is the byte string of its UTF-8, and is read back only from valid UTF-8.
pub proof fn law_text_is_utf8(text: Seq<char>, s: Seq<u8>)
    ensures
        text_bytes(text) == blob_bytes(encode_utf8(text)),
        parse_text(s) is Ok <==> (parse_blob(s) matches Ok((b, _)) && valid_utf8(b)),
        parse_text(s) matches Ok((read, n)) ==> parse_blob(s) matches Ok((b, k)) && read
            == decode_utf8(b) && n == k,
        parse_blob(s) matches Ok((b, _)) && !valid_utf8(b) ==> parse_text(s) == Err::<
            (Seq<char>, int),
            WireError,
        >(WireError::InvalidValue),
        parse_blob(s) matches Err(e) ==> parse_text(s) == Err::<(Seq<char>, int), WireError>(e),
{
}

// Records.

/// A record of a type below 0xFD: the type, the length of the value, the value.
pub open spec fn record(typ: u8, value: Seq<u8>) -> Seq<u8> {
    seq![typ] + bigsize_bytes(value.len() as u64) + value
}

/// A record, if there is a value for it.
pub open spec fn record_if(typ: u8, value: Option<Seq<u8>>) -> Seq<u8> {
    match value {
        Some(value) => record(typ, value),
        None => Seq::empty(),
    }
}

/// The record of a number of eight bytes, if there is one.
pub open spec fn number_if(typ: u8, v: Option<u64>) -> Seq<u8> {
    match v {
        Some(v) => record(typ, be_bytes(v as nat, 8)),
        None => Seq::empty(),
    }
}

/// Records one after the other, behind their length.
pub open spec fn stream(records: Seq<Seq<u8>>) -> Seq<u8> {
    bigsize_bytes(records.flatten().len() as u64) + records.flatten()
}

/// The records of a table's fields from `i` on, one by one.
spec fn listed(table: Table, i: int) -> Seq<Seq<u8>> {
    Seq::new((table.len() - i) as nat, |j: int| record_if((2 * (i + j)) as u8, table[i + j]))
}

/// The fields of a table stand one after the other.
proof fn lemma_records_are_listed(table: Table, i: int)
    requires
        0 <= i <= table.len() < 100,
    ensures
        records_from(0, table, i) == listed(table, i).flatten(),
    decreases table.len() - i,
{
    if i < table.len() {
        lemma_records_are_listed(table, i + 1);
        let all = listed(table, i);
        assert(all.drop_first() =~= listed(table, i + 1));
        law_variable_length_integers((2 * i) as u64);
        if let Some(value) = table[i] {
            assert(record_bytes((2 * i) as u64, value) =~= record((2 * i) as u8, value));
        }
        assert(all.first() == record_if((2 * i) as u8, table[i]));
    }
}

/// A status is a byte of its own, and no fields.
pub proof fn law_statuses_on_the_wire(status: RecurrenceStatus)
    ensures
        status_bytes(status) == (match status {
            RecurrenceStatus::Active => seq![0u8, 0u8],
            RecurrenceStatus::CancellationPending => seq![2u8, 0u8],
            RecurrenceStatus::Cancelled => seq![4u8, 0u8],
            RecurrenceStatus::Completed => seq![6u8, 0u8],
            RecurrenceStatus::Missed => seq![8u8, 0u8],
            RecurrenceStatus::RequiresAttention => seq![10u8, 0u8],
        }),
{
    law_variable_length_integers(0);
    assert(struct_bytes(0, Seq::empty()) =~= seq![0u8]);
    assert(status_bytes(status) =~= seq![status_bytes(status)[0], 0u8]);
}

/// A cancellation state is a byte of its own, and no fields.
pub proof fn law_cancellations_on_the_wire(state: RecurrenceCancellationState)
    ensures
        cancellation_bytes(state) == (match state {
            RecurrenceCancellationState::NotRequested => seq![0u8, 0u8],
            RecurrenceCancellationState::Pending => seq![2u8, 0u8],
            RecurrenceCancellationState::Cancelled => seq![4u8, 0u8],
        }),
{
    law_variable_length_integers(0);
    assert(struct_bytes(0, Seq::empty()) =~= seq![0u8]);
    assert(cancellation_bytes(state) =~= seq![cancellation_bytes(state)[0], 0u8]);
}

/// A retry state is the number of attempts in four bytes, and when the next one is, if it is
/// planned, in eight.
pub proof fn law_retry_states_on_the_wire(state: RecurrenceRetryState)
    ensures
        retry_state_bytes(state) == stream(
            seq![
                record(0, be_bytes(state.attempts as nat, 4)),
                number_if(2, state.next_retry_at),
            ],
        ),
{
    let t = seq![uint_field(Some(state.attempts as u64), 4), uint_field(state.next_retry_at, 8)];
    assert(retry_state_bytes(state) == struct_bytes(0, t));
    lemma_records_are_listed(t, 0);
    assert(listed(t, 0) =~= seq![
        record(0, be_bytes(state.attempts as nat, 4)),
        number_if(2, state.next_retry_at),
    ]);
}

/// An attempt is a byte that says whether it was submitted, the identifier of its payment and its
/// amount.
pub proof fn law_attempts_on_the_wire(id: Seq<u8>, amount: u64)
    ensures
        attempt_bytes(RecurrenceAttemptView::Prepared { payment_id: id, amount_msat: amount })
            == seq![0u8] + stream(seq![record(0, id), record(2, be_bytes(amount as nat, 8))]),
        attempt_bytes(RecurrenceAttemptView::Submitted { payment_id: id, amount_msat: amount })
            == seq![2u8] + stream(seq![record(0, id), record(2, be_bytes(amount as nat, 8))]),
{
    let t = seq![Some(id), uint_field(Some(amount), 8)];
    lemma_records_are_listed(t, 0);
    assert(listed(t, 0) =~= seq![record(0, id), record(2, be_bytes(amount as nat, 8))]);
}

/// Persisted state is a stream of records, each of its own even type: all the fields, in this
/// order, and those that may be missing only if they are there.
pub proof fn law_state_on_the_wire(v: RecurrenceStateView)
    ensures
        state_bytes(v) == stream(
            seq![
                record(0, v.id),
                record(2, blob_bytes(v.original_offer)),
                number_if(4, v.amount_msat),
                number_if(6, v.maximum_amount_msat),
                number_if(8, v.quantity),
                match v.payer_note {
                    Some(note) => record(10, text_bytes(note)),
                    None => Seq::empty(),
                },
                match v.routing_override {
                    Some(route) => record(12, route_parameters_bytes(route)),
                    None => Seq::empty(),
                },
                record(14, retry_bytes(v.retry_policy)),
                record(16, retry_state_bytes(v.retry_state)),
                record(18, bool_bytes(v.pay_next_automatically)),
                number_if(20, Some(v.initial_start)),
                number_if(22, Some(v.paid_count)),
                number_if(24, Some(v.basetime)),
                match v.opaque_state {
                    Some(state) => record(26, blob_bytes(state)),
                    None => Seq::empty(),
                },
                record_if(28, v.last_successful_payment_id),
                match v.attempt {
                    Some(attempt) => record(30, attempt_bytes(attempt)),
                    None => Seq::empty(),
                },
                record(32, cancellation_bytes(v.cancellation)),
                number_if(34, Some(v.transition_id)),
                record(36, status_bytes(v.status)),
            ],
        ),
{
    let t = state_fields(v);
    lemma_records_are_listed(t, 0);
    assert(listed(t, 0) =~= seq![
        record(0, v.id),
        record(2, blob_bytes(v.original_offer)),
        number_if(4, v.amount_msat),
        number_if(6, v.maximum_amount_msat),
        number_if(8, v.quantity),
        match v.payer_note {
            Some(note) => record(10, text_bytes(note)),
            None => Seq::empty(),
        },
        match v.routing_override {
            Some(route) => record(12, route_parameters_bytes(route)),
            None => Seq::empty(),
        },
        record(14, retry_bytes(v.retry_policy)),
        record(16, retry_state_bytes(v.retry_state)),
        record(18, bool_bytes(v.pay_next_automatically)),
        number_if(20, Some(v.initial_start)),
        number_if(22, Some(v.paid_count)),
        number_if(24, Some(v.basetime)),
        match v.opaque_state {
            Some(state) => record(26, blob_bytes(state)),
            None => Seq::empty(),
        },
        record_if(28, v.last_successful_payment_id),
        match v.attempt {
            Some(attempt) => record(30, attempt_bytes(attempt)),
            None => Seq::empty(),
        },
        record(32, cancellation_bytes(v.cancellation)),
        number_if(34, Some(v.transition_id)),
        record(36, status_bytes(v.status)),
    ]);
}

// Reading records.

/// Whether a required field is passed over between two record types, or before the first or after
/// the last where there is no such record.
pub open spec fn passes_over(schema: Schema, last: Option<u64>, next: Option<u64>) -> bool {
    exists|i: int|
        0 <= i < schema.required.len() && #[trigger] schema.required[i] && (last is None || last->0
            < schema.first + 2 * i) && (next is None || schema.first + 2 * i < next->0)
}

/// Where no record is left, all that was read is the result, unless a required field is missing.
pub proof fn law_records_end(schema: Schema, last: Option<u64>, table: Table)
    ensures
        parse_records(schema, Seq::empty(), last, table) == (if passes_over(schema, last, None) {
            Err::<Table, WireError>(WireError::InvalidValue)
        } else {
            Ok(table)
        }),
{
    assert(schema.misses(last, None) == passes_over(schema, last, None));
}

/// A record is read exactly if its type is larger than those before it and no required field is
/// passed over. If it is a field, its value has to be one and fill the record, and is put into the
/// table; if it is not, it is passed over if its type is odd and refused if it is even. Then the
/// records behind it are read.
pub proof fn law_record_is_read(
    schema: Schema,
    typ: u64,
    value: Seq<u8>,
    more: Seq<u8>,
    last: Option<u64>,
    table: Table,
)
    requires
        value.len() <= u64::MAX,
    ensures
        ({
            let r = parse_records(schema, record_bytes(typ, value) + more, last, table);
            let known = typ >= schema.first && (typ - schema.first) % 2 == 0 && (typ - schema.first)
                / 2 < schema.required.len();
            let i = (typ - schema.first) / 2;
            let n = value.len() as int;
            if (last is Some && typ <= last->0) || passes_over(schema, last, Some(typ)) {
                r == Err::<Table, WireError>(WireError::InvalidValue)
            } else if known {
                match (schema.field)(i, value) {
                    Err(e) => r == Err::<Table, WireError>(e),
                    Ok(k) => if k == n {
                        r == parse_records(schema, more, Some(typ), table.update(i, Some(value)))
                    } else {
                        r == Err::<Table, WireError>(WireError::InvalidValue)
                    },
                }
            } else if typ % 2 == 0 {
                r == Err::<Table, WireError>(WireError::UnknownRequiredFeature)
            } else {
                r == parse_records(schema, more, Some(typ), table)
            }
        }),
{
    let len = value.len() as u64;
    let s = record_bytes(typ, value) + more;
    let after_type = bigsize_bytes(len) + (value + more);
    assert(s =~= bigsize_bytes(typ) + after_type);
    lemma_bigsize_round_trip(typ, after_type);
    lemma_bigsize_round_trip(len, value + more);
    let n = bigsize_bytes(typ).len() as int;
    let m = bigsize_bytes(len).len() as int;
    assert(s.skip(n) =~= after_type);
    let rest = s.skip(n).skip(m);
    assert(rest =~= value + more);
    assert(rest.take(len as int) =~= value);
    assert(rest.skip(len as int) =~= more);
    assert(schema.misses(last, Some(typ)) == passes_over(schema, last, Some(typ)));
}

/// A record that is not all there is not read: its value, as far as it is there, is no field, or it
/// ends too early.
pub proof fn law_cut_off_record_is_not_read(
    schema: Schema,
    typ: u64,
    len: u64,
    value: Seq<u8>,
    last: Option<u64>,
    table: Table,
)
    requires
        value.len() < len,
        !(last is Some && typ <= last->0),
        !passes_over(schema, last, Some(typ)),
    ensures
        ({
            let s = bigsize_bytes(typ) + bigsize_bytes(len) + value;
            let r = parse_records(schema, s, last, table);
            let known = typ >= schema.first && (typ - schema.first) % 2 == 0 && (typ - schema.first)
                / 2 < schema.required.len();
            if known {
                match (schema.field)((typ - schema.first) / 2, value) {
                    Err(e) => r == Err::<Table, WireError>(e),
                    Ok(_) => r == Err::<Table, WireError>(WireError::ShortRead),
                }
            } else if typ % 2 == 0 {
                r == Err::<Table, WireError>(WireError::UnknownRequiredFeature)
            } else {
                r == Err::<Table, WireError>(WireError::ShortRead)
            }
        }),
{
    let s = bigsize_bytes(typ) + bigsize_bytes(len) + value;
    let after_type = bigsize_bytes(len) + value;
    assert(s =~= bigsize_bytes(typ) + after_type);
    lemma_bigsize_round_trip(typ, after_type);
    lemma_bigsize_round_trip(len, value);
    let n = bigsize_bytes(typ).len() as int;
    let m = bigsize_bytes(len).len() as int;
    assert(s.skip(n) =~= after_type);
    assert(s.skip(n).skip(m) =~= value);
    assert(schema.misses(last, Some(typ)) == passes_over(schema, last, Some(typ)));
}

/// Bytes that do not begin with a type, or that have no length behind it, are not records.
pub proof fn law_broken_records_are_not_read(
    schema: Schema,
    s: Seq<u8>,
    last: Option<u64>,
    table: Table,
)
    requires
        s.len() > 0,
    ensures
        parse_bigsize(s) matches Err(e) ==> parse_records(schema, s, last, table) == Err::<
            Table,
            WireError,
        >(e),
        match parse_bigsize(s) {
            Err(_) => true,
            Ok((typ, n)) => !(last is Some && typ <= last->0) && !passes_over(
                schema,
                last,
                Some(typ),
            ) ==> match parse_bigsize(s.skip(n)) {
                Err(e) => parse_records(schema, s, last, table) == Err::<Table, WireError>(e),
                Ok(_) => true,
            },
        },
{
    if let Ok((typ, n)) = parse_bigsize(s) {
        assert(schema.misses(last, Some(typ)) == passes_over(schema, last, Some(typ)));
    }
}

/// What a reader used is the number of bytes it says, or its error.
pub proof fn law_what_was_used<T>(v: T, n: int, e: WireError)
    ensures
        used(Ok::<(T, int), WireError>((v, n))) == Ok::<int, WireError>(n),
        used(Err::<(T, int), WireError>(e)) == Err::<int, WireError>(e),
{
}

/// A structure is read exactly from its length and as many bytes of records; what follows them is
/// not looked at.
pub proof fn law_structure_is_read(schema: Schema, records: Seq<u8>, tail: Seq<u8>)
    requires
        records.len() <= u64::MAX,
    ensures
        ({
            let front = bigsize_bytes(records.len() as u64);
            parse_struct(schema, front + records + tail) == (match parse_records(
                schema,
                records,
                None,
                Seq::new(schema.required.len(), |i: int| None),
            ) {
                Ok(table) => Ok::<(Table, int), WireError>((table, (front + records).len() as int)),
                Err(e) => Err(e),
            })
        }),
{
    reveal(parse_struct);
    let len = records.len() as u64;
    let front = bigsize_bytes(len);
    let s = front + records + tail;
    assert(s =~= front + (records + tail));
    lemma_bigsize_round_trip(len, records + tail);
    assert(s.skip(front.len() as int) =~= records + tail);
    assert(s.skip(front.len() as int).take(len as int) =~= records);
    assert(schema.no_fields() =~= Seq::new(schema.required.len(), |i: int| None));
}

/// No structure is read from less than all of it: cut off anywhere, what was read before is not
/// read any more.
pub proof fn law_cut_off_structures_are_not_read(schema: Schema, s: Seq<u8>, n: int)
    requires
        parse_struct(schema, s) is Ok,
        0 <= n < parse_struct(schema, s)->Ok_0.1,
    ensures
        parse_struct(schema, s)->Ok_0.1 <= s.len(),
        parse_struct(schema, s.take(n)) is Err,
{
    reveal(parse_struct);
    let cut = s.take(n);
    lemma_bigsize_canonical(s);
    if let Ok((len, k)) = parse_bigsize(s) {
        lemma_bigsize_canonical(cut);
        if let Ok((len2, k2)) = parse_bigsize(cut) {
            assert(cut[0] == s[0]);
            assert(cut.take(k2) =~= s.take(k2));
            lemma_bigsize_round_trip(len2, s.skip(k2));
            assert(s.take(k2) + s.skip(k2) =~= s);
            assert(len == len2 && k == k2);
        }
    }
}

// Reading persisted state.

/// The fields of persisted state have the even record types from zero on. Amounts, quantity, note,
/// routes, what the payee handed out, the last payment and the attempt may be missing; every other
/// field has to be there.
pub proof fn law_fields_of_state()
    ensures
        state_schema().first == 0,
        state_schema().required.len() == 19,
        forall|i: int|
            0 <= i < 19 ==> (#[trigger] state_schema().required[i] <==> !(2 <= i <= 6 || 13 <= i
                <= 15)),
        forall|i: int, s: Seq<u8>|
            #[trigger] (state_schema().field)(i, s) == state_field(i, s),
        retry_state_schema().first == 0 && retry_state_schema().required == seq![true, false],
        attempt_schema().first == 0 && attempt_schema().required == seq![true, true],
        empty_schema().first == 0 && empty_schema().required.len() == 0,
{
}

/// How the fields of persisted state are told from their bytes: identifiers by 32 of them, numbers
/// by eight, the others by their own forms.
pub proof fn law_forms_of_fields(i: int, s: Seq<u8>)
    requires
        0 <= i < 19,
    ensures
        i == 0 || i == 14 ==> state_field(i, s) == used(parse_array32(s)),
        i == 1 || i == 13 ==> state_field(i, s) == used(parse_blob(s)),
        i == 5 ==> state_field(i, s) == used(parse_text(s)),
        i == 6 ==> state_field(i, s) == used(parse_route_parameters(s)),
        i == 7 ==> state_field(i, s) == used(parse_retry(s)),
        i == 8 ==> state_field(i, s) == used(parse_retry_state(s)),
        i == 9 ==> state_field(i, s) == used(parse_bool(s)),
        i == 15 ==> state_field(i, s) == used(parse_attempt(s)),
        i == 16 ==> state_field(i, s) == used(parse_cancellation(s)),
        i == 18 ==> state_field(i, s) == used(parse_status(s)),
        2 <= i <= 4 || 10 <= i <= 12 || i == 17 ==> state_field(i, s) == used(parse_uint(s, 8)),
        used(parse_uint(s, 8)) == (if s.len() >= 8 {
            Ok::<int, WireError>(8)
        } else {
            Err(WireError::ShortRead)
        }),
{
}

/// What is read as persisted state says what its fields say, each of them.
pub proof fn law_state_says_what_its_fields_say(t: Table)
    requires
        t.len() == 19,
        forall|i: int|
            0 <= i < 19 && !(2 <= i <= 6 || 13 <= i <= 15) ==> #[trigger] t[i] is Some,
    ensures
        ({
            let v = state_of(t);
            &&& v.id == t[0]->0
            &&& v.original_offer == parse_blob(t[1]->0)->Ok_0.0
            &&& (v.amount_msat is Some <==> t[2] is Some)
            &&& (t[2] is Some ==> v.amount_msat->0 == parse_uint(t[2]->0, 8)->Ok_0.0)
            &&& (v.maximum_amount_msat is Some <==> t[3] is Some)
            &&& (t[3] is Some ==> v.maximum_amount_msat->0 == parse_uint(t[3]->0, 8)->Ok_0.0)
            &&& (v.quantity is Some <==> t[4] is Some)
            &&& (t[4] is Some ==> v.quantity->0 == parse_uint(t[4]->0, 8)->Ok_0.0)
            &&& (v.payer_note is Some <==> t[5] is Some)
            &&& (t[5] is Some ==> v.payer_note->0 == parse_text(t[5]->0)->Ok_0.0)
            &&& (v.routing_override is Some <==> t[6] is Some)
            &&& (t[6] is Some ==> v.routing_override->0 == parse_route_parameters(
                t[6]->0,
            )->Ok_0.0)
            &&& v.retry_policy == parse_retry(t[7]->0)->Ok_0.0
            &&& v.retry_state == parse_retry_state(t[8]->0)->Ok_0.0
            &&& v.pay_next_automatically == parse_bool(t[9]->0)->Ok_0.0
            &&& v.initial_start == parse_uint(t[10]->0, 8)->Ok_0.0
            &&& v.paid_count == parse_uint(t[11]->0, 8)->Ok_0.0
            &&& v.basetime == parse_uint(t[12]->0, 8)->Ok_0.0
            &&& (v.opaque_state is Some <==> t[13] is Some)
            &&& (t[13] is Some ==> v.opaque_state->0 == parse_blob(t[13]->0)->Ok_0.0)
            &&& v.last_successful_payment_id == t[14]
            &&& (v.attempt is Some <==> t[15] is Some)
            &&& (t[15] is Some ==> v.attempt->0 == parse_attempt(t[15]->0)->Ok_0.0)
            &&& v.cancellation == parse_cancellation(t[16]->0)->Ok_0.0
            &&& v.transition_id == parse_uint(t[17]->0, 8)->Ok_0.0
            &&& v.status == parse_status(t[18]->0)->Ok_0.0
        }),
{
}

/// Persisted state is read exactly from the records of a valid one.
pub proof fn law_state_is_read_from_its_records(s: Seq<u8>)
    ensures
        parse_state(s) is Ok <==> (parse_struct(state_schema(), s) matches Ok((t, _)) && state_of(
            t,
        ).valid()),
        parse_state(s) matches Ok((v, n)) ==> parse_struct(state_schema(), s) matches Ok((t, k))
            && v == state_of(t) && n == k,
        parse_struct(state_schema(), s) matches Err(e) ==> parse_state(s) == Err::<
            (RecurrenceStateView, int),
            WireError,
        >(e),
        parse_struct(state_schema(), s) matches Ok((t, _)) && !state_of(t).valid() ==> parse_state(s)
            == Err::<(RecurrenceStateView, int), WireError>(WireError::InvalidValue),
{
}

/// A status is read from its own byte and a structure without fields; other bytes are refused.
pub proof fn law_statuses_are_read(s: Seq<u8>)
    ensures
        s.len() == 0 ==> parse_status(s) == Err::<(RecurrenceStatus, int), WireError>(
            WireError::ShortRead,
        ),
        s.len() > 0 && !(s[0] == 0 || s[0] == 2 || s[0] == 4 || s[0] == 6 || s[0] == 8 || s[0]
            == 10) ==> parse_status(s) == Err::<(RecurrenceStatus, int), WireError>(
            WireError::UnknownRequiredFeature,
        ),
        s.len() > 0 && (s[0] == 0 || s[0] == 2 || s[0] == 4 || s[0] == 6 || s[0] == 8 || s[0] == 10)
            ==> match (parse_status(s), parse_struct(empty_schema(), s.skip(1))) {
            (Err(e), Err(f)) => e == f,
            (Ok((status, n)), Ok((_, k))) => n == 1 + k && match status {
                RecurrenceStatus::Active => s[0] == 0,
                RecurrenceStatus::CancellationPending => s[0] == 2,
                RecurrenceStatus::Cancelled => s[0] == 4,
                RecurrenceStatus::Completed => s[0] == 6,
                RecurrenceStatus::Missed => s[0] == 8,
                RecurrenceStatus::RequiresAttention => s[0] == 10,
            },
            _ => false,
        },
{
}

/// A cancellation state is read from its own byte and a structure without fields; other bytes are
/// refused.
pub proof fn law_cancellations_are_read(s: Seq<u8>)
    ensures
        s.len() == 0 ==> parse_cancellation(s) == Err::<
            (RecurrenceCancellationState, int),
            WireError,
        >(WireError::ShortRead),
        s.len() > 0 && !(s[0] == 0 || s[0] == 2 || s[0] == 4) ==> parse_cancellation(s) == Err::<
            (RecurrenceCancellationState, int),
            WireError,
        >(WireError::UnknownRequiredFeature),
        s.len() > 0 && (s[0] == 0 || s[0] == 2 || s[0] == 4) ==> match (
            parse_cancellation(s),
            parse_struct(empty_schema(), s.skip(1)),
        ) {
            (Err(e), Err(f)) => e == f,
            (Ok((state, n)), Ok((_, k))) => n == 1 + k && match state {
                RecurrenceCancellationState::NotRequested => s[0] == 0,
                RecurrenceCancellationState::Pending => s[0] == 2,
                RecurrenceCancellationState::Cancelled => s[0] == 4,
            },
            _ => false,
        },
{
}

/// A retry state is read from its fields: the attempts from four bytes, when the next one is from
/// eight, if that field is there.
pub proof fn law_retry_states_are_read(s: Seq<u8>)
    ensures
        match (parse_retry_state(s), parse_struct(retry_state_schema(), s)) {
            (Err(e), Err(f)) => e == f,
            (Ok((state, n)), Ok((t, k))) => {
                &&& n == k
                &&& (t[0] is Some ==> state.attempts == parse_uint(t[0]->0, 4)->Ok_0.0 as u32)
                &&& (state.next_retry_at is Some <==> t[1] is Some)
                &&& (t[1] is Some ==> state.next_retry_at->0 == parse_uint(t[1]->0, 8)->Ok_0.0)
            },
            _ => false,
        },
        (retry_state_schema().field)(0, s) == used(parse_uint(s, 4)),
        (retry_state_schema().field)(1, s) == used(parse_uint(s, 8)),
{
}

/// An attempt is read from a byte that says whether it was submitted, and its fields: the payment
/// from 32 bytes, the amount from eight.
pub proof fn law_attempts_are_read(s: Seq<u8>)
    ensures
        s.len() == 0 ==> parse_attempt(s) == Err::<(RecurrenceAttemptView, int), WireError>(
            WireError::ShortRead,
        ),
        s.len() > 0 && s[0] != 0 && s[0] != 2 ==> parse_attempt(s) == Err::<
            (RecurrenceAttemptView, int),
            WireError,
        >(WireError::UnknownRequiredFeature),
        s.len() > 0 && (s[0] == 0 || s[0] == 2) ==> match (
            parse_attempt(s),
            parse_struct(attempt_schema(), s.skip(1)),
        ) {
            (Err(e), Err(f)) => e == f,
            (Ok((attempt, n)), Ok((t, k))) => {
                &&& n == 1 + k
                &&& (t[0] is Some && t[1] is Some ==> match attempt {
                    RecurrenceAttemptView::Prepared { payment_id, amount_msat } => s[0] == 0
                        && payment_id == t[0]->0 && amount_msat == parse_uint(t[1]->0, 8)->Ok_0.0,
                    RecurrenceAttemptView::Submitted { payment_id, amount_msat } => s[0] == 2
                        && payment_id == t[0]->0 && amount_msat == parse_uint(t[1]->0, 8)->Ok_0.0,
                })
            },
            _ => false,
        },
        (attempt_schema().field)(0, s) == used(parse_array32(s)),
        (attempt_schema().field)(1, s) == used(parse_uint(s, 8)),
{
}

// Identifiers as text.

/// The text of an identifier has two lower-case hexadecimal digits for each byte, the high one
/// first.
pub proof fn law_identifiers_as_text(id: RecurrenceId, i: int)
    requires
        0 <= i < 32,
    ensures
        hex_text(id@).len() == 64,
        ({
            let high = id@[i] as int / 16;
            let low = id@[i] as int % 16;
            &&& hex_text(id@)[2 * i] as int == (if high < 10 {
                48 + high
            } else {
                87 + high
            })
            &&& hex_text(id@)[2 * i + 1] as int == (if low < 10 {
                48 + low
            } else {
                87 + low
            })
        }),
{
}

/// Text names an identifier exactly if it is 64 hexadecimal digits, of either case.
pub proof fn law_text_that_names_an_identifier(text: Seq<char>)
    ensures
        parse_hex_id(text) is Some <==> text.len() == 64 && (forall|i: int|
            0 <= i < 64 ==> ('0' <= #[trigger] text[i] <= '9' || 'a' <= text[i] <= 'f' || 'A'
                <= text[i] <= 'F')),
        parse_hex_id(text) is Some ==> parse_hex_id(text)->0.len() == 32,
{
    if parse_hex_id(text) is Some {
        assert forall|i: int| 0 <= i < 64 implies ('0' <= #[trigger] text[i] <= '9' || 'a' <= text[i]
            <= 'f' || 'A' <= text[i] <= 'F') by {
            assert(hex_value(text[i]) is Some);
        }
    }
    if text.len() == 64 && (forall|i: int|
        0 <= i < 64 ==> ('0' <= #[trigger] text[i] <= '9' || 'a' <= text[i] <= 'f' || 'A' <= text[i]
            <= 'F')) {
        assert forall|i: int| 0 <= i < text.len() implies hex_value(#[trigger] text[i]) is Some by {}
    }
}

/// The identifier that text names has that text, but that its digits are lower-case.
pub proof fn law_text_names_the_identifier_it_is_the_text_of(text: Seq<char>, i: int)
    requires
        parse_hex_id(text) is Some,
        0 <= i < 64,
    ensures
        hex_text(parse_hex_id(text)->0)[i] as int == (if 'A' <= text[i] <= 'F' {
            text[i] as int + 32
        } else {
            text[i] as int
        }),
{
    let k = i / 2;
    assert(hex_value(text[2 * k]) is Some);
    assert(hex_value(text[2 * k + 1]) is Some);
    let high = hex_value(text[2 * k])->0;
    let low = hex_value(text[2 * k + 1])->0;
    assert(parse_hex_id(text)->0[k] == 16 * high + low);
    assert((16 * high + low) / 16 == high && (16 * high + low) % 16 == low);
    assert(i == 2 * k || i == 2 * k + 1);
}

} // verus!
