//! The record that holds the persisted state of a recurring offer.

use vstd::prelude::*;

use crate::bindings::{encode_retry, encode_route_parameters, read_retry, read_route_parameters};
use crate::error::WireError;
use crate::recurrence::{
    view_of, RecurrenceAttempt, RecurrenceCancellationState, RecurrenceId, RecurrenceRetryState,
    RecurrenceState, RecurrenceStateView, RecurrenceStatus,
};
use crate::recurrence_wire::{
    attempt_bytes, attempt_wf, cancellation_bytes, decode_array32, decode_uint, encode_array32,
    encode_uint, law_cancellation_round_trip, law_retry_state_round_trip, law_status_round_trip,
    lemma_attempt_round_trip, lemma_uint_field, parse_attempt, parse_cancellation,
    parse_retry_state, parse_status, retry_state_bytes, status_bytes, uint_field, uint_in,
};
use crate::text::{lemma_text_round_trip, parse_text, read_text, text_bytes, write_text};
use crate::tlv::{
    complete, fits, holds_fields, lemma_parsed_struct, lemma_records_cover, lemma_struct_round_trip,
    parse_struct, read_struct, struct_bytes, table_view, write_struct, Layout, Schema, Table,
};
use crate::types::{
    lemma_retry_round_trip, lemma_route_parameters_round_trip, parse_retry, parse_route_parameters,
    retry_bytes, route_parameters_bytes, used, PaymentId, Retry, RouteParameters,
};
use crate::wire::{
    blob_bytes, bool_bytes, lemma_blob_round_trip, lemma_pow256, parse_array32, parse_blob,
    parse_bool, parse_uint, read_array32, read_blob, read_bool, read_uint, write_blob,
};

verus! {

/// The fields of persisted state. Field `i` has the record type `2 * i`.
pub open spec fn state_schema() -> Schema {
    Schema {
        first: 0,
        required: seq![
            true,  // id
            true,  // original_offer
            false,  // amount_msat
            false,  // maximum_amount_msat
            false,  // quantity
            false,  // payer_note
            false,  // routing_override
            true,  // retry_policy
            true,  // retry_state
            true,  // pay_next_automatically
            true,  // initial_start
            true,  // paid_count
            true,  // basetime
            false,  // opaque_state
            false,  // last_successful_payment_id
            false,  // attempt
            true,  // cancellation
            true,  // transition_id
            true,  // status
        ],
        field: |i: int, s: Seq<u8>| state_field(i, s),
    }
}

/// How many bytes of `s` field `i` of persisted state takes for its value.
pub open spec fn state_field(i: int, s: Seq<u8>) -> Result<int, WireError> {
    if i == 0 || i == 14 {
        used(parse_array32(s))
    } else if i == 1 || i == 13 {
        used(parse_blob(s))
    } else if i == 5 {
        used(parse_text(s))
    } else if i == 6 {
        used(parse_route_parameters(s))
    } else if i == 7 {
        used(parse_retry(s))
    } else if i == 8 {
        used(parse_retry_state(s))
    } else if i == 9 {
        used(parse_bool(s))
    } else if i == 15 {
        used(parse_attempt(s))
    } else if i == 16 {
        used(parse_cancellation(s))
    } else if i == 18 {
        used(parse_status(s))
    } else {
        used(parse_uint(s, 8))
    }
}

/// The number of bytes that a reader used, or its error.
fn used_by<T>(r: Result<(T, usize), WireError>) -> (n: Result<usize, WireError>)
    ensures
        match r {
            Ok((_, k)) => n == Ok::<usize, WireError>(k),
            Err(e) => n == Err::<usize, WireError>(e),
        },
{
    match r {
        Ok((_, k)) => Ok(k),
        Err(e) => Err(e),
    }
}

/// Layout of persisted state.
pub struct StateLayout;

impl Layout for StateLayout {
    open spec fn schema(&self) -> Schema {
        state_schema()
    }

    fn first(&self) -> (r: u64) {
        0
    }

    fn required(&self) -> (r: Vec<bool>) {
        let r: Vec<bool> = vec![
            true, true, false, false, false, false, false, true, true, true, true, true, true, false,
            false, false, true, true, true,
        ];
        assert(r@ =~= state_schema().required);
        r
    }

    fn field(&self, i: usize, s: &[u8]) -> (r: Result<usize, WireError>) {
        if i == 0 || i == 14 {
            used_by(read_array32(s))
        } else if i == 1 || i == 13 {
            used_by(read_blob(s))
        } else if i == 5 {
            used_by(read_text(s))
        } else if i == 6 {
            used_by(read_route_parameters(s))
        } else if i == 7 {
            used_by(read_retry(s))
        } else if i == 8 {
            used_by(RecurrenceRetryState::read(s))
        } else if i == 9 {
            used_by(read_bool(s))
        } else if i == 15 {
            used_by(RecurrenceAttempt::read(s))
        } else if i == 16 {
            used_by(RecurrenceCancellationState::read(s))
        } else if i == 18 {
            used_by(RecurrenceStatus::read(s))
        } else {
            used_by(read_uint(s, 8))
        }
    }
}

/// Persisted state as a table of fields.
pub open spec fn state_fields(v: RecurrenceStateView) -> Table {
    seq![
        Some(v.id),
        Some(blob_bytes(v.original_offer)),
        uint_field(v.amount_msat, 8),
        uint_field(v.maximum_amount_msat, 8),
        uint_field(v.quantity, 8),
        match v.payer_note {
            Some(note) => Some(text_bytes(note)),
            None => None,
        },
        match v.routing_override {
            Some(p) => Some(route_parameters_bytes(p)),
            None => None,
        },
        Some(retry_bytes(v.retry_policy)),
        Some(retry_state_bytes(v.retry_state)),
        Some(bool_bytes(v.pay_next_automatically)),
        uint_field(Some(v.initial_start), 8),
        uint_field(Some(v.paid_count), 8),
        uint_field(Some(v.basetime), 8),
        match v.opaque_state {
            Some(state) => Some(blob_bytes(state)),
            None => None,
        },
        v.last_successful_payment_id,
        match v.attempt {
            Some(attempt) => Some(attempt_bytes(attempt)),
            None => None,
        },
        Some(cancellation_bytes(v.cancellation)),
        uint_field(Some(v.transition_id), 8),
        Some(status_bytes(v.status)),
    ]
}

/// The persisted state that a table of fields stands for.
pub open spec fn state_of(t: Table) -> RecurrenceStateView {
    RecurrenceStateView {
        id: t[0]->0,
        original_offer: parse_blob(t[1]->0)->Ok_0.0,
        amount_msat: uint_in(t[2], 8),
        maximum_amount_msat: uint_in(t[3], 8),
        quantity: uint_in(t[4], 8),
        payer_note: match t[5] {
            Some(value) => Some(parse_text(value)->Ok_0.0),
            None => None,
        },
        routing_override: match t[6] {
            Some(value) => Some(parse_route_parameters(value)->Ok_0.0),
            None => None,
        },
        retry_policy: parse_retry(t[7]->0)->Ok_0.0,
        retry_state: parse_retry_state(t[8]->0)->Ok_0.0,
        pay_next_automatically: parse_bool(t[9]->0)->Ok_0.0,
        initial_start: uint_in(t[10], 8)->0,
        paid_count: uint_in(t[11], 8)->0,
        basetime: uint_in(t[12], 8)->0,
        opaque_state: match t[13] {
            Some(value) => Some(parse_blob(value)->Ok_0.0),
            None => None,
        },
        last_successful_payment_id: t[14],
        attempt: match t[15] {
            Some(value) => Some(parse_attempt(value)->Ok_0.0),
            None => None,
        },
        cancellation: parse_cancellation(t[16]->0)->Ok_0.0,
        transition_id: uint_in(t[17], 8)->0,
        status: parse_status(t[18]->0)->Ok_0.0,
    }
}

/// Persisted state in storage.
pub open spec fn state_bytes(v: RecurrenceStateView) -> Seq<u8> {
    struct_bytes(0, state_fields(v))
}

/// Reads persisted state, which has to keep its invariants.
pub open spec fn parse_state(s: Seq<u8>) -> Result<(RecurrenceStateView, int), WireError> {
    match parse_struct(state_schema(), s) {
        Err(e) => Err(e),
        Ok((table, n)) => if state_of(table).valid() {
            Ok((state_of(table), n))
        } else {
            Err(WireError::InvalidValue)
        },
    }
}

/// Whether state is one that a program can hold and storage can express: identifiers have 32 bytes,
/// a retry timeout is well-formed, and the length of the record is a 64-bit number.
pub open spec fn storable(v: RecurrenceStateView) -> bool {
    &&& v.id.len() == 32
    &&& (v.last_successful_payment_id matches Some(id) ==> id.len() == 32)
    &&& (v.attempt matches Some(attempt) ==> attempt_wf(attempt))
    &&& v.retry_policy.wf()
    &&& state_bytes(v).len() <= u64::MAX
}

proof fn lemma_exact<T>(
    parse: spec_fn(Seq<u8>) -> Result<(T, int), WireError>,
    bytes: Seq<u8>,
    v: T,
)
    requires
        parse(bytes + Seq::<u8>::empty()) == Ok::<(T, int), WireError>((v, bytes.len() as int)),
    ensures
        parse(bytes) == Ok::<(T, int), WireError>((v, bytes.len() as int)),
{
    assert(bytes + Seq::<u8>::empty() =~= bytes);
}

/// Field `i` of a state's table fills its record when read.
proof fn lemma_state_field(v: RecurrenceStateView, i: int)
    requires
        storable(v),
        0 <= i < 19,
        state_fields(v)[i] is Some,
    ensures
        ({
            let value = state_fields(v)[i]->0;
            let whole = Ok::<int, WireError>(value.len() as int);
            &&& state_field(i, value) == whole
            &&& (i == 1 ==> parse_blob(value)->Ok_0.0 == v.original_offer)
            &&& (i == 5 ==> parse_text(value)->Ok_0.0 == v.payer_note->0)
            &&& (i == 6 ==> parse_route_parameters(value)->Ok_0.0 == v.routing_override->0)
            &&& (i == 7 ==> parse_retry(value)->Ok_0.0 == v.retry_policy)
            &&& (i == 8 ==> parse_retry_state(value)->Ok_0.0 == v.retry_state)
            &&& (i == 9 ==> parse_bool(value)->Ok_0.0 == v.pay_next_automatically)
            &&& (i == 13 ==> parse_blob(value)->Ok_0.0 == v.opaque_state->0)
            &&& (i == 15 ==> parse_attempt(value)->Ok_0.0 == v.attempt->0)
            &&& (i == 16 ==> parse_cancellation(value)->Ok_0.0 == v.cancellation)
            &&& (i == 18 ==> parse_status(value)->Ok_0.0 == v.status)
        }),
{
    let t = state_fields(v);
    let none = Seq::<u8>::empty();
    let value = t[i]->0;
    lemma_records_cover(0, t, 0, i);
    if i == 0 || i == 14 {
        assert(value.take(32) =~= value);
    } else if i == 1 {
        lemma_blob_round_trip(v.original_offer, none);
        lemma_exact(|s: Seq<u8>| parse_blob(s), value, v.original_offer);
    } else if i == 5 {
        lemma_text_round_trip(v.payer_note->0, none);
        lemma_exact(|s: Seq<u8>| parse_text(s), value, v.payer_note->0);
    } else if i == 6 {
        lemma_route_parameters_round_trip(v.routing_override->0, none);
        lemma_exact(|s: Seq<u8>| parse_route_parameters(s), value, v.routing_override->0);
    } else if i == 7 {
        lemma_retry_round_trip(v.retry_policy, none);
        lemma_exact(|s: Seq<u8>| parse_retry(s), value, v.retry_policy);
    } else if i == 8 {
        law_retry_state_round_trip(v.retry_state, none);
        lemma_exact(|s: Seq<u8>| parse_retry_state(s), value, v.retry_state);
    } else if i == 9 {
    } else if i == 13 {
        lemma_blob_round_trip(v.opaque_state->0, none);
        lemma_exact(|s: Seq<u8>| parse_blob(s), value, v.opaque_state->0);
    } else if i == 15 {
        lemma_attempt_round_trip(v.attempt->0, none);
        lemma_exact(|s: Seq<u8>| parse_attempt(s), value, v.attempt->0);
    } else if i == 16 {
        law_cancellation_round_trip(v.cancellation, none);
        lemma_exact(|s: Seq<u8>| parse_cancellation(s), value, v.cancellation);
    } else if i == 18 {
        law_status_round_trip(v.status, none);
        lemma_exact(|s: Seq<u8>| parse_status(s), value, v.status);
    } else {
        lemma_pow256();
        lemma_uint_field(v.amount_msat, 8);
        lemma_uint_field(v.maximum_amount_msat, 8);
        lemma_uint_field(v.quantity, 8);
        lemma_uint_field(Some(v.initial_start), 8);
        lemma_uint_field(Some(v.paid_count), 8);
        lemma_uint_field(Some(v.basetime), 8);
        lemma_uint_field(Some(v.transition_id), 8);
    }
}

proof fn lemma_state_fields(v: RecurrenceStateView)
    requires
        storable(v),
    ensures
        fits(state_schema(), state_fields(v)),
        state_of(state_fields(v)) == v,
{
    assert(holds_fields(state_schema(), state_fields(v))) by {
        let t = state_fields(v);
        assert forall|i: int| #![trigger t[i]] 0 <= i < t.len() implies match t[i] {
            Some(value) => (state_schema().field)(i, value) == Ok::<int, WireError>(
                value.len() as int,
            ),
            None => true,
        } by {
            if t[i] is Some {
                lemma_state_field(v, i);
            }
        }
    }
    lemma_state_complete(v);
    lemma_state_of_fields(v);
}

proof fn lemma_state_complete(v: RecurrenceStateView)
    ensures
        complete(state_schema(), state_fields(v)),
{
}

proof fn lemma_state_of_fields(v: RecurrenceStateView)
    requires
        storable(v),
    ensures
        state_of(state_fields(v)) == v,
{
    let t = state_fields(v);
    assert forall|i: int| #![trigger t[i]] 0 <= i < 19 && t[i] is Some implies {
        let value = t[i]->0;
        &&& (i == 1 ==> parse_blob(value)->Ok_0.0 == v.original_offer)
        &&& (i == 5 ==> parse_text(value)->Ok_0.0 == v.payer_note->0)
        &&& (i == 6 ==> parse_route_parameters(value)->Ok_0.0 == v.routing_override->0)
        &&& (i == 7 ==> parse_retry(value)->Ok_0.0 == v.retry_policy)
        &&& (i == 8 ==> parse_retry_state(value)->Ok_0.0 == v.retry_state)
        &&& (i == 9 ==> parse_bool(value)->Ok_0.0 == v.pay_next_automatically)
        &&& (i == 13 ==> parse_blob(value)->Ok_0.0 == v.opaque_state->0)
        &&& (i == 15 ==> parse_attempt(value)->Ok_0.0 == v.attempt->0)
        &&& (i == 16 ==> parse_cancellation(value)->Ok_0.0 == v.cancellation)
        &&& (i == 18 ==> parse_status(value)->Ok_0.0 == v.status)
    } by {
        lemma_state_field(v, i);
    }
    lemma_pow256();
    lemma_uint_field(v.amount_msat, 8);
    lemma_uint_field(v.maximum_amount_msat, 8);
    lemma_uint_field(v.quantity, 8);
    lemma_uint_field(Some(v.initial_start), 8);
    lemma_uint_field(Some(v.paid_count), 8);
    lemma_uint_field(Some(v.basetime), 8);
    lemma_uint_field(Some(v.transition_id), 8);
    assert(state_of(t) =~= v);
}

/// Reading gives back what writing wrote: valid state comes back as it was, whatever follows it in
/// storage, and state that breaks an invariant is refused.
pub proof fn law_state_round_trip(v: RecurrenceStateView, tail: Seq<u8>)
    requires
        storable(v),
    ensures
        parse_state(state_bytes(v) + tail) == (if v.valid() {
            Ok((v, state_bytes(v).len() as int))
        } else {
            Err(WireError::InvalidValue)
        }),
{
    lemma_state_fields(v);
    lemma_struct_round_trip(state_schema(), state_fields(v), tail);
}

/// Different states are stored differently.
pub proof fn law_state_bytes_tell_states_apart(v: RecurrenceStateView, w: RecurrenceStateView)
    requires
        storable(v),
        storable(w),
        state_bytes(v) == state_bytes(w),
    ensures
        v == w,
{
    lemma_state_fields(v);
    lemma_state_fields(w);
    lemma_struct_round_trip(state_schema(), state_fields(v), Seq::empty());
    lemma_struct_round_trip(state_schema(), state_fields(w), Seq::empty());
}

/// Nothing that breaks an invariant is ever read.
pub proof fn law_read_state_is_valid(s: Seq<u8>)
    ensures
        parse_state(s) matches Ok((v, _)) ==> v.valid(),
{
}

/// A byte string as the value of a field.
fn encode_blob(b: &Vec<u8>) -> (r: Vec<u8>)
    ensures
        r@ == blob_bytes(b@),
{
    let mut r: Vec<u8> = Vec::new();
    write_blob(&mut r, b.as_slice());
    assert(r@ =~= blob_bytes(b@));
    r
}

/// Text as the value of a field.
fn encode_text(text: &String) -> (r: Vec<u8>)
    ensures
        r@ == text_bytes(text@),
{
    let mut r: Vec<u8> = Vec::new();
    write_text(&mut r, text);
    assert(r@ =~= text_bytes(text@));
    r
}

/// A truth value as the value of a field.
fn encode_bool(v: bool) -> (r: Vec<u8>)
    ensures
        r@ == bool_bytes(v),
{
    let r: Vec<u8> = vec![if v { 1 } else { 0 }];
    assert(r@ =~= bool_bytes(v));
    r
}

impl RecurrenceState {
    /// The state as fields.
    fn fields(&self) -> (r: Vec<Option<Vec<u8>>>)
        requires
            self.retry_policy.wf(),
        ensures
            table_view(r@) == state_fields(self@),
    {
        let payer_note: Option<Vec<u8>> = match &self.payer_note {
            Some(note) => Some(encode_text(note)),
            None => None,
        };
        let routing_override: Option<Vec<u8>> = match &self.routing_override {
            Some(p) => Some(encode_route_parameters(p)),
            None => None,
        };
        let opaque_state: Option<Vec<u8>> = match &self.opaque_state {
            Some(state) => Some(encode_blob(state)),
            None => None,
        };
        let last_successful_payment_id: Option<Vec<u8>> = match &self.last_successful_payment_id {
            Some(id) => Some(encode_array32(&id.0)),
            None => None,
        };
        let attempt: Option<Vec<u8>> = match &self.attempt {
            Some(attempt) => {
                let mut value: Vec<u8> = Vec::new();
                attempt.write(&mut value);
                assert(value@ =~= attempt_bytes(attempt@));
                Some(value)
            },
            None => None,
        };
        let mut retry_state: Vec<u8> = Vec::new();
        self.retry_state.write(&mut retry_state);
        assert(retry_state@ =~= retry_state_bytes(self.retry_state));
        let mut cancellation: Vec<u8> = Vec::new();
        self.cancellation.write(&mut cancellation);
        assert(cancellation@ =~= cancellation_bytes(self.cancellation));
        let mut status: Vec<u8> = Vec::new();
        self.status.write(&mut status);
        assert(status@ =~= status_bytes(self.status));
        let r: Vec<Option<Vec<u8>>> = vec![
            Some(encode_array32(&self.id.0)),
            Some(encode_blob(&self.original_offer)),
            encode_uint(self.amount_msat, 8),
            encode_uint(self.maximum_amount_msat, 8),
            encode_uint(self.quantity, 8),
            payer_note,
            routing_override,
            Some(encode_retry(&self.retry_policy)),
            Some(retry_state),
            Some(encode_bool(self.pay_next_automatically)),
            encode_uint(Some(self.initial_start), 8),
            encode_uint(Some(self.paid_count), 8),
            encode_uint(Some(self.basetime), 8),
            opaque_state,
            last_successful_payment_id,
            attempt,
            Some(cancellation),
            encode_uint(Some(self.transition_id), 8),
            Some(status),
        ];
        assert(table_view(r@) =~= state_fields(self@));
        r
    }

    /// Appends the state, as a length and the records of its fields.
    pub fn write(&self, out: &mut Vec<u8>)
        requires
            self.retry_policy.wf(),
        ensures
            final(out)@ == old(out)@ + state_bytes(self@),
    {
        let fields = self.fields();
        assert(fields@.len() == table_view(fields@).len());
        write_struct(out, 0, &fields);
    }
}

/// The byte string in a field.
fn decode_blob(field: &Option<Vec<u8>>) -> (r: Option<Vec<u8>>)
    requires
        field matches Some(value) ==> parse_blob(value@) is Ok,
    ensures
        view_of(r) == (match view_of(*field) {
            Some(value) => Some(parse_blob(value)->Ok_0.0),
            None => None,
        }),
{
    match field {
        Some(value) => match read_blob(value.as_slice()) {
            Ok((b, _)) => Some(b),
            Err(_) => None,
        },
        None => None,
    }
}

/// The text in a field.
fn decode_text(field: &Option<Vec<u8>>) -> (r: Option<String>)
    requires
        field matches Some(value) ==> parse_text(value@) is Ok,
    ensures
        view_of(r) == (match view_of(*field) {
            Some(value) => Some(parse_text(value)->Ok_0.0),
            None => None,
        }),
{
    match field {
        Some(value) => match read_text(value.as_slice()) {
            Ok((text, _)) => Some(text),
            Err(_) => None,
        },
        None => None,
    }
}

/// The route parameters in a field.
fn decode_route_parameters(field: &Option<Vec<u8>>) -> (r: Option<RouteParameters>)
    requires
        field matches Some(value) ==> parse_route_parameters(value@) is Ok,
    ensures
        r == (match view_of(*field) {
            Some(value) => Some(parse_route_parameters(value)->Ok_0.0),
            None => None,
        }),
{
    match field {
        Some(value) => match read_route_parameters(value.as_slice()) {
            Ok((p, _)) => Some(p),
            Err(_) => None,
        },
        None => None,
    }
}

/// The attempt in a field.
fn decode_attempt(field: &Option<Vec<u8>>) -> (r: Option<RecurrenceAttempt>)
    requires
        field matches Some(value) ==> parse_attempt(value@) is Ok,
    ensures
        view_of(r) == (match view_of(*field) {
            Some(value) => Some(parse_attempt(value)->Ok_0.0),
            None => None,
        }),
{
    match field {
        Some(value) => match RecurrenceAttempt::read(value.as_slice()) {
            Ok((attempt, _)) => Some(attempt),
            Err(_) => None,
        },
        None => None,
    }
}

/// Whether a table could have been read: its fields fill their records, and no required one lacks.
spec fn readable(t: Table) -> bool {
    holds_fields(state_schema(), t) && complete(state_schema(), t)
}

proof fn lemma_readable(t: Table)
    requires
        readable(t),
    ensures
        t.len() == 19,
        forall|i: int|
            0 <= i < 19 && (#[trigger] t[i]) is Some ==> state_field(i, t[i]->0) == Ok::<
                int,
                WireError,
            >(t[i]->0.len() as int),
        t[0] is Some && t[1] is Some && t[7] is Some && t[8] is Some && t[9] is Some,
        t[10] is Some && t[11] is Some && t[12] is Some && t[16] is Some && t[17] is Some,
        t[18] is Some,
{
    let required = state_schema().required;
    assert(required[0] && required[1] && required[7] && required[8] && required[9]);
    assert(required[10] && required[11] && required[12] && required[16] && required[17]);
    assert(required[18]);
}

impl RecurrenceState {
    /// The state that fields stand for.
    fn from_fields(f: &Vec<Option<Vec<u8>>>) -> (r: Result<RecurrenceState, WireError>)
        requires
            readable(table_view(f@)),
        ensures
            r matches Ok(state) && state@ == state_of(table_view(f@)),
    {
        let ghost t = table_view(f@);
        proof {
            lemma_readable(t);
            assert(forall|i: int| 0 <= i < 19 ==> #[trigger] t[i] == view_of(f@[i]));
        }
        let id: [u8; 32] = match decode_array32(&f[0]) {
            Some(v) => v,
            None => {
                return Err(WireError::InvalidValue);
            },
        };
        let original_offer: Vec<u8> = match decode_blob(&f[1]) {
            Some(v) => v,
            None => {
                return Err(WireError::InvalidValue);
            },
        };
        let retry_policy: Retry = match &f[7] {
            Some(value) => match read_retry(value.as_slice()) {
                Ok((v, _)) => v,
                Err(e) => {
                    return Err(e);
                },
            },
            None => {
                return Err(WireError::InvalidValue);
            },
        };
        let retry_state: RecurrenceRetryState = match &f[8] {
            Some(value) => match RecurrenceRetryState::read(value.as_slice()) {
                Ok((v, _)) => v,
                Err(e) => {
                    return Err(e);
                },
            },
            None => {
                return Err(WireError::InvalidValue);
            },
        };
        let pay_next_automatically: bool = match &f[9] {
            Some(value) => match read_bool(value.as_slice()) {
                Ok((v, _)) => v,
                Err(e) => {
                    return Err(e);
                },
            },
            None => {
                return Err(WireError::InvalidValue);
            },
        };
        let (initial_start, paid_count): (u64, u64) = match (
            decode_uint(&f[10], 8),
            decode_uint(&f[11], 8),
        ) {
            (Some(start), Some(count)) => (start, count),
            _ => {
                return Err(WireError::InvalidValue);
            },
        };
        let (basetime, transition_id): (u64, u64) = match (
            decode_uint(&f[12], 8),
            decode_uint(&f[17], 8),
        ) {
            (Some(base), Some(transition)) => (base, transition),
            _ => {
                return Err(WireError::InvalidValue);
            },
        };
        let last_successful_payment_id: Option<PaymentId> = match decode_array32(&f[14]) {
            Some(v) => Some(PaymentId(v)),
            None => None,
        };
        let cancellation: RecurrenceCancellationState = match &f[16] {
            Some(value) => match RecurrenceCancellationState::read(value.as_slice()) {
                Ok((v, _)) => v,
                Err(e) => {
                    return Err(e);
                },
            },
            None => {
                return Err(WireError::InvalidValue);
            },
        };
        let status: RecurrenceStatus = match &f[18] {
            Some(value) => match RecurrenceStatus::read(value.as_slice()) {
                Ok((v, _)) => v,
                Err(e) => {
                    return Err(e);
                },
            },
            None => {
                return Err(WireError::InvalidValue);
            },
        };
        let state = RecurrenceState {
            id: RecurrenceId(id),
            original_offer,
            amount_msat: decode_uint(&f[2], 8),
            maximum_amount_msat: decode_uint(&f[3], 8),
            quantity: decode_uint(&f[4], 8),
            payer_note: decode_text(&f[5]),
            routing_override: decode_route_parameters(&f[6]),
            retry_policy,
            retry_state,
            pay_next_automatically,
            initial_start,
            paid_count,
            basetime,
            opaque_state: decode_blob(&f[13]),
            last_successful_payment_id,
            attempt: decode_attempt(&f[15]),
            cancellation,
            transition_id,
            status,
        };
        assert(state@ =~= state_of(t));
        Ok(state)
    }

    /// Reads state off the front of `s`, and tells how many bytes it takes. State that breaks an
    /// invariant is refused.
    pub fn read(s: &[u8]) -> (r: Result<(RecurrenceState, usize), WireError>)
        ensures
            match r {
                Ok((state, n)) => parse_state(s@) == Ok::<(RecurrenceStateView, int), WireError>(
                    (state@, n as int),
                ) && n <= s@.len() && state@.valid(),
                Err(e) => parse_state(s@) == Err::<(RecurrenceStateView, int), WireError>(e),
            },
    {
        let (fields, n): (Vec<Option<Vec<u8>>>, usize) = match read_struct(&StateLayout, s) {
            Err(e) => {
                return Err(e);
            },
            Ok(p) => p,
        };
        proof {
            lemma_parsed_struct(state_schema(), s@);
        }
        match RecurrenceState::from_fields(&fields) {
            Err(e) => Err(e),
            Ok(state) => match state.validate() {
                Err(e) => Err(e),
                Ok(()) => Ok((state, n)),
            },
        }
    }
}

} // verus!
