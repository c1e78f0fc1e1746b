//! Streams of typed records: a type, a length and a value, in ascending order of their types.
//!
//! A structure is laid out as a table of fields. Field `i` of the table has the record type
//! `first + 2 * i`, so a layout either owns the even types or the odd ones. A field that is absent
//! from the table leaves no record.

use vstd::prelude::*;
use vstd::slice::{slice_subrange, slice_to_vec};

use crate::error::WireError;
use crate::wire::{
    bigsize_bytes, lemma_bigsize_canonical, lemma_bigsize_round_trip, parse_bigsize, read_bigsize,
    write_bigsize,
};

verus! {

/// The fields of a structure, each present with its encoded value or absent.
pub type Table = Seq<Option<Seq<u8>>>;

/// What is known of a structure's fields.
pub struct Schema {
    /// The record type of the first field.
    pub first: u64,
    /// For each field, whether it has to be present.
    pub required: Seq<bool>,
    /// How many of the bytes in front of it a field takes for its value, or why it takes none.
    pub field: spec_fn(int, Seq<u8>) -> Result<int, WireError>,
}

impl Schema {
    /// The record type of field `i`.
    pub open spec fn type_of(self, i: int) -> int {
        self.first + 2 * i
    }

    /// Whether a record of this type is a field.
    pub open spec fn knows(self, typ: u64) -> bool {
        &&& typ >= self.first
        &&& (typ - self.first) % 2 == 0
        &&& (typ - self.first) / 2 < self.required.len()
    }

    /// The field that a record of a known type is.
    pub open spec fn index_of(self, typ: u64) -> int {
        (typ - self.first) / 2
    }

    /// Whether a required field lies strictly between the record types `last` and `next`, where
    /// `None` stands for the beginning and for the end.
    pub open spec fn misses(self, last: Option<u64>, next: Option<u64>) -> bool {
        exists|i: int|
            {
                &&& 0 <= i < self.required.len()
                &&& #[trigger] self.required[i]
                &&& (last matches Some(t) ==> t < self.type_of(i))
                &&& (next matches Some(t) ==> self.type_of(i) < t)
            }
    }

    /// A table in which every field is absent.
    pub open spec fn no_fields(self) -> Table {
        Seq::new(self.required.len(), |i: int| None)
    }
}

/// The bytes of `s` that a length of `len` covers, as far as they are there.
pub open spec fn covered(s: Seq<u8>, len: u64) -> Seq<u8> {
    if len <= s.len() {
        s.take(len as int)
    } else {
        s
    }
}

/// Reads the records of `s` into `table`, given the type of the record before them.
///
/// Types have to ascend and no required field may be passed over. A field's value has to fill its
/// record. Records of other odd types are passed over; other even types are refused.
pub open spec fn parse_records(
    schema: Schema,
    s: Seq<u8>,
    last: Option<u64>,
    table: Table,
) -> Result<Table, WireError>
    decreases s.len(),
{
    if s.len() == 0 {
        if schema.misses(last, None) {
            Err(WireError::InvalidValue)
        } else {
            Ok(table)
        }
    } else {
        match parse_bigsize(s) {
            Err(e) => Err(e),
            Ok((typ, n)) => {
                if (last matches Some(t) && typ <= t) || schema.misses(last, Some(typ)) {
                    Err(WireError::InvalidValue)
                } else {
                    match parse_bigsize(s.skip(n)) {
                        Err(e) => Err(e),
                        Ok((len, m)) => {
                            let rest = s.skip(n).skip(m);
                            let value = covered(rest, len);
                            if schema.knows(typ) {
                                match (schema.field)(schema.index_of(typ), value) {
                                    Err(e) => Err(e),
                                    Ok(used) => if used == len && len <= rest.len() {
                                        parse_records(
                                            schema,
                                            rest.skip(len as int),
                                            Some(typ),
                                            table.update(schema.index_of(typ), Some(value)),
                                        )
                                    } else if rest.len() < len {
                                        Err(WireError::ShortRead)
                                    } else {
                                        Err(WireError::InvalidValue)
                                    },
                                }
                            } else if typ % 2 == 0 {
                                Err(WireError::UnknownRequiredFeature)
                            } else if rest.len() < len {
                                Err(WireError::ShortRead)
                            } else {
                                parse_records(schema, rest.skip(len as int), Some(typ), table)
                            }
                        },
                    }
                }
            },
        }
    }
}

/// Reads a structure: the length of its records, then the records.
#[verifier::opaque]
pub open spec fn parse_struct(schema: Schema, s: Seq<u8>) -> Result<(Table, int), WireError> {
    match parse_bigsize(s) {
        Err(e) => Err(e),
        Ok((len, n)) => {
            let rest = s.skip(n);
            match parse_records(schema, covered(rest, len), None, schema.no_fields()) {
                Err(e) => Err(e),
                Ok(table) => if rest.len() < len {
                    Err(WireError::ShortRead)
                } else {
                    Ok((table, n + len))
                },
            }
        },
    }
}

/// One record.
pub open spec fn record_bytes(typ: u64, value: Seq<u8>) -> Seq<u8> {
    bigsize_bytes(typ) + bigsize_bytes(value.len() as u64) + value
}

/// The records of the fields from `i` on.
pub open spec fn records_from(first: u64, table: Table, i: int) -> Seq<u8>
    decreases table.len() - i,
{
    if i >= table.len() {
        Seq::<u8>::empty()
    } else {
        (match table[i] {
            Some(value) => record_bytes((first + 2 * i) as u64, value),
            None => Seq::<u8>::empty(),
        }) + records_from(first, table, i + 1)
    }
}

/// A structure: the length of its records, then the records.
pub open spec fn struct_bytes(first: u64, table: Table) -> Seq<u8> {
    bigsize_bytes(records_from(first, table, 0).len() as u64) + records_from(first, table, 0)
}

/// Whether the fields in a table are ones that the schema lets stand there.
pub open spec fn holds_fields(schema: Schema, table: Table) -> bool {
    &&& table.len() == schema.required.len()
    &&& forall|i: int|
        #![trigger table[i]]
        0 <= i < table.len() ==> match table[i] {
            Some(value) => (schema.field)(i, value) == Ok::<int, WireError>(value.len() as int),
            None => true,
        }
}

/// Whether every required field is in a table.
pub open spec fn complete(schema: Schema, table: Table) -> bool {
    forall|i: int| 0 <= i < table.len() && #[trigger] schema.required[i] ==> table[i] is Some
}

/// Whether a table may be written: it has the schema's fields, the required ones among them, and
/// its record types and its length can be expressed.
pub open spec fn fits(schema: Schema, table: Table) -> bool {
    &&& holds_fields(schema, table)
    &&& complete(schema, table)
    &&& schema.first + 2 * table.len() <= u64::MAX
    &&& records_from(schema.first, table, 0).len() <= u64::MAX
}

/// The type of the last record among the fields before `i`.
pub open spec fn last_type(first: u64, table: Table, i: int) -> Option<u64>
    decreases i,
{
    if i <= 0 {
        None
    } else if table[i - 1] is Some {
        Some((first + 2 * (i - 1)) as u64)
    } else {
        last_type(first, table, i - 1)
    }
}

proof fn lemma_last_type(first: u64, table: Table, i: int)
    requires
        0 <= i <= table.len(),
        first + 2 * table.len() <= u64::MAX,
    ensures
        match last_type(first, table, i) {
            Some(t) => exists|j: int|
                {
                    &&& 0 <= j < i
                    &&& t == first + 2 * j
                    &&& #[trigger] table[j] is Some
                    &&& forall|k: int| j < k < i ==> #[trigger] table[k] is None
                },
            None => forall|k: int| 0 <= k < i ==> #[trigger] table[k] is None,
        },
    decreases i,
{
    if i > 0 {
        if table[i - 1] is Some {
            assert(table[i - 1] is Some);
        } else {
            lemma_last_type(first, table, i - 1);
        }
    }
}

proof fn lemma_records_len(first: u64, table: Table, i: int)
    requires
        0 <= i < table.len(),
    ensures
        records_from(first, table, i).len() >= records_from(first, table, i + 1).len(),
        table[i] matches Some(value) ==> records_from(first, table, i).len() >= value.len(),
{
}

/// A field's value is no longer than the records from an earlier field on.
pub proof fn lemma_records_cover(first: u64, table: Table, i: int, j: int)
    requires
        0 <= i <= j < table.len(),
        table[j] is Some,
    ensures
        table[j]->0.len() <= records_from(first, table, i).len(),
    decreases j - i,
{
    lemma_records_len(first, table, i);
    if i < j {
        lemma_records_cover(first, table, i + 1, j);
    }
}

/// The part of a table before field `i`, the rest absent.
pub open spec fn head(table: Table, i: int) -> Table {
    Seq::new(table.len(), |j: int| if j < i { table[j] } else { None })
}

proof fn lemma_records_round_trip_from(schema: Schema, table: Table, i: int)
    requires
        fits(schema, table),
        0 <= i <= table.len(),
        records_from(schema.first, table, i).len() <= u64::MAX,
    ensures
        parse_records(
            schema,
            records_from(schema.first, table, i),
            last_type(schema.first, table, i),
            head(table, i),
        ) == Ok::<Table, WireError>(table),
    decreases table.len() - i,
{
    let first = schema.first;
    let s = records_from(first, table, i);
    let last = last_type(first, table, i);
    lemma_last_type(first, table, i);
    if i == table.len() {
        assert(head(table, i) =~= table);
        assert forall|k: int| 0 <= k < schema.required.len() && #[trigger] schema.required[k]
            implies table[k] is Some by {}
        assert(!schema.misses(last, None));
    } else {
        lemma_records_len(first, table, i);
        lemma_records_round_trip_from(schema, table, i + 1);
        match table[i] {
            None => {
                assert(s =~= records_from(first, table, i + 1));
                assert(head(table, i) =~= head(table, i + 1));
            },
            Some(value) => {
                let typ = (first + 2 * i) as u64;
                let tail = records_from(first, table, i + 1);
                let len = value.len() as u64;
                let after_type = bigsize_bytes(len) + (value + tail);
                assert(s =~= bigsize_bytes(typ) + after_type);
                lemma_bigsize_round_trip(typ, after_type);
                lemma_bigsize_round_trip(len, value + tail);
                let n = bigsize_bytes(typ).len() as int;
                let m = bigsize_bytes(len).len() as int;
                assert(s.skip(n) =~= after_type);
                let rest = s.skip(n).skip(m);
                assert(rest =~= value + tail);
                assert(rest.take(len as int) =~= value);
                assert(rest.skip(len as int) =~= tail);
                assert(schema.index_of(typ) == i);
                assert(schema.knows(typ));
                assert forall|k: int| 0 <= k < i && #[trigger] schema.required[k] implies table[k] is Some by {}
                assert(!schema.misses(last, Some(typ)));
                assert(head(table, i).update(i, Some(value)) =~= head(table, i + 1));
            },
        }
    }
}

/// A structure that was written is read back as it was, whatever follows it.
pub proof fn lemma_struct_round_trip(schema: Schema, table: Table, tail: Seq<u8>)
    requires
        fits(schema, table),
    ensures
        parse_struct(schema, struct_bytes(schema.first, table) + tail) == Ok::<
            (Table, int),
            WireError,
        >((table, struct_bytes(schema.first, table).len() as int)),
{
    reveal(parse_struct);
    let body = records_from(schema.first, table, 0);
    let len = body.len() as u64;
    let s = struct_bytes(schema.first, table) + tail;
    assert(s =~= bigsize_bytes(len) + (body + tail));
    lemma_bigsize_round_trip(len, body + tail);
    let n = bigsize_bytes(len).len() as int;
    assert(s.skip(n) =~= body + tail);
    assert(s.skip(n).take(len as int) =~= body);
    assert(head(table, 0) =~= schema.no_fields());
    lemma_records_round_trip_from(schema, table, 0);
}

proof fn lemma_parsed_records(schema: Schema, s: Seq<u8>, last: Option<u64>, table: Table)
    requires
        holds_fields(schema, table),
        forall|i: int|
            0 <= i < table.len() && #[trigger] schema.required[i] && (last matches Some(t)
                && schema.type_of(i) <= t) ==> table[i] is Some,
    ensures
        parse_records(schema, s, last, table) matches Ok(t) ==> {
            &&& holds_fields(schema, t)
            &&& complete(schema, t)
        },
    decreases s.len(),
{
    if s.len() > 0 {
        lemma_bigsize_canonical(s);
        if let Ok((typ, n)) = parse_bigsize(s) {
            lemma_bigsize_canonical(s.skip(n));
            if let Ok((len, m)) = parse_bigsize(s.skip(n)) {
                let rest = s.skip(n).skip(m);
                let value = covered(rest, len);
                if len <= rest.len() && !schema.misses(last, Some(typ)) {
                    if schema.knows(typ) {
                        let i = schema.index_of(typ);
                        if (schema.field)(i, value) == Ok::<int, WireError>(len as int) {
                            let next = table.update(i, Some(value));
                            assert(value.len() == len);
                            assert(holds_fields(schema, next));
                            lemma_parsed_records(schema, rest.skip(len as int), Some(typ), next);
                        }
                    } else {
                        lemma_parsed_records(schema, rest.skip(len as int), Some(typ), table);
                    }
                }
            }
        }
    }
}

/// A structure that was read has its required fields, and each field's value fills its record.
pub proof fn lemma_parsed_struct(schema: Schema, s: Seq<u8>)
    ensures
        parse_struct(schema, s) matches Ok((t, n)) ==> {
            &&& holds_fields(schema, t)
            &&& complete(schema, t)
        },
{
    reveal(parse_struct);
    if let Ok((len, n)) = parse_bigsize(s) {
        lemma_parsed_records(schema, covered(s.skip(n), len), None, schema.no_fields());
    }
}

/// A structure's fields as the reader needs them.
pub trait Layout {
    /// What is known of the fields.
    spec fn schema(&self) -> Schema;

    /// The record type of the first field.
    fn first(&self) -> (r: u64)
        ensures
            r == self.schema().first,
            r + 2 * self.schema().required.len() <= u64::MAX,
    ;

    /// For each field, whether it has to be present.
    fn required(&self) -> (r: Vec<bool>)
        ensures
            r@ == self.schema().required,
    ;

    /// How many bytes of `s` field `i` takes for its value.
    fn field(&self, i: usize, s: &[u8]) -> (r: Result<usize, WireError>)
        ensures
            match r {
                Ok(n) => (self.schema().field)(i as int, s@) == Ok::<int, WireError>(n as int) && n
                    <= s@.len(),
                Err(e) => (self.schema().field)(i as int, s@) == Err::<int, WireError>(e),
            },
    ;
}

/// The table that the vectors of a reader or a writer hold.
pub open spec fn table_view(t: Seq<Option<Vec<u8>>>) -> Table {
    t.map_values(
        |f: Option<Vec<u8>>|
            match f {
                Some(value) => Some(value@),
                None => None,
            },
    )
}

/// Whether a required field lies strictly between two record types.
fn misses_required(
    first: u64,
    required: &Vec<bool>,
    last: Option<u64>,
    next: Option<u64>,
    Ghost(schema): Ghost<Schema>,
) -> (r: bool)
    requires
        first == schema.first,
        required@ == schema.required,
        first + 2 * required@.len() <= u64::MAX,
    ensures
        r == schema.misses(last, next),
{
    let mut i: usize = 0;
    while i < required.len()
        invariant
            first == schema.first,
            required@ == schema.required,
            first + 2 * required@.len() <= u64::MAX,
            i <= required@.len(),
            forall|j: int|
                0 <= j < i && #[trigger] schema.required[j] ==> !{
                    &&& (last matches Some(t) ==> t < schema.type_of(j))
                    &&& (next matches Some(t) ==> schema.type_of(j) < t)
                },
        decreases required@.len() - i,
    {
        if required[i] {
            let typ: u64 = first + 2 * (i as u64);
            let after_last: bool = match last {
                Some(t) => t < typ,
                None => true,
            };
            let before_next: bool = match next {
                Some(t) => typ < t,
                None => true,
            };
            if after_last && before_next {
                assert(schema.required[i as int]);
                return true;
            }
        }
        i = i + 1;
    }
    false
}

/// The bytes of `s` that a length of `len` covers, as far as they are there.
fn take_covered(s: &[u8], len: u64) -> (r: &[u8])
    ensures
        r@ == covered(s@, len),
{
    if len <= s.len() as u64 {
        let r = slice_subrange(s, 0, len as usize);
        assert(r@ =~= s@.take(len as int));
        r
    } else {
        s
    }
}

/// Reads the records of `s`.
fn read_records<L: Layout>(layout: &L, s: &[u8]) -> (r: Result<Vec<Option<Vec<u8>>>, WireError>)
    ensures
        match r {
            Ok(table) => parse_records(layout.schema(), s@, None, layout.schema().no_fields())
                == Ok::<Table, WireError>(table_view(table@)),
            Err(e) => parse_records(layout.schema(), s@, None, layout.schema().no_fields()) == Err::<
                Table,
                WireError,
            >(e),
        },
{
    let ghost schema = layout.schema();
    let first: u64 = layout.first();
    let required = layout.required();
    let mut table: Vec<Option<Vec<u8>>> = Vec::new();
    let mut k: usize = 0;
    while k < required.len()
        invariant
            k <= required@.len(),
            table@.len() == k,
            forall|j: int| 0 <= j < k ==> table@[j] is None,
        decreases required@.len() - k,
    {
        table.push(None);
        k = k + 1;
    }
    assert(table_view(table@) =~= schema.no_fields());
    let mut pos: usize = 0;
    let mut last: Option<u64> = None;
    assert(s@.skip(0) =~= s@);
    while pos < s.len()
        invariant
            schema == layout.schema(),
            first == schema.first,
            required@ == schema.required,
            first + 2 * required@.len() <= u64::MAX,
            table@.len() == required@.len(),
            pos <= s@.len(),
            parse_records(schema, s@.skip(pos as int), last, table_view(table@)) == parse_records(
                schema,
                s@,
                None,
                schema.no_fields(),
            ),
        decreases s@.len() - pos,
    {
        let ghost here = s@.skip(pos as int);
        let ghost before = table_view(table@);
        let from_type = slice_subrange(s, pos, s.len());
        assert(from_type@ =~= here);
        let (typ, n): (u64, usize) = match read_bigsize(from_type) {
            Err(e) => {
                return Err(e);
            },
            Ok(p) => p,
        };
        if let Some(t) = last {
            if typ <= t {
                return Err(WireError::InvalidValue);
            }
        }
        if misses_required(first, &required, last, Some(typ), Ghost(schema)) {
            return Err(WireError::InvalidValue);
        }
        let from_len = slice_subrange(from_type, n, from_type.len());
        assert(from_len@ =~= here.skip(n as int));
        let (len, m): (u64, usize) = match read_bigsize(from_len) {
            Err(e) => {
                return Err(e);
            },
            Ok(p) => p,
        };
        let rest = slice_subrange(from_len, m, from_len.len());
        assert(rest@ =~= here.skip(n as int).skip(m as int));
        let value = take_covered(rest, len);
        if typ >= first && (typ - first) % 2 == 0 && (typ - first) / 2 < required.len() as u64 {
            let i: usize = ((typ - first) / 2) as usize;
            match layout.field(i, value) {
                Err(e) => {
                    return Err(e);
                },
                Ok(used) => {
                    if used as u64 != len {
                        if (rest.len() as u64) < len {
                            return Err(WireError::ShortRead);
                        }
                        return Err(WireError::InvalidValue);
                    }
                },
            }
            table.set(i, Some(slice_to_vec(value)));
            assert(table_view(table@) =~= before.update(i as int, Some(value@)));
        } else if typ % 2 == 0 {
            return Err(WireError::UnknownRequiredFeature);
        } else if (rest.len() as u64) < len {
            return Err(WireError::ShortRead);
        }
        proof {
            assert(s@.skip(pos + n + m + len) =~= here.skip(n as int).skip(m as int).skip(
                len as int,
            ));
        }
        last = Some(typ);
        pos = pos + n + m + len as usize;
    }
    if misses_required(first, &required, last, None, Ghost(schema)) {
        Err(WireError::InvalidValue)
    } else {
        Ok(table)
    }
}

/// Reads a structure off the front of `s`.
pub fn read_struct<L: Layout>(layout: &L, s: &[u8]) -> (r: Result<
    (Vec<Option<Vec<u8>>>, usize),
    WireError,
>)
    ensures
        match r {
            Ok((table, n)) => parse_struct(layout.schema(), s@) == Ok::<(Table, int), WireError>(
                (table_view(table@), n as int),
            ) && n <= s@.len(),
            Err(e) => parse_struct(layout.schema(), s@) == Err::<(Table, int), WireError>(e),
        },
{
    proof {
        reveal(parse_struct);
    }
    let (len, n): (u64, usize) = match read_bigsize(s) {
        Err(e) => {
            return Err(e);
        },
        Ok(p) => p,
    };
    let rest = slice_subrange(s, n, s.len());
    assert(rest@ =~= s@.skip(n as int));
    match read_records(layout, take_covered(rest, len)) {
        Err(e) => Err(e),
        Ok(table) => if (rest.len() as u64) < len {
            Err(WireError::ShortRead)
        } else {
            Ok((table, n + len as usize))
        },
    }
}

/// Appends a structure.
pub fn write_struct(out: &mut Vec<u8>, first: u64, table: &Vec<Option<Vec<u8>>>)
    requires
        first + 2 * table@.len() <= u64::MAX,
    ensures
        final(out)@ == old(out)@ + struct_bytes(first, table_view(table@)),
{
    let ghost view = table_view(table@);
    let mut body: Vec<u8> = Vec::new();
    let mut i: usize = 0;
    while i < table.len()
        invariant
            first + 2 * table@.len() <= u64::MAX,
            view == table_view(table@),
            i <= table@.len(),
            body@ + records_from(first, view, i as int) == records_from(first, view, 0),
        decreases table@.len() - i,
    {
        let ghost done = body@;
        if let Some(value) = &table[i] {
            write_bigsize(&mut body, first + 2 * (i as u64));
            write_bigsize(&mut body, value.len() as u64);
            body.extend_from_slice(value.as_slice());
            assert(view[i as int] == Some(value@));
            assert(body@ =~= done + record_bytes((first + 2 * i) as u64, value@));
        } else {
            assert(view[i as int] is None);
        }
        assert(body@ + records_from(first, view, i + 1) =~= done + records_from(
            first,
            view,
            i as int,
        ));
        i = i + 1;
    }
    assert(body@ =~= records_from(first, view, 0));
    write_bigsize(out, body.len() as u64);
    out.append(&mut body);
    assert(out@ =~= old(out)@ + struct_bytes(first, view));
}

} // verus!
