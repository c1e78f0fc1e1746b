//! Fixed-width integers, variable-length integers, byte strings and text as they stand on the
//! wire.
//!
//! A parser takes the bytes in front of it and yields the value together with the number of bytes
//! that the value occupies.

use vstd::prelude::*;
use vstd::slice::slice_subrange;

use crate::error::WireError;

verus! {

/// The number of values that `n` bytes can tell apart.
pub open spec fn pow256(n: nat) -> nat
    decreases n,
{
    if n == 0 {
        1
    } else {
        256 * pow256((n - 1) as nat)
    }
}

/// The `n` lowest bytes of `v`, the most significant one first.
pub open spec fn be_bytes(v: nat, n: nat) -> Seq<u8>
    decreases n,
{
    if n == 0 {
        Seq::<u8>::empty()
    } else {
        be_bytes(v / 256, (n - 1) as nat).push((v % 256) as u8)
    }
}

/// The number that `s` stands for when the most significant byte comes first.
pub open spec fn be_value(s: Seq<u8>) -> nat
    decreases s.len(),
{
    if s.len() == 0 {
        0
    } else {
        be_value(s.drop_last()) * 256 + s.last() as nat
    }
}

pub proof fn lemma_pow256()
    ensures
        pow256(1) == 0x100,
        pow256(2) == 0x1_0000,
        pow256(4) == 0x1_0000_0000,
        pow256(8) == 0x1_0000_0000_0000_0000,
{
    reveal_with_fuel(pow256, 9);
}

/// `n` bytes are what `be_bytes` asked for `n` bytes yields.
pub proof fn lemma_be_bytes_len(v: nat, n: nat)
    ensures
        be_bytes(v, n).len() == n,
    decreases n,
{
    if n > 0 {
        lemma_be_bytes_len(v / 256, (n - 1) as nat);
    }
}

/// The bytes of a number stand for that number, provided it fits.
pub proof fn lemma_be_value_of_bytes(v: nat, n: nat)
    requires
        v < pow256(n),
    ensures
        be_value(be_bytes(v, n)) == v,
    decreases n,
{
    if n > 0 {
        let m = (n - 1) as nat;
        assert(v / 256 < pow256(m)) by (nonlinear_arith)
            requires
                v < 256 * pow256(m),
        ;
        lemma_be_value_of_bytes(v / 256, m);
        let b = be_bytes(v, n);
        assert(b.drop_last() =~= be_bytes(v / 256, m));
    }
}

/// A byte string stands for a number below `pow256` of its length, and is that number's bytes.
pub proof fn lemma_be_bytes_of_value(s: Seq<u8>)
    ensures
        be_value(s) < pow256(s.len()),
        be_bytes(be_value(s), s.len()) == s,
    decreases s.len(),
{
    if s.len() > 0 {
        lemma_be_bytes_of_value(s.drop_last());
        let high = be_value(s.drop_last());
        let low = s.last() as nat;
        assert((high * 256 + low) / 256 == high && (high * 256 + low) % 256 == low);
        assert(s.drop_last().push(s.last()) =~= s);
    } else {
        assert(be_bytes(be_value(s), s.len()) =~= s);
    }
}

/// Appends the `n` lowest bytes of `v`, the most significant one first.
pub fn write_be(out: &mut Vec<u8>, v: u64, n: usize)
    ensures
        final(out)@ == old(out)@ + be_bytes(v as nat, n as nat),
    decreases n,
{
    if n > 0 {
        write_be(out, v / 256, n - 1);
        out.push((v % 256) as u8);
    }
    assert(out@ =~= old(out)@ + be_bytes(v as nat, n as nat));
}

/// Reads the first `n` bytes of `s` as one number.
pub fn read_be(s: &[u8], n: usize) -> (v: u64)
    requires
        n <= 8,
        n <= s@.len(),
    ensures
        v == be_value(s@.take(n as int)),
{
    let mut v: u64 = 0;
    let mut i: usize = 0;
    assert(s@.take(0) =~= Seq::<u8>::empty());
    while i < n
        invariant
            i <= n <= 8,
            n <= s@.len(),
            v == be_value(s@.take(i as int)),
        decreases n - i,
    {
        proof {
            lemma_be_bytes_of_value(s@.take(i + 1));
            assert(s@.take(i + 1).drop_last() =~= s@.take(i as int));
            reveal_with_fuel(pow256, 9);
        }
        v = v * 256 + s[i] as u64;
        i = i + 1;
    }
    v
}

// Variable-length integers.

/// How many bytes follow a tag byte of a variable-length integer.
pub open spec fn bigsize_width(tag: u8) -> nat {
    if tag == 0xFF {
        8
    } else if tag == 0xFE {
        4
    } else if tag == 0xFD {
        2
    } else {
        0
    }
}

/// The least number that may be written behind a tag byte; smaller ones have a shorter form.
pub open spec fn bigsize_least(tag: u8) -> nat {
    if tag == 0xFF {
        0x1_0000_0000
    } else if tag == 0xFE {
        0x1_0000
    } else if tag == 0xFD {
        0xFD
    } else {
        0
    }
}

/// The tag byte with which a variable-length integer begins.
pub open spec fn bigsize_tag(v: u64) -> u8 {
    if v < 0xFD {
        v as u8
    } else if v <= 0xFFFF {
        0xFD
    } else if v <= 0xFFFF_FFFF {
        0xFE
    } else {
        0xFF
    }
}

/// A variable-length integer: small numbers are one byte, larger ones a tag byte and two, four or
/// eight bytes.
pub open spec fn bigsize_bytes(v: u64) -> Seq<u8> {
    seq![bigsize_tag(v)] + be_bytes(v as nat, bigsize_width(bigsize_tag(v)))
}

/// Reads a variable-length integer, which has to be in its shortest form.
pub open spec fn parse_bigsize(s: Seq<u8>) -> Result<(u64, int), WireError> {
    if s.len() == 0 {
        Err(WireError::ShortRead)
    } else {
        let w = bigsize_width(s[0]) as int;
        if w == 0 {
            Ok((s[0] as u64, 1))
        } else if s.len() < 1 + w {
            Err(WireError::ShortRead)
        } else {
            let v = be_value(s.subrange(1, 1 + w));
            if v < bigsize_least(s[0]) {
                Err(WireError::InvalidValue)
            } else {
                Ok((v as u64, 1 + w))
            }
        }
    }
}

/// What is read where a variable-length integer was written is that integer.
pub proof fn lemma_bigsize_round_trip(v: u64, tail: Seq<u8>)
    ensures
        parse_bigsize(bigsize_bytes(v) + tail) == Ok::<(u64, int), WireError>(
            (v, bigsize_bytes(v).len() as int),
        ),
        1 <= bigsize_bytes(v).len() <= 9,
{
    let w = bigsize_width(bigsize_tag(v));
    let s = bigsize_bytes(v) + tail;
    lemma_pow256();
    lemma_be_bytes_len(v as nat, w);
    if w > 0 {
        lemma_be_value_of_bytes(v as nat, w);
        assert(s.subrange(1, 1 + w as int) =~= be_bytes(v as nat, w));
    }
}

/// A variable-length integer has one encoding only.
pub proof fn lemma_bigsize_canonical(s: Seq<u8>)
    ensures
        parse_bigsize(s) matches Ok((v, n)) ==> 1 <= n <= s.len() && s.take(n) == bigsize_bytes(v),
{
    if let Ok((v, n)) = parse_bigsize(s) {
        let w = bigsize_width(s[0]);
        if w > 0 {
            let d = s.subrange(1, 1 + w as int);
            lemma_be_bytes_of_value(d);
            lemma_pow256();
            assert(be_value(d) <= u64::MAX);
            assert(v == be_value(d));
            assert(bigsize_tag(v) == s[0]);
        } else {
            assert(be_bytes(v as nat, 0) =~= Seq::<u8>::empty());
        }
        assert(s.take(n) =~= bigsize_bytes(v));
    }
}

/// Appends a variable-length integer.
pub fn write_bigsize(out: &mut Vec<u8>, v: u64)
    ensures
        final(out)@ == old(out)@ + bigsize_bytes(v),
{
    if v < 0xFD {
        out.push(v as u8);
    } else if v <= 0xFFFF {
        out.push(0xFD);
        write_be(out, v, 2);
    } else if v <= 0xFFFF_FFFF {
        out.push(0xFE);
        write_be(out, v, 4);
    } else {
        out.push(0xFF);
        write_be(out, v, 8);
    }
    assert(out@ =~= old(out)@ + bigsize_bytes(v));
}

/// Reads a variable-length integer off the front of `s`.
pub fn read_bigsize(s: &[u8]) -> (r: Result<(u64, usize), WireError>)
    ensures
        match r {
            Ok((v, n)) => parse_bigsize(s@) == Ok::<(u64, int), WireError>((v, n as int)) && 1
                <= n <= s@.len(),
            Err(e) => parse_bigsize(s@) == Err::<(u64, int), WireError>(e),
        },
{
    if s.len() == 0 {
        return Err(WireError::ShortRead);
    }
    let tag: u8 = s[0];
    if tag < 0xFD {
        return Ok((tag as u64, 1));
    }
    let (w, least): (usize, u64) = if tag == 0xFF {
        (8, 0x1_0000_0000)
    } else if tag == 0xFE {
        (4, 0x1_0000)
    } else {
        (2, 0xFD)
    };
    if s.len() < 1 + w {
        return Err(WireError::ShortRead);
    }
    let digits = slice_subrange(s, 1, 1 + w);
    assert(digits@.take(w as int) =~= digits@);
    let v: u64 = read_be(digits, w);
    if v < least {
        Err(WireError::InvalidValue)
    } else {
        Ok((v, 1 + w))
    }
}

// Fixed-width integers and truth values.

/// Reads an unsigned number of `n` bytes.
pub open spec fn parse_uint(s: Seq<u8>, n: nat) -> Result<(u64, int), WireError> {
    if s.len() < n {
        Err(WireError::ShortRead)
    } else {
        Ok((be_value(s.take(n as int)) as u64, n as int))
    }
}

/// What is read where a number of `n` bytes was written is that number.
pub proof fn lemma_uint_round_trip(v: u64, n: nat, tail: Seq<u8>)
    requires
        v < pow256(n),
    ensures
        parse_uint(be_bytes(v as nat, n) + tail, n) == Ok::<(u64, int), WireError>((v, n as int)),
        be_bytes(v as nat, n).len() == n,
{
    lemma_be_bytes_len(v as nat, n);
    lemma_be_value_of_bytes(v as nat, n);
    assert((be_bytes(v as nat, n) + tail).take(n as int) =~= be_bytes(v as nat, n));
}

/// Reads an unsigned number of at most eight bytes off the front of `s`.
pub fn read_uint(s: &[u8], n: usize) -> (r: Result<(u64, usize), WireError>)
    requires
        n <= 8,
    ensures
        match r {
            Ok((v, k)) => parse_uint(s@, n as nat) == Ok::<(u64, int), WireError>((v, k as int))
                && k == n <= s@.len() && v < pow256(n as nat),
            Err(e) => parse_uint(s@, n as nat) == Err::<(u64, int), WireError>(e),
        },
{
    if s.len() < n {
        Err(WireError::ShortRead)
    } else {
        proof {
            lemma_be_bytes_of_value(s@.take(n as int));
        }
        Ok((read_be(s, n), n))
    }
}

/// A truth value is one byte, zero or one.
pub open spec fn bool_bytes(v: bool) -> Seq<u8> {
    seq![if v { 1u8 } else { 0u8 }]
}

/// Reads a truth value.
pub open spec fn parse_bool(s: Seq<u8>) -> Result<(bool, int), WireError> {
    if s.len() == 0 {
        Err(WireError::ShortRead)
    } else if s[0] > 1 {
        Err(WireError::InvalidValue)
    } else {
        Ok((s[0] == 1, 1))
    }
}

/// Reads a truth value off the front of `s`.
pub fn read_bool(s: &[u8]) -> (r: Result<(bool, usize), WireError>)
    ensures
        match r {
            Ok((v, n)) => parse_bool(s@) == Ok::<(bool, int), WireError>((v, n as int)) && n
                <= s@.len(),
            Err(e) => parse_bool(s@) == Err::<(bool, int), WireError>(e),
        },
{
    if s.len() == 0 {
        Err(WireError::ShortRead)
    } else if s[0] > 1 {
        Err(WireError::InvalidValue)
    } else {
        Ok((s[0] == 1, 1))
    }
}

// Identifiers of 32 bytes.

/// Reads 32 bytes as they are.
pub open spec fn parse_array32(s: Seq<u8>) -> Result<(Seq<u8>, int), WireError> {
    if s.len() < 32 {
        Err(WireError::ShortRead)
    } else {
        Ok((s.take(32), 32))
    }
}

/// Copies the first 32 bytes of `s`.
pub fn copy_array32(s: &[u8]) -> (r: [u8; 32])
    requires
        s@.len() >= 32,
    ensures
        r@ == s@.take(32),
{
    let mut r: [u8; 32] = [0;32];
    let mut i: usize = 0;
    while i < 32
        invariant
            i <= 32,
            s@.len() >= 32,
            forall|j: int| 0 <= j < i ==> r@[j] == s@[j],
        decreases 32 - i,
    {
        r[i] = s[i];
        i = i + 1;
    }
    assert(r@ =~= s@.take(32));
    r
}

/// Reads 32 bytes off the front of `s`.
pub fn read_array32(s: &[u8]) -> (r: Result<([u8; 32], usize), WireError>)
    ensures
        match r {
            Ok((v, n)) => parse_array32(s@) == Ok::<(Seq<u8>, int), WireError>((v@, n as int)) && n
                <= s@.len(),
            Err(e) => parse_array32(s@) == Err::<(Seq<u8>, int), WireError>(e),
        },
{
    if s.len() < 32 {
        Err(WireError::ShortRead)
    } else {
        Ok((copy_array32(s), 32))
    }
}

// Byte strings and text.

/// The length in front of a byte string: two bytes, or 0xFFFF and eight bytes that count from
/// 0xFFFF on.
pub open spec fn length_bytes(n: u64) -> Seq<u8> {
    if n < 0xFFFF {
        be_bytes(n as nat, 2)
    } else {
        be_bytes(0xFFFF, 2) + be_bytes((n - 0xFFFF) as nat, 8)
    }
}

/// Reads the length in front of a byte string.
pub open spec fn parse_length(s: Seq<u8>) -> Result<(u64, int), WireError> {
    match parse_uint(s, 2) {
        Err(e) => Err(e),
        Ok((short, _)) => if short < 0xFFFF {
            Ok((short, 2))
        } else {
            match parse_uint(s.skip(2), 8) {
                Err(e) => Err(e),
                Ok((more, _)) => if more + 0xFFFF > u64::MAX {
                    Err(WireError::InvalidValue)
                } else {
                    Ok(((more + 0xFFFF) as u64, 10))
                },
            }
        },
    }
}

/// What is read where a length was written is that length.
pub proof fn lemma_length_round_trip(n: u64, tail: Seq<u8>)
    ensures
        parse_length(length_bytes(n) + tail) == Ok::<(u64, int), WireError>(
            (n, length_bytes(n).len() as int),
        ),
        2 <= length_bytes(n).len() <= 10,
{
    lemma_pow256();
    if n < 0xFFFF {
        lemma_uint_round_trip(n, 2, tail);
    } else {
        let more = (n - 0xFFFF) as u64;
        let rest = be_bytes(more as nat, 8) + tail;
        lemma_uint_round_trip(0xFFFF, 2, rest);
        lemma_uint_round_trip(more, 8, tail);
        assert(length_bytes(n) + tail =~= be_bytes(0xFFFF, 2) + rest);
        assert((length_bytes(n) + tail).skip(2) =~= rest);
    }
}

/// A byte string: its length, then its bytes.
pub open spec fn blob_bytes(b: Seq<u8>) -> Seq<u8> {
    length_bytes(b.len() as u64) + b
}

/// Reads a byte string.
pub open spec fn parse_blob(s: Seq<u8>) -> Result<(Seq<u8>, int), WireError> {
    match parse_length(s) {
        Err(e) => Err(e),
        Ok((len, n)) => if s.len() - n < len {
            Err(WireError::ShortRead)
        } else {
            Ok((s.subrange(n, n + len), n + len))
        },
    }
}

/// What is read where a byte string was written is that byte string.
pub proof fn lemma_blob_round_trip(b: Seq<u8>, tail: Seq<u8>)
    requires
        b.len() <= u64::MAX,
    ensures
        parse_blob(blob_bytes(b) + tail) == Ok::<(Seq<u8>, int), WireError>(
            (b, blob_bytes(b).len() as int),
        ),
{
    let len = b.len() as u64;
    lemma_length_round_trip(len, b + tail);
    let s = blob_bytes(b) + tail;
    assert(s =~= length_bytes(len) + (b + tail));
    let n = length_bytes(len).len() as int;
    assert(s.subrange(n, n + len) =~= b);
}

/// Appends a byte string.
pub fn write_blob(out: &mut Vec<u8>, b: &[u8])
    ensures
        final(out)@ == old(out)@ + blob_bytes(b@),
{
    let len: u64 = b.len() as u64;
    if len < 0xFFFF {
        write_be(out, len, 2);
    } else {
        write_be(out, 0xFFFF, 2);
        write_be(out, len - 0xFFFF, 8);
    }
    out.extend_from_slice(b);
    assert(out@ =~= old(out)@ + blob_bytes(b@));
}

/// Reads the length in front of a byte string.
pub fn read_length(s: &[u8]) -> (r: Result<(u64, usize), WireError>)
    ensures
        match r {
            Ok((v, n)) => parse_length(s@) == Ok::<(u64, int), WireError>((v, n as int)) && n
                <= s@.len(),
            Err(e) => parse_length(s@) == Err::<(u64, int), WireError>(e),
        },
{
    match read_uint(s, 2) {
        Err(e) => Err(e),
        Ok((short, _)) => {
            proof {
                lemma_pow256();
            }
            if short < 0xFFFF {
                return Ok((short, 2));
            }
            let rest = slice_subrange(s, 2, s.len());
            assert(rest@ =~= s@.skip(2));
            match read_uint(rest, 8) {
                Err(e) => Err(e),
                Ok((more, _)) => if more > u64::MAX - 0xFFFF {
                    Err(WireError::InvalidValue)
                } else {
                    Ok((more + 0xFFFF, 10))
                },
            }
        },
    }
}

/// Reads a byte string off the front of `s`.
pub fn read_blob(s: &[u8]) -> (r: Result<(Vec<u8>, usize), WireError>)
    ensures
        match r {
            Ok((v, n)) => parse_blob(s@) == Ok::<(Seq<u8>, int), WireError>((v@, n as int)) && n
                <= s@.len(),
            Err(e) => parse_blob(s@) == Err::<(Seq<u8>, int), WireError>(e),
        },
{
    match read_length(s) {
        Err(e) => Err(e),
        Ok((len, n)) => {
            if ((s.len() - n) as u64) < len {
                return Err(WireError::ShortRead);
            }
            let end: usize = n + len as usize;
            Ok((vstd::slice::slice_to_vec(slice_subrange(s, n, end)), end))
        },
    }
}

} // verus!
