//! Text on the wire.

use vstd::prelude::*;
use vstd::utf8::{decode_utf8, encode_utf8, encode_utf8_decode_utf8, encode_utf8_valid_utf8, valid_utf8};

use crate::bindings::string_from_utf8;
use crate::error::WireError;
use crate::wire::{blob_bytes, lemma_blob_round_trip, parse_blob, read_blob, write_blob};

verus! {

/// Text is written as the byte string of its UTF-8 encoding.
pub open spec fn text_bytes(text: Seq<char>) -> Seq<u8> {
    blob_bytes(encode_utf8(text))
}

/// Reads text.
pub open spec fn parse_text(s: Seq<u8>) -> Result<(Seq<char>, int), WireError> {
    match parse_blob(s) {
        Err(e) => Err(e),
        Ok((bytes, n)) => if valid_utf8(bytes) {
            Ok((decode_utf8(bytes), n))
        } else {
            Err(WireError::InvalidValue)
        },
    }
}

/// What is read where text was written is that text.
pub proof fn lemma_text_round_trip(text: Seq<char>, tail: Seq<u8>)
    requires
        encode_utf8(text).len() <= u64::MAX,
    ensures
        parse_text(text_bytes(text) + tail) == Ok::<(Seq<char>, int), WireError>(
            (text, text_bytes(text).len() as int),
        ),
{
    lemma_blob_round_trip(encode_utf8(text), tail);
    encode_utf8_valid_utf8(text);
    encode_utf8_decode_utf8(text);
}

/// Appends text.
pub fn write_text(out: &mut Vec<u8>, text: &String)
    ensures
        final(out)@ == old(out)@ + text_bytes(text@),
{
    write_blob(out, text.as_str().as_bytes());
}

/// Reads text off the front of `s`.
pub fn read_text(s: &[u8]) -> (r: Result<(String, usize), WireError>)
    ensures
        match r {
            Ok((text, n)) => parse_text(s@) == Ok::<(Seq<char>, int), WireError>(
                (text@, n as int),
            ) && n <= s@.len(),
            Err(e) => parse_text(s@) == Err::<(Seq<char>, int), WireError>(e),
        },
{
    match read_blob(s) {
        Err(e) => Err(e),
        Ok((bytes, n)) => match string_from_utf8(bytes) {
            Some(text) => Ok((text, n)),
            None => Err(WireError::InvalidValue),
        },
    }
}

} // verus!
