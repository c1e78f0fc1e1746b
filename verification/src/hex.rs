//! Identifiers as hexadecimal text.

use vstd::prelude::*;
use vstd::utf8::{
    encode_utf8, encode_utf8_decode_utf8, encode_utf8_valid_utf8, is_ascii_chars,
    is_ascii_chars_encode_utf8,
};

use crate::bindings::string_from_utf8;
use crate::recurrence::RecurrenceId;

verus! {

/// The digit of a number below sixteen.
pub open spec fn hex_digit(n: int) -> char {
    if n < 10 {
        ('0' as int + n) as char
    } else {
        ('a' as int + (n - 10)) as char
    }
}

/// The number that a digit stands for, in either case.
pub open spec fn hex_value(c: char) -> Option<int> {
    if '0' <= c <= '9' {
        Some(c as int - '0' as int)
    } else if 'a' <= c <= 'f' {
        Some(c as int - 'a' as int + 10)
    } else if 'A' <= c <= 'F' {
        Some(c as int - 'A' as int + 10)
    } else {
        None
    }
}

/// Bytes as text: two digits for each, the high one first.
pub open spec fn hex_text(bytes: Seq<u8>) -> Seq<char> {
    Seq::new(
        2 * bytes.len(),
        |i: int|
            hex_digit(
                if i % 2 == 0 {
                    bytes[i / 2] as int / 16
                } else {
                    bytes[i / 2] as int % 16
                },
            ),
    )
}

/// The bytes that a text of digits stands for.
pub open spec fn hex_bytes(text: Seq<char>) -> Seq<u8> {
    Seq::new(
        text.len() / 2,
        |i: int| (16 * hex_value(text[2 * i])->0 + hex_value(text[2 * i + 1])->0) as u8,
    )
}

/// Whether a text consists of digits.
pub open spec fn is_hex(text: Seq<char>) -> bool {
    forall|i: int| 0 <= i < text.len() ==> hex_value(#[trigger] text[i]) is Some
}

/// The identifier that a text names, if it is one of 64 digits.
pub open spec fn parse_hex_id(text: Seq<char>) -> Option<Seq<u8>> {
    if text.len() == 64 && is_hex(text) {
        Some(hex_bytes(text))
    } else {
        None
    }
}

/// The text of an identifier names that identifier.
pub proof fn law_hex_round_trip(id: RecurrenceId)
    ensures
        parse_hex_id(hex_text(id@)) == Some(id@),
{
    let text = hex_text(id@);
    assert forall|i: int| 0 <= i < 32 implies #[trigger] hex_bytes(text)[i] == id@[i] by {
        let b = id@[i] as int;
        assert(text[2 * i] == hex_digit(b / 16));
        assert(text[2 * i + 1] == hex_digit(b % 16));
        assert(16 * (b / 16) + b % 16 == b);
    }
    assert(hex_bytes(text) =~= id@);
}

/// Different identifiers have different texts.
pub proof fn law_hex_tells_identifiers_apart(a: RecurrenceId, b: RecurrenceId)
    requires
        hex_text(a@) == hex_text(b@),
    ensures
        a@ == b@,
{
    law_hex_round_trip(a);
    law_hex_round_trip(b);
}

/// The ASCII code of the digit of a number below sixteen.
fn digit(n: u8) -> (r: u8)
    requires
        n < 16,
    ensures
        r as int == hex_digit(n as int) as int,
        r < 128,
{
    if n < 10 {
        48 + n
    } else {
        87 + n
    }
}

/// The number that the digit with an ASCII code stands for.
fn value(c: u8) -> (r: Option<u8>)
    requires
        c < 128,
    ensures
        match r {
            Some(v) => hex_value(c as char) == Some(v as int) && v < 16,
            None => hex_value(c as char) is None,
        },
{
    if 48 <= c && c <= 57 {
        Some(c - 48)
    } else if 97 <= c && c <= 102 {
        Some(c - 87)
    } else if 65 <= c && c <= 70 {
        Some(c - 55)
    } else {
        None
    }
}

impl RecurrenceId {
    /// The identifier as hexadecimal text.
    pub fn encode_to_hex_str(&self) -> (r: String)
        ensures
            r@ == hex_text(self@),
    {
        let ghost text = hex_text(self@);
        let mut codes: Vec<u8> = Vec::new();
        let mut i: usize = 0;
        while i < 32
            invariant
                i <= 32,
                text == hex_text(self@),
                codes@.len() == 2 * i,
                forall|j: int| 0 <= j < 2 * i ==> #[trigger] codes@[j] == text[j] as u8,
                forall|j: int| 0 <= j < 2 * i ==> (#[trigger] text[j] as int) < 128,
            decreases 32 - i,
        {
            let b: u8 = self.0[i];
            codes.push(digit(b / 16));
            codes.push(digit(b % 16));
            proof {
                assert(text[2 * i] == hex_digit(b as int / 16));
                assert(text[2 * i + 1] == hex_digit(b as int % 16));
            }
            i = i + 1;
        }
        proof {
            assert(is_ascii_chars(text));
            is_ascii_chars_encode_utf8(text);
            assert(codes@ =~= encode_utf8(text));
            encode_utf8_valid_utf8(text);
            encode_utf8_decode_utf8(text);
        }
        match string_from_utf8(codes) {
            Some(r) => r,
            None => String::new(),
        }
    }

    /// The identifier that a text names, if it is one of 64 hexadecimal digits.
    pub fn decode_from_hex_str(s: &str) -> (r: Option<RecurrenceId>)
        ensures
            match r {
                Some(id) => parse_hex_id(s@) == Some(id@),
                None => parse_hex_id(s@) is None,
            },
    {
        if !s.is_ascii() {
            proof {
                assert(is_hex(s@) ==> is_ascii_chars(s@)) by {
                    if is_hex(s@) {
                        assert forall|i: int| 0 <= i < s@.len() implies '\0' <= #[trigger] s@[i]
                            <= '\u{7f}' by {
                            assert(hex_value(s@[i]) is Some);
                        }
                    }
                }
            }
            return None;
        }
        let codes = s.as_bytes();
        proof {
            is_ascii_chars_encode_utf8(s@);
        }
        if codes.len() != 64 {
            return None;
        }
        let mut id: [u8; 32] = [0;32];
        let mut i: usize = 0;
        while i < 32
            invariant
                i <= 32,
                s@.len() == 64,
                is_ascii_chars(s@),
                codes@ == Seq::new(s@.len(), |j: int| s@[j] as u8),
                forall|j: int| 0 <= j < 2 * i ==> hex_value(#[trigger] s@[j]) is Some,
                forall|j: int| 0 <= j < i ==> #[trigger] id@[j] == hex_bytes(s@)[j],
            decreases 32 - i,
        {
            proof {
                assert(codes@[2 * i] as char == s@[2 * i]);
                assert(codes@[2 * i + 1] as char == s@[2 * i + 1]);
            }
            match (value(codes[2 * i]), value(codes[2 * i + 1])) {
                (Some(high), Some(low)) => {
                    id[i] = 16 * high + low;
                },
                _ => {
                    return None;
                },
            }
            i = i + 1;
        }
        assert(id@ =~= hex_bytes(s@));
        Some(RecurrenceId(id))
    }
}

} // verus!
