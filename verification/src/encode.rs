//! Percent-encoding of filter values.
//!
//! The conservative policy encodes every byte of the value's UTF-8 form that
//! is not an ASCII alphanumeric as `%` followed by two uppercase hex digits.

use vstd::prelude::*;

verus! {

/// An ASCII alphanumeric byte: the only bytes left unencoded.
pub open spec fn is_alnum_byte(b: u8) -> bool {
    (48 <= b && b <= 57) || (65 <= b && b <= 90) || (97 <= b && b <= 122)
}

/// Uppercase hexadecimal digit for a nibble.
pub open spec fn hex_digit(n: u8) -> char
    recommends
        n < 16,
{
    if n < 10 {
        ((48 + n) as u8) as char
    } else {
        ((55 + n) as u8) as char
    }
}

/// Percent-encoding of one byte: kept as is when ASCII alphanumeric,
/// otherwise `%` plus two uppercase hex digits.
pub open spec fn encoded_byte(b: u8) -> Seq<char> {
    if is_alnum_byte(b) {
        seq![b as char]
    } else {
        seq!['%', hex_digit(b / 16), hex_digit(b % 16)]
    }
}

/// Percent-encoding of a byte sequence, byte by byte.
pub open spec fn encoded_bytes(bs: Seq<u8>) -> Seq<char>
    decreases bs.len(),
{
    if bs.len() == 0 {
        Seq::empty()
    } else {
        encoded_byte(bs[0]) + encoded_bytes(bs.drop_first())
    }
}

/// Percent-encoding of a string: its UTF-8 bytes, each encoded unless it is
/// an ASCII alphanumeric.
pub open spec fn percent_encoded(s: Seq<char>) -> Seq<char> {
    encoded_bytes(vstd::utf8::encode_utf8(s))
}

/// Relies on `percent_encoding::utf8_percent_encode` with the
/// `NON_ALPHANUMERIC` set: every UTF-8 byte of the input that is not an ASCII
/// alphanumeric is rendered as `%` plus two uppercase hex digits, in byte
/// order.
#[verifier::external_body]
pub fn percent_encode(s: &str) -> (r: String)
    ensures
        r@ == percent_encoded(s@),
{
    percent_encoding::utf8_percent_encode(s, percent_encoding::NON_ALPHANUMERIC).to_string()
}

} // verus!
