//! Percent-encoding of query parameters, specified byte for byte.

use vstd::prelude::*;

verus! {

/// Bytes that percent-encoding passes through unchanged: ASCII alphanumerics
/// and `-`, `.`, `_`, `~`.
pub open spec fn is_url_safe_byte(b: u8) -> bool {
    (0x30 <= b <= 0x39)  // 0-9
    || (0x41 <= b <= 0x5a)  // A-Z
    || (0x61 <= b <= 0x7a)  // a-z
    || b == 0x2d  // -
    || b == 0x2e  // .
    || b == 0x5f  // _
    || b == 0x7e  // ~
}

/// The upper-case hexadecimal digit for a value below 16.
pub open spec fn upper_hex_digit(n: u8) -> char {
    if n < 10 {
        (n + 0x30) as char
    } else {
        (n + 0x37) as char
    }
}

/// How one byte is rendered: safe bytes stand for themselves, every other
/// byte becomes `%` followed by two upper-case hex digits.
pub open spec fn percent_encode_byte(b: u8) -> Seq<char> {
    if is_url_safe_byte(b) {
        seq![b as char]
    } else {
        seq!['%', upper_hex_digit(b / 16), upper_hex_digit(b % 16)]
    }
}

/// The percent-encoding of a byte string.
pub open spec fn percent_encoded(data: Seq<u8>) -> Seq<char>
    decreases data.len(),
{
    if data.len() == 0 {
        Seq::empty()
    } else {
        percent_encode_byte(data[0]) + percent_encoded(data.drop_first())
    }
}

/// Relies on `urlencoding::encode_binary`: it keeps ASCII alphanumerics and
/// `-`, `.`, `_`, `~` unchanged and turns every other byte into `%` followed
/// by two upper-case hex digits, in input order.
#[verifier::external_body]
pub(crate) fn percent_encode_bytes(data: &[u8]) -> (r: String)
    ensures
        r@ == percent_encoded(data@),
{
    urlencoding::encode_binary(data).into_owned()
}

} // verus!
