//! Percent-encoding of URL components, done by the `urlencoding` crate.

use vstd::prelude::*;
use vstd::string::StringSliceAdditionalSpecFns;

verus! {

/// A byte that percent-encoding keeps: an ASCII letter or digit, `-`, `.`,
/// `_` or `~`.
pub open spec fn unreserved(b: u8) -> bool {
    (48 <= b <= 57) || (65 <= b <= 90) || (97 <= b <= 122) || b == 45 || b == 46 || b == 95
        || b == 126
}

/// An upper-case hex digit for a value below 16.
pub open spec fn upper_hex(v: u8) -> char {
    if v < 10 {
        ((v + 48) as u8) as char
    } else {
        ((v + 55) as u8) as char
    }
}

/// Bytes percent-encoded: unreserved bytes stay, every other byte becomes
/// `%` and two upper-case hex digits.
pub open spec fn percent_encode_spec(bytes: Seq<u8>) -> Seq<char>
    decreases bytes.len(),
{
    if bytes.len() == 0 {
        Seq::empty()
    } else {
        let b = bytes[0];
        let head = if unreserved(b) {
            seq![b as char]
        } else {
            seq!['%', upper_hex(b / 16), upper_hex(b % 16)]
        };
        head + percent_encode_spec(bytes.skip(1))
    }
}

/// `urlencoding::encode`: the contract states what its documentation and
/// source give, every UTF-8 byte of `s` but the unreserved ones written as
/// `%` and two upper-case hex digits.
#[verifier::external_body]
pub(crate) fn url_encode(s: &str) -> (r: String)
    ensures
        r@ == percent_encode_spec(s.spec_bytes()),
{
    urlencoding::encode(s).into_owned()
}

/// Bytes with each `%` and two hex digits replaced by the byte they stand
/// for; any other byte, and a `%` not followed by two hex digits, kept.
pub open spec fn percent_decode_bytes(b: Seq<u8>) -> Seq<u8>
    decreases b.len(),
{
    if b.len() == 0 {
        Seq::empty()
    } else if b[0] == 37 && b.len() >= 3 && crate::provider::hex_value(b[1]) is Some
        && crate::provider::hex_value(b[2]) is Some {
        seq![
            (crate::provider::hex_value(b[1])->0 * 16 + crate::provider::hex_value(b[2])->0) as u8,
        ] + percent_decode_bytes(b.skip(3))
    } else {
        seq![b[0]] + percent_decode_bytes(b.skip(1))
    }
}

/// A percent-decoded text: the decoded bytes as text when they are UTF-8,
/// none otherwise.
pub open spec fn url_decoded(s: Seq<char>) -> Option<Seq<char>> {
    let bytes = percent_decode_bytes(vstd::utf8::encode_utf8(s));
    if vstd::utf8::valid_utf8(bytes) {
        Some(vstd::utf8::decode_utf8(bytes))
    } else {
        None
    }
}

/// `urlencoding::decode`: the contract claims what its source does, the
/// percent-decoded bytes of the text (`decode_binary`) as text when they are
/// UTF-8 (`String::from_utf8`), none otherwise; and that a text without `%`
/// comes back as it is.
#[verifier::external_body]
pub(crate) fn url_decode(s: &str) -> (r: Option<String>)
    ensures
        crate::links::opt_text(r) == url_decoded(s@),
        !s@.contains('%') ==> crate::links::opt_text(r) == Some(s@),
{
    urlencoding::decode(s).ok().map(|d| d.into_owned())
}

} // verus!
