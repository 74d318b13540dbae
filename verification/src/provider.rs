//! Provider paths as AllAnime publishes them: hex-encoded bytes, each
//! XOR-ed with `0x38`, optionally behind a `--` marker.

use vstd::prelude::*;
use vstd::string::StringSliceAdditionalSpecFns;
use crate::text::{
    contains_spec, occurs_at, push_char, replace, replace_spec, str_eq, strip_prefixes_spec, trim_start_matches,
};

verus! {

/// Why a provider path could not be decoded.
#[derive(Debug, PartialEq, Eq, Clone, Copy, Structural)]
pub enum ProviderPathError {
    /// The path has an odd number of bytes.
    OddLength,
    /// A pair of bytes is not valid UTF-8.
    NotUtf8,
    /// A pair of bytes is not a hexadecimal number.
    NotHex,
}

impl ProviderPathError {
    /// The message the error is reported with.
    pub open spec fn message_spec(self) -> Seq<char> {
        match self {
            ProviderPathError::OddLength => "provider path has an odd number of hex digits"@,
            ProviderPathError::NotUtf8 => "provider path is not valid UTF-8"@,
            ProviderPathError::NotHex => "provider path is not hex encoded"@,
        }
    }

    /// The message the error is reported with (see `message_spec`).
    pub fn message(self) -> (r: &'static str)
        ensures
            r@ == self.message_spec(),
    {
        match self {
            ProviderPathError::OddLength => "provider path has an odd number of hex digits",
            ProviderPathError::NotUtf8 => "provider path is not valid UTF-8",
            ProviderPathError::NotHex => "provider path is not hex encoded",
        }
    }
}

/// The value of an ASCII hexadecimal digit.
pub open spec fn hex_value(b: u8) -> Option<u8> {
    if 48 <= b <= 57 {
        Some((b - 48) as u8)
    } else if 97 <= b <= 102 {
        Some((b - 87) as u8)
    } else if 65 <= b <= 70 {
        Some((b - 55) as u8)
    } else {
        None
    }
}

/// Two bytes form valid UTF-8: two ASCII characters, or one two-byte character.
pub open spec fn utf8_pair(a: u8, b: u8) -> bool {
    (a < 128 && b < 128) || (0xC2 <= a <= 0xDF && 0x80 <= b <= 0xBF)
}

/// The byte that a pair of bytes spells as a base-16 number, as `u8::from_str_radix`
/// reads it (an optional leading `+`, then hex digits).
pub open spec fn pair_value(a: u8, b: u8) -> Result<u8, ProviderPathError> {
    if !utf8_pair(a, b) {
        Err(ProviderPathError::NotUtf8)
    } else if a == 43 && hex_value(b) is Some {
        Ok(hex_value(b)->0)
    } else if hex_value(a) is Some && hex_value(b) is Some {
        Ok((16 * hex_value(a)->0 + hex_value(b)->0) as u8)
    } else {
        Err(ProviderPathError::NotHex)
    }
}

/// The character a decoded byte stands for.
pub open spec fn unmask(v: u8) -> char {
    (v ^ 0x38u8) as char
}

/// The characters of a provider path given by its bytes, before the
/// `/clock` rewrite; the first failing pair decides the error.
pub open spec fn decode_bytes_spec(bytes: Seq<u8>) -> Result<Seq<char>, ProviderPathError>
    decreases bytes.len(),
{
    if bytes.len() == 0 {
        Ok(Seq::empty())
    } else if bytes.len() == 1 {
        Err(ProviderPathError::OddLength)
    } else {
        match pair_value(bytes[0], bytes[1]) {
            Err(e) => Err(e),
            Ok(v) => match decode_bytes_spec(bytes.skip(2)) {
                Ok(rest) => Ok(seq![unmask(v)] + rest),
                Err(e) => Err(e),
            },
        }
    }
}

/// A decoded provider path: the decoded characters with `/clock` rewritten
/// to `/clock.json`.
pub open spec fn decode_path_spec(bytes: Seq<u8>) -> Result<Seq<char>, ProviderPathError> {
    match decode_bytes_spec(bytes) {
        Ok(s) => Ok(replace_spec(s, "/clock"@, "/clock.json"@)),
        Err(e) => Err(e),
    }
}

/// `p` followed by the decoded text, or the error.
pub open spec fn prefixed(
    p: Seq<char>,
    r: Result<Seq<char>, ProviderPathError>,
) -> Result<Seq<char>, ProviderPathError> {
    match r {
        Ok(s) => Ok(p + s),
        Err(e) => Err(e),
    }
}

fn hex_value_exec(b: u8) -> (r: Option<u8>)
    ensures
        r == hex_value(b),
{
    if 48 <= b && b <= 57 {
        Some(b - 48)
    } else if 97 <= b && b <= 102 {
        Some(b - 87)
    } else if 65 <= b && b <= 70 {
        Some(b - 55)
    } else {
        None
    }
}

fn pair_value_exec(a: u8, b: u8) -> (r: Result<u8, ProviderPathError>)
    ensures
        r == pair_value(a, b),
{
    if !((a < 128 && b < 128) || (0xC2 <= a && a <= 0xDF && 0x80 <= b && b <= 0xBF)) {
        return Err(ProviderPathError::NotUtf8);
    }
    let ha = hex_value_exec(a);
    let hb = hex_value_exec(b);
    match (ha, hb) {
        (_, Some(y)) if a == 43 => Ok(y),
        (Some(x), Some(y)) => Ok(16 * x + y),
        _ => Err(ProviderPathError::NotHex),
    }
}

/// Decodes the raw characters of a provider path, before the `/clock` rewrite.
fn decode_bytes(bytes: &[u8]) -> (r: Result<String, ProviderPathError>)
    ensures
        match (r, decode_bytes_spec(bytes@)) {
            (Ok(s), Ok(t)) => s@ == t,
            (Err(e), Err(f)) => e == f,
            _ => false,
        },
{
    let n = bytes.len();
    let mut out = String::new();
    let mut i: usize = 0;
    assert(bytes@.skip(0) =~= bytes@);
    while i < n
        invariant
            n == bytes@.len(),
            i <= n,
            decode_bytes_spec(bytes@) == prefixed(out@, decode_bytes_spec(bytes@.skip(i as int))),
        decreases n - i,
    {
        let ghost rest = bytes@.skip(i as int);
        if n - i == 1 {
            assert(rest.len() == 1);
            return Err(ProviderPathError::OddLength);
        }
        assert(rest[0] == bytes@[i as int] && rest[1] == bytes@[i + 1]);
        match pair_value_exec(bytes[i], bytes[i + 1]) {
            Err(e) => {
                return Err(e);
            },
            Ok(v) => {
                let c = (v ^ 0x38u8) as char;
                let ghost before = out@;
                push_char(&mut out, c);
                assert(rest.skip(2) =~= bytes@.skip(i + 2));
                assert(c == unmask(v));
                proof {
                    match decode_bytes_spec(bytes@.skip(i + 2)) {
                        Ok(t) => {
                            assert(before + (seq![c] + t) =~= out@ + t);
                        },
                        Err(_) => {},
                    }
                }
                i = i + 2;
            },
        }
    }
    assert(bytes@.skip(n as int) =~= Seq::<u8>::empty());
    assert(out@ + Seq::<char>::empty() =~= out@);
    Ok(out)
}

/// Decodes an AllAnime provider path: pairs of hex digits, each byte XOR-ed
/// with `0x38`, with `/clock` rewritten to `/clock.json`.
pub fn decode_provider_path(encoded: &str) -> (r: Result<String, ProviderPathError>)
    ensures
        match (r, decode_path_spec(encoded.spec_bytes())) {
            (Ok(s), Ok(t)) => s@ == t,
            (Err(e), Err(f)) => e == f,
            _ => false,
        },
{
    proof {
        reveal_strlit("/clock");
    }
    let bytes = encoded.as_bytes();
    match decode_bytes(bytes) {
        Ok(s) => Ok(replace(s.as_str(), "/clock", "/clock.json")),
        Err(e) => Err(e),
    }
}

// ---------------------------------------------------------------------
// Encoding, the inverse the paths are published with
// ---------------------------------------------------------------------

/// The lower-case hex digit for a value below 16.
pub open spec fn hex_digit(v: u8) -> u8 {
    if v < 10 {
        (v + 48) as u8
    } else {
        (v + 87) as u8
    }
}

/// The published form of a path given by its bytes: each byte XOR-ed with
/// `0x38` and written as two lower-case hex digits.
pub open spec fn encode_bytes_spec(path: Seq<u8>) -> Seq<u8>
    decreases path.len(),
{
    if path.len() == 0 {
        Seq::empty()
    } else {
        let m = path[0] ^ 0x38u8;
        seq![hex_digit(m / 16), hex_digit(m % 16)] + encode_bytes_spec(path.skip(1))
    }
}

proof fn lemma_pair_of_encoded(b: u8)
    ensures
        pair_value(hex_digit((b ^ 0x38u8) / 16), hex_digit((b ^ 0x38u8) % 16)) == Ok::<
            u8,
            ProviderPathError,
        >(b ^ 0x38u8),
        unmask(b ^ 0x38u8) == b as char,
{
    let m = b ^ 0x38u8;
    assert((m ^ 0x38u8) == b) by (bit_vector)
        requires
            m == b ^ 0x38u8,
    ;
    assert(16 * (m / 16) + m % 16 == m) by (nonlinear_arith);
    assert(m / 16 < 16) by (nonlinear_arith);
}

/// Decoding undoes encoding: the published form of any byte string decodes
/// to the characters those bytes stand for.
pub proof fn decode_inverts_encode(path: Seq<u8>)
    ensures
        decode_bytes_spec(encode_bytes_spec(path)) == Ok::<Seq<char>, ProviderPathError>(
            path.map_values(|b: u8| b as char),
        ),
    decreases path.len(),
{
    if path.len() == 0 {
        assert(path.map_values(|b: u8| b as char) =~= Seq::<char>::empty());
    } else {
        let e = encode_bytes_spec(path);
        let m = path[0] ^ 0x38u8;
        lemma_pair_of_encoded(path[0]);
        decode_inverts_encode(path.skip(1));
        assert(e.skip(2) =~= encode_bytes_spec(path.skip(1)));
        assert(seq![path[0] as char] + path.skip(1).map_values(|b: u8| b as char)
            =~= path.map_values(|b: u8| b as char));
    }
}

/// Replacing a pattern that does not occur changes nothing.
proof fn lemma_replace_absent(s: Seq<char>, p: Seq<char>, t: Seq<char>)
    requires
        p.len() > 0,
        !contains_spec(s, p),
    ensures
        replace_spec(s, p, t) == s,
    decreases s.len(),
{
    if s.len() >= p.len() {
        assert(!occurs_at(s, p, 0));
        let d = s.drop_first();
        assert forall|i: int| !occurs_at(d, p, i) by {
            if occurs_at(d, p, i) {
                assert(s.subrange(i + 1, i + 1 + p.len()) =~= d.subrange(i, i + p.len()));
                assert(occurs_at(s, p, i + 1));
            }
        }
        lemma_replace_absent(d, p, t);
        assert(seq![s[0]] + d =~= s);
    }
}

/// A path without `/clock` comes back unchanged: encoding it and decoding
/// the result gives the path itself, the `/clock` rewrite having nothing to
/// rewrite.
pub proof fn path_without_clock_is_unchanged(path: Seq<u8>)
    requires
        !contains_spec(path.map_values(|b: u8| b as char), "/clock"@),
    ensures
        decode_path_spec(encode_bytes_spec(path)) == Ok::<Seq<char>, ProviderPathError>(
            path.map_values(|b: u8| b as char),
        ),
{
    reveal_strlit("/clock");
    decode_inverts_encode(path);
    lemma_replace_absent(path.map_values(|b: u8| b as char), "/clock"@, "/clock.json"@);
}

// ---------------------------------------------------------------------
// Source references
// ---------------------------------------------------------------------

/// A provider named by an episode, with the path its links are fetched from.
#[derive(Debug, PartialEq, Eq)]
pub struct SourceRef {
    pub name: String,
    pub path: String,
}

/// The path kept for a source URL: the URL without leading `--` markers,
/// decoded when it decodes and kept raw when it does not; none when nothing
/// is left.
pub open spec fn source_path_spec(source_url: Seq<char>, raw_bytes: Seq<u8>) -> Option<Seq<char>> {
    let raw = strip_prefixes_spec(source_url, "--"@);
    if raw.len() == 0 {
        None
    } else {
        match decode_path_spec(raw_bytes) {
            Ok(p) => Some(p),
            Err(_) => Some(raw),
        }
    }
}

/// The UTF-8 bytes of a text.
pub open spec fn utf8_of(s: Seq<char>) -> Seq<u8> {
    vstd::utf8::encode_utf8(s)
}

/// The source reference that a provider name and a source URL describe.
pub fn source_ref_from_fields(name: &str, source_url: &str) -> (r: Option<SourceRef>)
    ensures
        match (r, source_path_spec(source_url@, utf8_of(strip_prefixes_spec(source_url@, "--"@)))) {
            (Some(s), Some(p)) => s.name@ == name@ && s.path@ == p,
            (None, None) => true,
            _ => false,
        },
{
    let raw = trim_start_matches(source_url, "--");
    if raw.as_str().is_empty() {
        return None;
    }
    let path = match decode_provider_path(raw.as_str()) {
        Ok(p) => p,
        Err(_) => raw,
    };
    Some(SourceRef { name: String::from_str(name), path })
}

/// The provider name a source is shown under.
pub open spec fn provider_name_spec(name: Seq<char>) -> Seq<char> {
    if name == "Default"@ {
        "wixmp"@
    } else if name == "Yt-mp4"@ {
        "youtube"@
    } else if name == "S-mp4"@ {
        "sharepoint"@
    } else if name == "Luf-Mp4"@ {
        "hianime"@
    } else {
        name
    }
}

/// Maps AllAnime's source names to the provider names shown to users.
pub fn normalize_provider_name(name: &str) -> (r: String)
    ensures
        r@ == provider_name_spec(name@),
{
    if str_eq(name, "Default") {
        String::from_str("wixmp")
    } else if str_eq(name, "Yt-mp4") {
        String::from_str("youtube")
    } else if str_eq(name, "S-mp4") {
        String::from_str("sharepoint")
    } else if str_eq(name, "Luf-Mp4") {
        String::from_str("hianime")
    } else {
        String::from_str(name)
    }
}

} // verus!
