//! The per-format codecs. Each format's decoder and encoder is an outside
//! routine; the dispatcher treats both as pure functions of their input, so
//! each outside call sits behind a wrapper whose contract names its result.
//! The hexadecimal framing that the binary format uses on top of its codec
//! is this crate's own logic and is specified and verified exactly.

use vstd::prelude::*;
use vstd::string::StringExecFns;
use std::collections::BTreeMap;
use crate::format::Format;

verus! {

/// The decoded statistics map: one opaque per-language record under each
/// language name. The records are carried through untouched; the dispatcher
/// never looks inside them.
pub type LanguageMap = BTreeMap<String, serde_json::Value>;

#[verifier::external_type_specification]
#[verifier::external_body]
pub struct ExJsonValue(serde_json::Value);

// ---------------------------------------------------------------------------
// Hexadecimal framing (this crate's own logic, specified exactly)
// ---------------------------------------------------------------------------

/// Whether `c` is an ASCII hexadecimal digit.
pub open spec fn is_hex_digit(c: char) -> bool {
    (48 <= c as int && c as int <= 57)  // '0' ..= '9'
    || (97 <= c as int && c as int <= 102)  // 'a' ..= 'f'
    || (65 <= c as int && c as int <= 70)  // 'A' ..= 'F'
}

/// The value of the hexadecimal digit `c`.
pub open spec fn hex_char_val(c: char) -> int {
    if 48 <= c as int && c as int <= 57 {
        c as int - 48
    } else if 97 <= c as int && c as int <= 102 {
        c as int - 87
    } else {
        c as int - 55
    }
}

/// Whether `s` is a well-formed hexadecimal string: an even number of
/// characters, every one of them a hexadecimal digit.
pub open spec fn hex_valid(s: Seq<char>) -> bool {
    s.len() % 2 == 0 && (forall|i: int| 0 <= i < s.len() ==> is_hex_digit(#[trigger] s[i]))
}

/// The bytes that a well-formed hexadecimal string denotes, one byte per
/// digit pair, the first digit of a pair being the high nibble.
pub open spec fn hex_bytes(s: Seq<char>) -> Seq<u8> {
    Seq::new(
        (s.len() / 2) as nat,
        |i: int| (hex_char_val(s[2 * i]) * 16 + hex_char_val(s[2 * i + 1])) as u8,
    )
}

/// The lowercase hexadecimal digit for a value below sixteen.
pub open spec fn hex_digit_char(v: u8) -> char {
    if v < 10 {
        (v + 48) as char
    } else {
        (v + 87) as char
    }
}

/// The lowercase hexadecimal rendering of `b`, two digits per byte.
pub open spec fn hex_chars(b: Seq<u8>) -> Seq<char> {
    Seq::new(
        (b.len() * 2) as nat,
        |i: int|
            if i % 2 == 0 {
                hex_digit_char(b[i / 2] / 16)
            } else {
                hex_digit_char(b[i / 2] % 16)
            },
    )
}

/// Hexadecimal framing is lossless: rendering any byte string gives a
/// well-formed hexadecimal string that denotes the original bytes.
pub proof fn lemma_hex_round_trip(b: Seq<u8>)
    ensures
        hex_valid(hex_chars(b)),
        hex_bytes(hex_chars(b)) == b,
{
    let s = hex_chars(b);
    assert forall|i: int| 0 <= i < s.len() implies is_hex_digit(#[trigger] s[i]) by {
        if i % 2 == 0 {
            assert(s[i] == hex_digit_char(b[i / 2] / 16));
        } else {
            assert(s[i] == hex_digit_char(b[i / 2] % 16));
        }
    }
    assert forall|i: int| 0 <= i < b.len() implies hex_bytes(s)[i] == b[i] by {
        let hi = b[i] / 16;
        let lo = b[i] % 16;
        assert(s[2 * i] == hex_digit_char(hi));
        assert(s[2 * i + 1] == hex_digit_char(lo));
        assert(hex_char_val(hex_digit_char(hi)) == hi as int);
        assert(hex_char_val(hex_digit_char(lo)) == lo as int);
        assert(hi as int * 16 + lo as int == b[i] as int);
    }
    assert(hex_bytes(s) =~= b);
}

/// A one-character string holding the lowercase hexadecimal digit for `v`.
fn hex_digit_str(v: u8) -> (r: &'static str)
    requires
        v < 16,
    ensures
        r@ == seq![hex_digit_char(v)],
{
    proof {
        reveal_strlit("0");
        reveal_strlit("1");
        reveal_strlit("2");
        reveal_strlit("3");
        reveal_strlit("4");
        reveal_strlit("5");
        reveal_strlit("6");
        reveal_strlit("7");
        reveal_strlit("8");
        reveal_strlit("9");
        reveal_strlit("a");
        reveal_strlit("b");
        reveal_strlit("c");
        reveal_strlit("d");
        reveal_strlit("e");
        reveal_strlit("f");
    }
    if v == 0 {
        "0"
    } else if v == 1 {
        "1"
    } else if v == 2 {
        "2"
    } else if v == 3 {
        "3"
    } else if v == 4 {
        "4"
    } else if v == 5 {
        "5"
    } else if v == 6 {
        "6"
    } else if v == 7 {
        "7"
    } else if v == 8 {
        "8"
    } else if v == 9 {
        "9"
    } else if v == 10 {
        "a"
    } else if v == 11 {
        "b"
    } else if v == 12 {
        "c"
    } else if v == 13 {
        "d"
    } else if v == 14 {
        "e"
    } else {
        "f"
    }
}

/// Renders `bytes` as lowercase hexadecimal text, two digits per byte.
pub fn to_hex(bytes: &Vec<u8>) -> (r: String)
    ensures
        r@ == hex_chars(bytes@),
{
    let mut s = String::new();
    let mut i: usize = 0;
    while i < bytes.len()
        invariant
            i <= bytes.len(),
            s@ == hex_chars(bytes@.take(i as int)),
        decreases bytes.len() - i,
    {
        let b = bytes[i];
        s.append(hex_digit_str(b / 16));
        s.append(hex_digit_str(b % 16));
        i = i + 1;
        proof {
            assert(s@ =~= hex_chars(bytes@.take(i as int)));
        }
    }
    proof {
        assert(bytes@.take(bytes@.len() as int) =~= bytes@);
    }
    s
}

// ---------------------------------------------------------------------------
// The outside codecs, each behind a named result
// ---------------------------------------------------------------------------

pub uninterp spec fn cbor_decoded(b: Seq<u8>) -> Option<Map<String, serde_json::Value>>;

pub uninterp spec fn json_decoded(s: Seq<char>) -> Option<Map<String, serde_json::Value>>;

pub uninterp spec fn yaml_decoded(s: Seq<char>) -> Option<Map<String, serde_json::Value>>;

pub uninterp spec fn toml_decoded(s: Seq<char>) -> Option<Map<String, serde_json::Value>>;

pub uninterp spec fn cbor_encoded(m: Map<String, serde_json::Value>) -> Option<Seq<u8>>;

pub uninterp spec fn json_encoded(m: Map<String, serde_json::Value>) -> Option<Seq<char>>;

pub uninterp spec fn yaml_encoded(m: Map<String, serde_json::Value>) -> Option<Seq<char>>;

pub uninterp spec fn toml_encoded(m: Map<String, serde_json::Value>) -> Option<Seq<char>>;

/// Relies on hex::decode: it succeeds exactly on strings with an even number
/// of characters, all of them hexadecimal digits, and returns one byte per
/// digit pair, the first digit being the high nibble.
#[verifier::external_body]
pub(crate) fn hex_decode(input: &str) -> (r: Option<Vec<u8>>)
    ensures
        r is Some <==> hex_valid(input@),
        r matches Some(b) ==> b@ == hex_bytes(input@),
{
    hex::decode(input).ok()
}

/// Relies on serde_cbor::from_slice: what a byte string deserializes to
/// depends on those bytes alone.
#[verifier::external_body]
pub(crate) fn cbor_decode(input: &Vec<u8>) -> (r: Option<LanguageMap>)
    ensures
        r is Some <==> cbor_decoded(input@) is Some,
        r matches Some(m) ==> cbor_decoded(input@) == Some(m@),
{
    serde_cbor::from_slice::<LanguageMap>(input).ok()
}

/// Relies on serde_json::from_str: what a text deserializes to depends on
/// that text alone.
#[verifier::external_body]
pub(crate) fn json_decode(input: &str) -> (r: Option<LanguageMap>)
    ensures
        r is Some <==> json_decoded(input@) is Some,
        r matches Some(m) ==> json_decoded(input@) == Some(m@),
{
    serde_json::from_str::<LanguageMap>(input).ok()
}

/// Relies on serde_yaml::from_str: what a text deserializes to depends on
/// that text alone.
#[verifier::external_body]
pub(crate) fn yaml_decode(input: &str) -> (r: Option<LanguageMap>)
    ensures
        r is Some <==> yaml_decoded(input@) is Some,
        r matches Some(m) ==> yaml_decoded(input@) == Some(m@),
{
    serde_yaml::from_str::<LanguageMap>(input).ok()
}

/// Relies on toml::from_str: what a text deserializes to depends on that
/// text alone.
#[verifier::external_body]
pub(crate) fn toml_decode(input: &str) -> (r: Option<LanguageMap>)
    ensures
        r is Some <==> toml_decoded(input@) is Some,
        r matches Some(m) ==> toml_decoded(input@) == Some(m@),
{
    toml::from_str::<LanguageMap>(input).ok()
}

/// Relies on serde_cbor::to_vec: the bytes a map serializes to depend on the
/// map's contents alone, the underlying map being ordered by key.
#[verifier::external_body]
pub(crate) fn cbor_encode(map: &LanguageMap) -> (r: Option<Vec<u8>>)
    ensures
        r is Some <==> cbor_encoded(map@) is Some,
        r matches Some(b) ==> cbor_encoded(map@) == Some(b@),
{
    serde_cbor::to_vec(map).ok()
}

/// Relies on serde_json::to_string: the text a map serializes to depends on
/// the map's contents alone, the underlying map being ordered by key.
#[verifier::external_body]
pub(crate) fn json_encode(map: &LanguageMap) -> (r: Option<String>)
    ensures
        r is Some <==> json_encoded(map@) is Some,
        r matches Some(s) ==> json_encoded(map@) == Some(s@),
{
    serde_json::to_string(map).ok()
}

/// Relies on serde_yaml::to_string: the text a map serializes to depends on
/// the map's contents alone, the underlying map being ordered by key.
#[verifier::external_body]
pub(crate) fn yaml_encode(map: &LanguageMap) -> (r: Option<String>)
    ensures
        r is Some <==> yaml_encoded(map@) is Some,
        r matches Some(s) ==> yaml_encoded(map@) == Some(s@),
{
    serde_yaml::to_string(map).ok()
}

/// Relies on toml::to_string: the text a map serializes to depends on the
/// map's contents alone, the underlying map being ordered by key.
#[verifier::external_body]
pub(crate) fn toml_encode(map: &LanguageMap) -> (r: Option<String>)
    ensures
        r is Some <==> toml_encoded(map@) is Some,
        r matches Some(s) ==> toml_encoded(map@) == Some(s@),
{
    toml::to_string(map).ok()
}

// ---------------------------------------------------------------------------
// One decode and one encode entry per format
// ---------------------------------------------------------------------------

/// What decoding an input under `f` yields: the binary format first checks
/// the hexadecimal framing, the textual formats go straight to their codec.
pub open spec fn spec_decode(f: Format, s: Seq<char>) -> Option<Map<String, serde_json::Value>> {
    match f {
        Format::Cbor => if hex_valid(s) {
            cbor_decoded(hex_bytes(s))
        } else {
            None
        },
        Format::Json => json_decoded(s),
        Format::Yaml => yaml_decoded(s),
        Format::Toml => toml_decoded(s),
    }
}

/// What encoding a map under `f` yields: the binary format renders its bytes
/// as hexadecimal text, the textual formats return their codec's text.
pub open spec fn spec_encode(f: Format, m: Map<String, serde_json::Value>) -> Option<Seq<char>> {
    match f {
        Format::Cbor => match cbor_encoded(m) {
            Some(b) => Some(hex_chars(b)),
            None => None,
        },
        Format::Json => json_encoded(m),
        Format::Yaml => yaml_encoded(m),
        Format::Toml => toml_encoded(m),
    }
}

/// Attempts to decode `input` under the single format `f`.
pub fn decode(f: Format, input: &str) -> (r: Option<LanguageMap>)
    ensures
        r is Some <==> spec_decode(f, input@) is Some,
        r matches Some(m) ==> spec_decode(f, input@) == Some(m@),
{
    match f {
        Format::Cbor => match hex_decode(input) {
            Some(b) => cbor_decode(&b),
            None => None,
        },
        Format::Json => json_decode(input),
        Format::Yaml => yaml_decode(input),
        Format::Toml => toml_decode(input),
    }
}

/// Encodes `map` under the single format `f`.
pub fn encode(f: Format, map: &LanguageMap) -> (r: Option<String>)
    ensures
        r is Some <==> spec_encode(f, map@) is Some,
        r matches Some(s) ==> spec_encode(f, map@) == Some(s@),
{
    match f {
        Format::Cbor => match cbor_encode(map) {
            Some(b) => Some(to_hex(&b)),
            None => None,
        },
        Format::Json => json_encode(map),
        Format::Yaml => yaml_encode(map),
        Format::Toml => toml_encode(map),
    }
}

} // verus!
