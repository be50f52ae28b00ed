//! The dispatcher: ordered-fallback decoding over the enabled formats, and
//! encoding under one requested format.

use vstd::prelude::*;
use crate::codec::{decode, encode, spec_decode, spec_encode, LanguageMap};
use crate::format::{supported_spec, Capabilities, Format};

verus! {

/// The first format in `fs` whose decoder accepts `s`, scanning left to
/// right; `None` when none accepts it.
pub open spec fn first_accepting(fs: Seq<Format>, s: Seq<char>) -> Option<Format>
    decreases fs.len(),
{
    if fs.len() == 0 {
        None
    } else if spec_decode(fs[0], s) is Some {
        Some(fs[0])
    } else {
        first_accepting(fs.drop_first(), s)
    }
}

/// What parsing yields: nothing for empty input, otherwise the decoding of
/// the earliest enabled format that accepts the input.
pub open spec fn parse_spec(caps: Capabilities, s: Seq<char>) -> Option<
    Map<String, serde_json::Value>,
> {
    if s.len() == 0 {
        None
    } else {
        match first_accepting(supported_spec(caps), s) {
            Some(f) => spec_decode(f, s),
            None => None,
        }
    }
}

/// The error reported when a format's encoder rejects a map.
#[derive(Clone, Copy, Debug, PartialEq, Eq, Structural)]
pub struct CodecError {
    pub format: Format,
}

impl Format {
    /// The enabled formats themselves, in catalog order: the order in which
    /// [`Format::parse`] attempts them.
    pub fn supported_list(caps: &Capabilities) -> (r: Vec<Format>)
        ensures
            r@ == supported_spec(*caps),
    {
        let mut v: Vec<Format> = Vec::new();
        if caps.cbor {
            v.push(Format::Cbor);
        }
        if caps.json {
            v.push(Format::Json);
        }
        if caps.yaml {
            v.push(Format::Yaml);
        }
        if caps.toml {
            v.push(Format::Toml);
        }
        proof {
            reveal_with_fuel(Seq::<_>::filter, 5);
            assert(v@ =~= supported_spec(*caps));
        }
        v
    }

    /// Attempts each format that `caps` enables, in catalog order, against
    /// the whole input; the first decoder that accepts it wins. Empty input
    /// is rejected outright, before any decoder runs.
    pub fn parse(input: &str, caps: &Capabilities) -> (r: Option<LanguageMap>)
        ensures
            r is Some <==> parse_spec(*caps, input@) is Some,
            r matches Some(m) ==> parse_spec(*caps, input@) == Some(m@),
    {
        if input.is_empty() {
            return None;
        }
        let fs = Format::supported_list(caps);
        proof {
            assert(fs@.skip(0) =~= fs@);
        }
        let mut i: usize = 0;
        while i < fs.len()
            invariant
                0 <= i <= fs.len(),
                fs@ == supported_spec(*caps),
                input@.len() > 0,
                first_accepting(fs@, input@) == first_accepting(
                    fs@.skip(i as int),
                    input@,
                ),
            decreases fs.len() - i,
        {
            let f = fs[i];
            proof {
                assert(fs@.skip(i as int)[0] == f);
                assert(fs@.skip(i as int).drop_first() =~= fs@.skip(i as int + 1));
            }
            let attempt = decode(f, input);
            if attempt.is_some() {
                proof {
                    assert(first_accepting(fs@.skip(i as int), input@) == Some(f));
                }
                return attempt;
            }
            i = i + 1;
        }
        proof {
            assert(fs@.skip(fs@.len() as int) =~= Seq::<Format>::empty());
        }
        None
    }

    /// Encodes `map` under this format. The format is already resolved, so
    /// the capability gate has been passed; the only failure left is the
    /// codec's own.
    pub fn print(&self, map: &LanguageMap) -> (r: Result<String, CodecError>)
        ensures
            r is Ok <==> spec_encode(*self, map@) is Some,
            r matches Ok(s) ==> spec_encode(*self, map@) == Some(s@),
            r matches Err(e) ==> e.format == *self,
    {
        match encode(*self, map) {
            Some(s) => Ok(s),
            None => Err(CodecError { format: *self }),
        }
    }
}

/// Empty input never parses, whatever the configuration enables, and no
/// decoder gets a say in that.
pub proof fn lemma_empty_input(caps: Capabilities)
    ensures
        parse_spec(caps, Seq::<char>::empty()) is None,
{
}

/// The earliest accepting format wins: if the format at position `ia` of
/// the enabled order accepts `s`, the parse result is the decoding of a
/// format at some position `k <= ia`, every format before position `k`
/// having rejected `s`. A format listed after an accepting one never
/// supplies the result.
pub proof fn lemma_ordered_fallback(caps: Capabilities, s: Seq<char>, ia: int)
    requires
        s.len() > 0,
        0 <= ia < supported_spec(caps).len(),
        spec_decode(supported_spec(caps)[ia], s) is Some,
    ensures
        exists|k: int|
            0 <= k <= ia && first_accepting(supported_spec(caps), s) == Some(
                supported_spec(caps)[k],
            ) && parse_spec(caps, s) == spec_decode(supported_spec(caps)[k], s) && (forall|j: int|
                0 <= j < k ==> spec_decode(supported_spec(caps)[j], s) is None),
{
    lemma_first_accepting_bounded(supported_spec(caps), s, ia);
}

/// Helper for the fallback laws: scanning `fs` stops at or before any
/// accepting position, and everything before the stopping point rejects.
proof fn lemma_first_accepting_bounded(fs: Seq<Format>, s: Seq<char>, ia: int)
    requires
        0 <= ia < fs.len(),
        spec_decode(fs[ia], s) is Some,
    ensures
        exists|k: int|
            0 <= k <= ia && first_accepting(fs, s) == Some(fs[k]) && (forall|j: int|
                0 <= j < k ==> spec_decode(fs[j], s) is None) && spec_decode(fs[k], s) is Some,
    decreases fs.len(),
{
    if spec_decode(fs[0], s) is Some {
        let k: int = 0;
        assert(0 <= k <= ia && first_accepting(fs, s) == Some(fs[k]) && (forall|j: int|
            0 <= j < k ==> spec_decode(fs[j], s) is None) && spec_decode(fs[k], s) is Some);
    } else {
        lemma_first_accepting_bounded(fs.drop_first(), s, ia - 1);
        let k0 = choose|k0: int|
            0 <= k0 <= ia - 1 && first_accepting(fs.drop_first(), s) == Some(fs.drop_first()[k0])
                && (forall|j: int| 0 <= j < k0 ==> spec_decode(fs.drop_first()[j], s) is None)
                && spec_decode(fs.drop_first()[k0], s) is Some;
        let k = k0 + 1;
        assert(fs[k] == fs.drop_first()[k0]);
        assert(forall|j: int| 0 <= j < k ==> spec_decode(fs[j], s) is None) by {
            assert(forall|j: int|
                1 <= j < k ==> fs[j] == fs.drop_first()[j - 1] && spec_decode(
                    fs.drop_first()[j - 1],
                    s,
                ) is None);
        }
        assert(0 <= k <= ia && first_accepting(fs, s) == Some(fs[k]) && (forall|j: int|
            0 <= j < k ==> spec_decode(fs[j], s) is None) && spec_decode(fs[k], s) is Some);
    }
}

/// Total failure is exactly total rejection: parsing yields nothing if and
/// only if the input is empty or every enabled format rejects it — in
/// particular, nothing ever parses when no format is enabled.
pub proof fn lemma_no_codec_matched(caps: Capabilities, s: Seq<char>)
    ensures
        parse_spec(caps, s) is None <==> (s.len() == 0 || forall|j: int|
            0 <= j < supported_spec(caps).len() ==> spec_decode(
                supported_spec(caps)[j],
                s,
            ) is None),
{
    let fs = supported_spec(caps);
    if s.len() > 0 {
        if exists|j: int| 0 <= j < fs.len() && spec_decode(fs[j], s) is Some {
            let ia = choose|j: int| 0 <= j < fs.len() && spec_decode(fs[j], s) is Some;
            lemma_first_accepting_bounded(fs, s, ia);
        } else {
            lemma_first_accepting_none(fs, s);
        }
    }
}

/// Helper: the scan comes back empty exactly when every format rejects.
proof fn lemma_first_accepting_none(fs: Seq<Format>, s: Seq<char>)
    ensures
        first_accepting(fs, s) is None <==> (forall|j: int|
            0 <= j < fs.len() ==> spec_decode(fs[j], s) is None),
    decreases fs.len(),
{
    if fs.len() > 0 {
        let rest = fs.drop_first();
        lemma_first_accepting_none(rest, s);
        assert(forall|j: int| 0 <= j < rest.len() ==> rest[j] == fs[j + 1]);
        if spec_decode(fs[0], s) is None {
            if forall|j: int| 0 <= j < rest.len() ==> spec_decode(rest[j], s) is None {
                assert forall|j: int| 0 <= j < fs.len() implies spec_decode(fs[j], s) is None by {
                    if j > 0 {
                        assert(rest[j - 1] == fs[j]);
                        assert(spec_decode(rest[j - 1], s) is None);
                    }
                }
            } else {
                let j = choose|j: int|
                    0 <= j < rest.len() && !(spec_decode(rest[j], s) is None);
                assert(fs[j + 1] == rest[j]);
                assert(!(spec_decode(fs[j + 1], s) is None));
            }
        }
    }
}

/// Round trip through the dispatcher: if a format `f`, enabled at position
/// `i` of the enabled order, decodes the text it encoded back to the
/// original map — the codec contract — and every enabled format before it
/// rejects that text, then parsing the encoded text returns the original
/// map.
pub proof fn lemma_round_trip(
    caps: Capabilities,
    f: Format,
    m: Map<String, serde_json::Value>,
    s: Seq<char>,
    i: int,
)
    requires
        0 <= i < supported_spec(caps).len(),
        supported_spec(caps)[i] == f,
        spec_encode(f, m) == Some(s),
        spec_decode(f, s) == Some(m),
        forall|j: int| 0 <= j < i ==> spec_decode(supported_spec(caps)[j], s) is None,
        s.len() > 0,
    ensures
        parse_spec(caps, s) == Some(m),
{
    lemma_first_accepting_at(supported_spec(caps), s, i);
}

/// Helper: when everything before position `i` rejects `s` and position `i`
/// accepts it, the scan stops exactly there.
proof fn lemma_first_accepting_at(fs: Seq<Format>, s: Seq<char>, i: int)
    requires
        0 <= i < fs.len(),
        spec_decode(fs[i], s) is Some,
        forall|j: int| 0 <= j < i ==> spec_decode(fs[j], s) is None,
    ensures
        first_accepting(fs, s) == Some(fs[i]),
    decreases i,
{
    if i > 0 {
        assert(forall|j: int|
            0 <= j < i - 1 ==> fs.drop_first()[j] == fs[j + 1] && spec_decode(
                fs[j + 1],
                s,
            ) is None);
        lemma_first_accepting_at(fs.drop_first(), s, i - 1);
        assert(fs.drop_first()[i - 1] == fs[i]);
    }
}

} // verus!
