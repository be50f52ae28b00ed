//! The format catalog and the capability set: which serialization formats
//! exist, which ones the current configuration enables, and how a free-text
//! format name resolves to a `Format` value.

use vstd::prelude::*;

verus! {

/// One serialization format the dispatcher knows about. The full catalog is
/// fixed; whether a variant is usable in a given run is recorded separately
/// by a [`Capabilities`] value, never by the type itself.
#[derive(Clone, Copy, Debug, PartialEq, Eq, Structural)]
pub enum Format {
    Cbor,
    Json,
    Yaml,
    Toml,
}

/// The capability set: one flag per format, fixed at configuration time.
/// The dispatcher only ever attempts formats whose flag is set.
#[derive(Clone, Copy, Debug, PartialEq, Eq, Structural)]
pub struct Capabilities {
    pub cbor: bool,
    pub json: bool,
    pub yaml: bool,
    pub toml: bool,
}

impl Capabilities {
    /// Whether this capability set enables `f`.
    pub open spec fn enabled(self, f: Format) -> bool {
        match f {
            Format::Cbor => self.cbor,
            Format::Json => self.json,
            Format::Yaml => self.yaml,
            Format::Toml => self.toml,
        }
    }

    pub fn is_enabled(&self, f: Format) -> (r: bool)
        ensures
            r == self.enabled(f),
    {
        match f {
            Format::Cbor => self.cbor,
            Format::Json => self.json,
            Format::Yaml => self.yaml,
            Format::Toml => self.toml,
        }
    }
}

/// The canonical catalog order. It is also the priority order in which the
/// dispatcher attempts to decode an input: the earliest enabled format that
/// accepts the input wins.
pub open spec fn catalog() -> Seq<Format> {
    seq![Format::Cbor, Format::Json, Format::Yaml, Format::Toml]
}

/// The canonical name of each format.
pub open spec fn spec_name(f: Format) -> Seq<char> {
    match f {
        Format::Cbor => "cbor"@,
        Format::Json => "json"@,
        Format::Yaml => "yaml"@,
        Format::Toml => "toml"@,
    }
}

/// The enabled formats, in catalog order.
pub open spec fn supported_spec(caps: Capabilities) -> Seq<Format> {
    catalog().filter(|f: Format| caps.enabled(f))
}

/// The disabled formats, in catalog order.
pub open spec fn not_supported_spec(caps: Capabilities) -> Seq<Format> {
    catalog().filter(|f: Format| !caps.enabled(f))
}

/// The names of a sequence of formats, in the same order.
pub open spec fn names_of(fs: Seq<Format>) -> Seq<Seq<char>> {
    fs.map_values(|f: Format| spec_name(f))
}

/// The views of a sequence of string slices, in the same order.
pub open spec fn seq_str_views(s: Seq<&str>) -> Seq<Seq<char>> {
    s.map_values(|t: &str| t@)
}

impl Format {
    /// The canonical name of this format.
    pub fn name(&self) -> (r: &'static str)
        ensures
            r@ == spec_name(*self),
    {
        match self {
            Format::Cbor => "cbor",
            Format::Json => "json",
            Format::Yaml => "yaml",
            Format::Toml => "toml",
        }
    }

    /// Every format name the dispatcher knows about, in catalog order,
    /// whatever the configuration enables.
    pub fn all() -> (r: Vec<&'static str>)
        ensures
            seq_str_views(r@) == names_of(catalog()),
    {
        let mut v: Vec<&'static str> = Vec::new();
        v.push("cbor");
        v.push("json");
        v.push("yaml");
        v.push("toml");
        proof {
            assert(seq_str_views(v@) =~= names_of(catalog()));
        }
        v
    }

    /// The names of the formats that `caps` enables, in catalog order.
    pub fn supported(caps: &Capabilities) -> (r: Vec<&'static str>)
        ensures
            seq_str_views(r@) == names_of(supported_spec(*caps)),
    {
        let mut v: Vec<&'static str> = Vec::new();
        if caps.cbor {
            v.push("cbor");
        }
        if caps.json {
            v.push("json");
        }
        if caps.yaml {
            v.push("yaml");
        }
        if caps.toml {
            v.push("toml");
        }
        proof {
            reveal_with_fuel(Seq::<_>::filter, 5);
            assert(seq_str_views(v@) =~= names_of(supported_spec(*caps)));
        }
        v
    }

    /// The names of the formats that `caps` disables, in catalog order.
    pub fn not_supported(caps: &Capabilities) -> (r: Vec<&'static str>)
        ensures
            seq_str_views(r@) == names_of(not_supported_spec(*caps)),
    {
        let mut v: Vec<&'static str> = Vec::new();
        if !caps.cbor {
            v.push("cbor");
        }
        if !caps.json {
            v.push("json");
        }
        if !caps.yaml {
            v.push("yaml");
        }
        if !caps.toml {
            v.push("toml");
        }
        proof {
            reveal_with_fuel(Seq::<_>::filter, 5);
            assert(seq_str_views(v@) =~= names_of(not_supported_spec(*caps)));
        }
        v
    }
}

/// Why a free-text format name failed to resolve to a usable [`Format`].
#[derive(Debug, PartialEq, Eq)]
pub enum FromNameError {
    /// The name is in the catalog, but this configuration disables that
    /// format: a configuration change, not a typo, is what fixes it.
    Configuration { format: Format },
    /// The name is not in the catalog at all.
    Unknown { name: String },
}

/// Resolves a free-text format name, case sensitively, against the catalog.
/// Only an enabled format resolves; a known but disabled name reports a
/// configuration error, an unknown name reports the name itself. This is
/// the single gate in front of encoding: a caller that resolves a name here
/// can only ever hand an enabled format to the encoder.
pub fn from_name(name: &str, caps: &Capabilities) -> (r: Result<Format, FromNameError>)
    ensures
        r matches Ok(f) ==> caps.enabled(f) && spec_name(f) == name@,
        r matches Err(FromNameError::Configuration { format }) ==> !caps.enabled(format)
            && spec_name(format) == name@,
        r matches Err(FromNameError::Unknown { name: n }) ==> n@ == name@ && (forall|f: Format|
            spec_name(f) != name@),
{
    let owned = name.to_owned();
    if owned == "cbor".to_owned() {
        if caps.cbor {
            Ok(Format::Cbor)
        } else {
            Err(FromNameError::Configuration { format: Format::Cbor })
        }
    } else if owned == "json".to_owned() {
        if caps.json {
            Ok(Format::Json)
        } else {
            Err(FromNameError::Configuration { format: Format::Json })
        }
    } else if owned == "yaml".to_owned() {
        if caps.yaml {
            Ok(Format::Yaml)
        } else {
            Err(FromNameError::Configuration { format: Format::Yaml })
        }
    } else if owned == "toml".to_owned() {
        if caps.toml {
            Ok(Format::Toml)
        } else {
            Err(FromNameError::Configuration { format: Format::Toml })
        }
    } else {
        Err(FromNameError::Unknown { name: owned })
    }
}

/// The format names are pairwise distinct, so a name picks out at most one
/// format.
pub proof fn lemma_name_injective()
    ensures
        forall|f: Format, g: Format| spec_name(f) == spec_name(g) ==> f == g,
{
    reveal_strlit("cbor");
    reveal_strlit("json");
    reveal_strlit("yaml");
    reveal_strlit("toml");
    assert forall|f: Format, g: Format| spec_name(f) == spec_name(g) implies f == g by {
        if f != g {
            assert(spec_name(f)[0] != spec_name(g)[0]);
        }
    }
}

/// The catalog partition law: the enabled and disabled listings each keep
/// catalog order by construction, are disjoint, and together hold exactly
/// the catalog; so the disabled listing is the catalog minus the enabled
/// formats, both at the format level and at the name level.
pub proof fn lemma_catalog_partition(caps: Capabilities)
    ensures
        supported_spec(caps) == catalog().filter(|f: Format| caps.enabled(f)),
        not_supported_spec(caps) == catalog().filter(|f: Format| !caps.enabled(f)),
        forall|f: Format| #[trigger]
            supported_spec(caps).contains(f) <==> catalog().contains(f) && caps.enabled(f),
        forall|f: Format| #[trigger]
            not_supported_spec(caps).contains(f) <==> catalog().contains(f)
                && !supported_spec(caps).contains(f),
        supported_spec(caps).len() + not_supported_spec(caps).len() == catalog().len(),
        forall|n: Seq<char>| #[trigger]
            names_of(not_supported_spec(caps)).contains(n) <==> names_of(catalog()).contains(n)
                && !names_of(supported_spec(caps)).contains(n),
{
    reveal_with_fuel(Seq::<_>::filter, 5);
    lemma_name_injective();
    let sup = supported_spec(caps);
    let ns = not_supported_spec(caps);
    assert forall|n: Seq<char>| #[trigger]
        names_of(ns).contains(n) implies names_of(catalog()).contains(n) && !names_of(
        sup,
    ).contains(n) by {
        let i = choose|i: int| 0 <= i < ns.len() && names_of(ns)[i] == n;
        assert(spec_name(ns[i]) == n);
        assert(catalog().contains(ns[i]));
        let ci = choose|ci: int| 0 <= ci < catalog().len() && catalog()[ci] == ns[i];
        assert(names_of(catalog())[ci] == n);
        if names_of(sup).contains(n) {
            let j = choose|j: int| 0 <= j < sup.len() && names_of(sup)[j] == n;
            assert(spec_name(sup[j]) == n);
            assert(sup[j] == ns[i]);
            assert(caps.enabled(sup[j]));
            assert(!caps.enabled(ns[i]));
            assert(false);
        }
    }
    assert forall|n: Seq<char>|
        names_of(catalog()).contains(n) && !names_of(sup).contains(n) implies #[trigger] names_of(
        ns,
    ).contains(n) by {
        let ci = choose|ci: int| 0 <= ci < catalog().len() && names_of(catalog())[ci] == n;
        let f = catalog()[ci];
        assert(spec_name(f) == n);
        if caps.enabled(f) {
            assert(sup.contains(f));
            let j = choose|j: int| 0 <= j < sup.len() && sup[j] == f;
            assert(names_of(sup)[j] == n);
            assert(false);
        } else {
            assert(ns.contains(f));
            let j = choose|j: int| 0 <= j < ns.len() && ns[j] == f;
            assert(names_of(ns)[j] == n);
        }
    }
}

} // verus!
