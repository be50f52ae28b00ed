//! Diagnostic text: the explanation of a failed name resolution and the
//! report shown when no enabled format accepts an input. Every message is
//! built by verified string concatenation with an exact contract, so the
//! disabled-format listing is provably the disabled names in catalog order,
//! comma separated with no trailing separator.

use vstd::prelude::*;
use vstd::string::StringExecFns;
use crate::format::{
    catalog, names_of, not_supported_spec, seq_str_views, spec_name, Capabilities, Format,
    FromNameError,
};

verus! {

/// `parts` joined with `sep` between consecutive parts, no leading or
/// trailing separator.
pub open spec fn spec_join(parts: Seq<Seq<char>>, sep: Seq<char>) -> Seq<char>
    decreases parts.len(),
{
    if parts.len() == 0 {
        Seq::empty()
    } else if parts.len() == 1 {
        parts[0]
    } else {
        parts[0] + sep + spec_join(parts.drop_first(), sep)
    }
}

/// Appending one part extends a join by one separator and that part.
proof fn lemma_join_push(parts: Seq<Seq<char>>, sep: Seq<char>, x: Seq<char>)
    ensures
        spec_join(parts.push(x), sep) == if parts.len() == 0 {
            x
        } else {
            spec_join(parts, sep) + sep + x
        },
    decreases parts.len(),
{
    if parts.len() == 0 {
        assert(parts.push(x)[0] == x);
    } else {
        lemma_join_push(parts.drop_first(), sep, x);
        assert(parts.push(x).drop_first() =~= parts.drop_first().push(x));
        assert(parts.push(x)[0] == parts[0]);
        if parts.len() == 1 {
            assert(spec_join(parts.push(x), sep) == parts[0] + sep + x);
        } else {
            assert(parts[0] + sep + (spec_join(parts.drop_first(), sep) + sep + x) =~= (parts[0]
                + sep + spec_join(parts.drop_first(), sep)) + sep + x);
        }
    }
}

/// Joins string slices with `sep`, exactly as [`spec_join`] says.
pub fn join(parts: &Vec<&str>, sep: &str) -> (r: String)
    ensures
        r@ == spec_join(seq_str_views(parts@), sep@),
{
    let mut s = String::new();
    let mut i: usize = 0;
    while i < parts.len()
        invariant
            i <= parts.len(),
            s@ == spec_join(seq_str_views(parts@).take(i as int), sep@),
        decreases parts.len() - i,
    {
        if i > 0 {
            s.append(sep);
        }
        s.append(parts[i]);
        proof {
            let pv = seq_str_views(parts@);
            assert(pv.take(i as int).push(pv[i as int]) =~= pv.take(i as int + 1));
            lemma_join_push(pv.take(i as int), sep@, pv[i as int]);
        }
        i = i + 1;
    }
    proof {
        assert(seq_str_views(parts@).take(parts@.len() as int) =~= seq_str_views(parts@));
    }
    s
}

/// The explanation for a name that the catalog knows but this configuration
/// disables: it names the format, the feature that would enable it, and the
/// feature that enables every format.
pub open spec fn configuration_message_spec(f: Format) -> Seq<char> {
    "This build of format_dispatch was configured without any '"@ + spec_name(f)
        + "' serialization support, to enable serialization, rebuild with the features flag.\n\n    cargo install format_dispatch --features "@
        + spec_name(f)
        + "\n\nIf you want to enable all supported serialization formats, you can use the 'all' feature.\n\n    cargo install format_dispatch --features all\n"@
}

/// The explanation for a name outside the catalog: it repeats the name.
pub open spec fn unknown_message_spec(name: Seq<char>) -> Seq<char> {
    "'"@ + name + "' is not a supported serialization format"@
}

impl FromNameError {
    /// The user-facing explanation of this resolution failure.
    pub open spec fn message_spec(&self) -> Seq<char> {
        match self {
            FromNameError::Configuration { format } => configuration_message_spec(*format),
            FromNameError::Unknown { name } => unknown_message_spec(name@),
        }
    }

    /// Renders [`Self::message_spec`].
    pub fn message(&self) -> (r: String)
        ensures
            r@ == self.message_spec(),
    {
        match self {
            FromNameError::Configuration { format } => {
                let mut s = String::from_str(
                    "This build of format_dispatch was configured without any '",
                );
                s.append(format.name());
                s.append(
                    "' serialization support, to enable serialization, rebuild with the features flag.\n\n    cargo install format_dispatch --features ",
                );
                s.append(format.name());
                s.append(
                    "\n\nIf you want to enable all supported serialization formats, you can use the 'all' feature.\n\n    cargo install format_dispatch --features all\n",
                );
                proof {
                    assert(s@ =~= configuration_message_spec(*format));
                }
                s
            },
            FromNameError::Unknown { name } => {
                let mut s = String::from_str("'");
                s.append(name.as_str());
                s.append("' is not a supported serialization format");
                proof {
                    assert(s@ =~= unknown_message_spec(name@));
                }
                s
            },
        }
    }
}

/// The report shown when no enabled format accepts an input: the disabled
/// format names in catalog order, comma separated with no trailing space,
/// then the whole catalog and the configuration changes that widen a build.
pub open spec fn failure_report_spec(caps: Capabilities) -> Seq<char> {
    "\nThis build of format_dispatch was configured without serialization support for the following formats:\n\n    "@
        + spec_join(names_of(not_supported_spec(caps)), ", "@)
        + "\n\nYou may want to rebuild with any comma separated combination of "@ + spec_join(
        names_of(catalog()),
        ","@,
    ) + ":\n\n    cargo install format_dispatch --features "@ + spec_join(names_of(catalog()), ","@)
        + "\n\nOr use the 'all' feature:\n\n    cargo install format_dispatch --features all\n"@
}

/// The report for a failed parse, or `None` when every format is enabled
/// and there is no configuration gap to point at.
pub fn failure_report(caps: &Capabilities) -> (r: Option<String>)
    ensures
        r is Some <==> not_supported_spec(*caps).len() > 0,
        r matches Some(s) ==> s@ == failure_report_spec(*caps),
{
    let ns = Format::not_supported(caps);
    if ns.len() == 0 {
        proof {
            assert(names_of(not_supported_spec(*caps)).len() == 0);
        }
        return None;
    }
    let all = Format::all();
    let ns_joined = join(&ns, ", ");
    let all_joined = join(&all, ",");
    let mut s = String::from_str(
        "\nThis build of format_dispatch was configured without serialization support for the following formats:\n\n    ",
    );
    s.append(ns_joined.as_str());
    s.append("\n\nYou may want to rebuild with any comma separated combination of ");
    s.append(all_joined.as_str());
    s.append(":\n\n    cargo install format_dispatch --features ");
    s.append(all_joined.as_str());
    s.append("\n\nOr use the 'all' feature:\n\n    cargo install format_dispatch --features all\n");
    proof {
        assert(s@ =~= failure_report_spec(*caps));
    }
    Some(s)
}

} // verus!
