use std::collections::BTreeMap;

use format_dispatch::codec::{decode, encode, LanguageMap};
use format_dispatch::format::Capabilities;
use format_dispatch::format::Format;

fn all_caps() -> Capabilities {
    Capabilities { cbor: true, json: true, yaml: true, toml: true }
}

fn no_caps() -> Capabilities {
    Capabilities { cbor: false, json: false, yaml: false, toml: false }
}

fn sample_map() -> LanguageMap {
    serde_json::from_str::<LanguageMap>("{\"Rust\":{\"blanks\":1,\"code\":10,\"comments\":2}}")
        .unwrap()
}

#[test]
fn empty_input_never_parses() {
    assert!(Format::parse("", &all_caps()).is_none());
    assert!(Format::parse("", &no_caps()).is_none());
    assert!(Format::parse("", &Capabilities { cbor: false, json: true, yaml: true, toml: false })
        .is_none());
}

#[test]
fn nothing_enabled_never_parses() {
    assert!(Format::parse("{\"Rust\":{\"code\":10}}", &no_caps()).is_none());
}

#[test]
fn minimal_json_parses_with_json_and_yaml() {
    let caps = Capabilities { cbor: false, json: true, yaml: true, toml: false };
    let parsed = Format::parse("{\"Rust\":{\"code\":10}}", &caps).unwrap();
    assert_eq!(parsed.len(), 1);
    assert!(parsed.contains_key("Rust"));
}

#[test]
fn toml_text_fails_with_json_and_yaml() {
    let caps = Capabilities { cbor: false, json: true, yaml: true, toml: false };
    assert!(Format::parse("a = 1\nb = 2", &caps).is_none());
    assert!(toml::from_str::<LanguageMap>("a = 1\nb = 2").is_ok());
}

#[test]
fn round_trip_json() {
    let caps = Capabilities { cbor: false, json: true, yaml: false, toml: false };
    let map = sample_map();
    let text = Format::Json.print(&map).unwrap();
    assert_eq!(Format::parse(&text, &caps), Some(map));
}

#[test]
fn round_trip_yaml() {
    let caps = Capabilities { cbor: false, json: false, yaml: true, toml: false };
    let map = sample_map();
    let text = Format::Yaml.print(&map).unwrap();
    assert_eq!(Format::parse(&text, &caps), Some(map));
}

#[test]
fn round_trip_toml() {
    let caps = Capabilities { cbor: false, json: false, yaml: false, toml: true };
    let map = sample_map();
    let text = Format::Toml.print(&map).unwrap();
    assert_eq!(Format::parse(&text, &caps), Some(map));
}

#[test]
fn round_trip_cbor() {
    let caps = Capabilities { cbor: true, json: false, yaml: false, toml: false };
    let map = sample_map();
    let text = Format::Cbor.print(&map).unwrap();
    assert!(text.chars().all(|c| c.is_ascii_hexdigit()));
    assert_eq!(Format::parse(&text, &caps), Some(map));
}

#[test]
fn round_trip_every_format_with_everything_enabled() {
    // cbor text is not valid JSON, YAML-as-map or TOML, and the textual
    // formats are never valid hex pairs, so each round trip is unambiguous.
    let caps = all_caps();
    let map = sample_map();
    for f in [Format::Cbor, Format::Json, Format::Yaml, Format::Toml] {
        let text = f.print(&map).unwrap();
        assert_eq!(Format::parse(&text, &caps), Some(map.clone()));
    }
}

#[test]
fn ordered_fallback_prefers_json_over_yaml() {
    // Valid under both enabled codecs; declaration order says JSON decides.
    let caps = all_caps();
    let text = "{\"Rust\":{\"code\":10}}";
    let via_json = serde_json::from_str::<LanguageMap>(text).unwrap();
    assert_eq!(Format::parse(text, &caps), Some(via_json));
}

#[test]
fn cbor_empty_map_is_a0() {
    let empty = LanguageMap::new();
    assert_eq!(Format::Cbor.print(&empty).unwrap(), "a0");
}

#[test]
fn json_empty_map_is_braces() {
    let empty = LanguageMap::new();
    assert_eq!(Format::Json.print(&empty).unwrap(), "{}");
}

#[test]
fn cbor_decode_rejects_bad_hex() {
    assert!(decode(Format::Cbor, "zz").is_none());
    assert!(decode(Format::Cbor, "a").is_none());
    assert_eq!(decode(Format::Cbor, "a0"), Some(LanguageMap::new()));
}

#[test]
fn decode_one_format_only_touches_that_format() {
    let map = sample_map();
    let json_text = encode(Format::Json, &map).unwrap();
    assert!(decode(Format::Json, &json_text).is_some());
    assert!(decode(Format::Cbor, &json_text).is_none());
    assert!(decode(Format::Toml, &json_text).is_none());
}

#[test]
fn encode_error_names_the_format() {
    // TOML has no null, so a null record cannot be encoded under it.
    let map = serde_json::from_str::<LanguageMap>("{\"Rust\":null}").unwrap();
    let err = Format::Toml.print(&map).unwrap_err();
    assert_eq!(err.format, Format::Toml);
}

#[test]
fn non_map_documents_do_not_parse() {
    let caps = all_caps();
    assert!(Format::parse("[1,2,3]", &caps).is_none());
    assert!(Format::parse("12", &caps).is_none());
    assert!(Format::parse("\"Rust\"", &caps).is_none());
}

#[test]
fn stats_maps_merge_by_key() {
    // The aggregate a caller keeps is a plain map; combining two parses is
    // the caller's business, not the dispatcher's.
    let caps = all_caps();
    let mut total: BTreeMap<String, serde_json::Value> = BTreeMap::new();
    let a = Format::parse("{\"Rust\":{\"code\":10}}", &caps).unwrap();
    let b = Format::parse("{\"C\":{\"code\":7}}", &caps).unwrap();
    total.extend(a);
    total.extend(b);
    assert_eq!(total.len(), 2);
    assert!(total.contains_key("Rust") && total.contains_key("C"));
}
