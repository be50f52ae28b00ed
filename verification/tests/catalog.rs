use format_dispatch::format::{from_name, Capabilities, Format, FromNameError};
use format_dispatch::report::{failure_report, join};

fn json_yaml_caps() -> Capabilities {
    Capabilities { cbor: false, json: true, yaml: true, toml: false }
}

#[test]
fn all_lists_the_whole_catalog_in_order() {
    assert_eq!(Format::all(), vec!["cbor", "json", "yaml", "toml"]);
}

#[test]
fn supported_and_not_supported_partition_the_catalog() {
    let combos = [
        (true, true, true, true),
        (false, false, false, false),
        (true, false, true, false),
        (false, true, true, false),
        (false, false, false, true),
    ];
    for (cbor, json, yaml, toml) in combos {
        let caps = Capabilities { cbor, json, yaml, toml };
        let all = Format::all();
        let sup = Format::supported(&caps);
        let not_sup = Format::not_supported(&caps);
        // The disabled listing is the catalog minus the enabled formats,
        // and both listings keep catalog order.
        let expect_not: Vec<&str> =
            all.iter().copied().filter(|n| !sup.contains(n)).collect();
        assert_eq!(not_sup, expect_not);
        let expect_sup: Vec<&str> =
            all.iter().copied().filter(|n| !not_sup.contains(n)).collect();
        assert_eq!(sup, expect_sup);
        assert_eq!(sup.len() + not_sup.len(), all.len());
    }
}

#[test]
fn supported_names_follow_the_flags() {
    let caps = json_yaml_caps();
    assert_eq!(Format::supported(&caps), vec!["json", "yaml"]);
    assert_eq!(Format::not_supported(&caps), vec!["cbor", "toml"]);
}

#[test]
fn supported_list_matches_supported_names() {
    let caps = json_yaml_caps();
    assert_eq!(Format::supported_list(&caps), vec![Format::Json, Format::Yaml]);
}

#[test]
fn from_name_resolves_enabled_formats() {
    let caps = json_yaml_caps();
    assert_eq!(from_name("json", &caps), Ok(Format::Json));
    assert_eq!(from_name("yaml", &caps), Ok(Format::Yaml));
    // An enabled resolved format can then encode any valid map.
    let map = serde_json::from_str("{\"Rust\":{\"code\":10}}").unwrap();
    let f = from_name("json", &caps).unwrap();
    assert!(f.print(&map).is_ok());
}

#[test]
fn from_name_reports_disabled_formats() {
    let caps = json_yaml_caps();
    let err = from_name("toml", &caps).unwrap_err();
    assert_eq!(err, FromNameError::Configuration { format: Format::Toml });
    assert!(err.message().contains("'toml'"));
    let err = from_name("cbor", &caps).unwrap_err();
    assert_eq!(err, FromNameError::Configuration { format: Format::Cbor });
}

#[test]
fn from_name_reports_unknown_names() {
    let caps = json_yaml_caps();
    let err = from_name("xml", &caps).unwrap_err();
    assert_eq!(err, FromNameError::Unknown { name: String::from("xml") });
    assert_eq!(err.message(), "'xml' is not a supported serialization format");
    assert!(matches!(
        from_name("JSON", &caps),
        Err(FromNameError::Unknown { .. })
    ));
}

#[test]
fn failure_report_lists_disabled_formats_comma_joined() {
    let caps = json_yaml_caps();
    let report = failure_report(&caps).unwrap();
    assert!(report.contains("cbor, toml"));
    assert!(report.contains("cbor,json,yaml,toml"));
}

#[test]
fn failure_report_is_empty_when_everything_is_enabled() {
    let caps = Capabilities { cbor: true, json: true, yaml: true, toml: true };
    assert!(failure_report(&caps).is_none());
}

#[test]
fn names_resolve_back_to_their_formats() {
    let caps = Capabilities { cbor: true, json: true, yaml: true, toml: true };
    for f in [Format::Cbor, Format::Json, Format::Yaml, Format::Toml] {
        assert_eq!(from_name(f.name(), &caps), Ok(f));
    }
}

#[test]
fn join_separates_without_trailing_text() {
    let parts = vec!["a", "b", "c"];
    assert_eq!(join(&parts, ", "), "a, b, c");
    let one = vec!["a"];
    assert_eq!(join(&one, ", "), "a");
    let none: Vec<&str> = Vec::new();
    assert_eq!(join(&none, ", "), "");
}
