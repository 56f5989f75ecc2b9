use darwin_rebuild::metadata::{
    apply_submodules, attribute_path, parse_flake_metadata, resolve_attr_name, resolve_reference,
    validate_metadata, FlakeMetadata, MetadataField, ResolveError,
};

#[test]
fn validates_boolean_submodules() {
    let m = FlakeMetadata {
        url: MetadataField::Text("git://x".to_string()),
        submodules: MetadataField::Flag(true),
    };
    let (url, submodules) = validate_metadata(m).unwrap();
    assert_eq!(url, "git://x");
    assert!(submodules);
}

#[test]
fn absent_submodules_is_false() {
    let m = FlakeMetadata {
        url: MetadataField::Text("git://x".to_string()),
        submodules: MetadataField::Absent,
    };
    let (url, submodules) = validate_metadata(m).unwrap();
    assert_eq!(url, "git://x");
    assert!(!submodules);
}

#[test]
fn absent_url_fails() {
    let m = FlakeMetadata { url: MetadataField::Absent, submodules: MetadataField::Absent };
    assert_eq!(validate_metadata(m).unwrap_err(), ResolveError::UrlNotAString);
}

#[test]
fn empty_url_fails() {
    let m = FlakeMetadata {
        url: MetadataField::Text(String::new()),
        submodules: MetadataField::Flag(false),
    };
    assert_eq!(validate_metadata(m).unwrap_err(), ResolveError::UrlEmpty);
}

#[test]
fn non_boolean_submodules_fails() {
    let m = FlakeMetadata {
        url: MetadataField::Text("git://x".to_string()),
        submodules: MetadataField::Text("true".to_string()),
    };
    assert_eq!(validate_metadata(m).unwrap_err(), ResolveError::SubmodulesNotBoolean);
    let m = FlakeMetadata {
        url: MetadataField::Text("git://x".to_string()),
        submodules: MetadataField::Other,
    };
    assert_eq!(validate_metadata(m).unwrap_err(), ResolveError::SubmodulesNotBoolean);
}

#[test]
fn submodules_appended_with_question_mark() {
    assert_eq!(apply_submodules("git://x".to_string(), true), "git://x?submodules=1");
}

#[test]
fn submodules_appended_with_ampersand() {
    assert_eq!(apply_submodules("git://x?a=1".to_string(), true), "git://x?a=1&submodules=1");
}

#[test]
fn no_submodules_leaves_url_alone() {
    assert_eq!(apply_submodules("git://x?a=1".to_string(), false), "git://x?a=1");
}

#[test]
fn fragment_wins_over_hostname() {
    let r = resolve_attr_name(&Some("foo".to_string()), Some("bar".to_string()));
    assert_eq!(r.unwrap(), "foo");
}

#[test]
fn hostname_stands_in_for_missing_fragment() {
    let r = resolve_attr_name(&None, Some("bar".to_string()));
    assert_eq!(r.unwrap(), "bar");
}

#[test]
fn missing_hostname_is_fatal() {
    assert_eq!(resolve_attr_name(&None, None).unwrap_err(), ResolveError::HostnameUnavailable);
    assert_eq!(
        resolve_attr_name(&None, Some(String::new())).unwrap_err(),
        ResolveError::HostnameUnavailable
    );
}

#[test]
fn attribute_path_is_namespaced() {
    assert_eq!(attribute_path("foo"), "darwinConfigurations.foo");
    assert_eq!(attribute_path("bar"), "darwinConfigurations.bar");
}

#[test]
fn resolves_reference_with_submodules() {
    let m = FlakeMetadata {
        url: MetadataField::Text("git://x".to_string()),
        submodules: MetadataField::Flag(true),
    };
    let r = resolve_reference(m, "mac").unwrap();
    assert_eq!(r.flake, "git://x?submodules=1");
    assert_eq!(r.flake_attr, "darwinConfigurations.mac");
}

#[test]
fn resolution_failure_reports_error() {
    let m = FlakeMetadata { url: MetadataField::Absent, submodules: MetadataField::Flag(true) };
    assert_eq!(resolve_reference(m, "mac").unwrap_err(), ResolveError::UrlNotAString);
}

#[test]
fn reads_metadata_fields_from_json() {
    let bytes = b"{\"url\":\"git://x\",\"resolved\":{\"submodules\":true}}";
    let m = parse_flake_metadata(bytes).unwrap();
    let (url, submodules) = validate_metadata(m).unwrap();
    assert_eq!(url, "git://x");
    assert!(submodules);
}

#[test]
fn null_submodules_reads_as_false() {
    let bytes = b"{\"url\":\"git://x\",\"resolved\":{\"submodules\":null}}";
    let m = parse_flake_metadata(bytes).unwrap();
    let (_, submodules) = validate_metadata(m).unwrap();
    assert!(!submodules);
}

#[test]
fn missing_resolved_object_reads_as_false() {
    let bytes = b"{\"url\":\"git://x\"}";
    let m = parse_flake_metadata(bytes).unwrap();
    let (_, submodules) = validate_metadata(m).unwrap();
    assert!(!submodules);
}

#[test]
fn numeric_url_is_rejected() {
    let bytes = b"{\"url\":7}";
    let m = parse_flake_metadata(bytes).unwrap();
    assert_eq!(validate_metadata(m).unwrap_err(), ResolveError::UrlNotAString);
}

#[test]
fn malformed_json_is_rejected() {
    assert_eq!(parse_flake_metadata(b"not json").unwrap_err(), ResolveError::MetadataNotJson);
}
