use darwin_rebuild::flake_ref::parse_flake_ref;

#[test]
fn parses_full_reference() {
    let p = parse_flake_ref("https://example.com/repo?x=1#mac").unwrap();
    assert_eq!(p.scheme, "https:");
    assert_eq!(p.authority, "//example.com");
    assert_eq!(p.path, "/repo");
    assert_eq!(p.query, "?x=1");
    assert_eq!(p.fragment.as_deref(), Some("mac"));
}

#[test]
fn parses_scheme_and_path() {
    let p = parse_flake_ref("github:user/repo#host").unwrap();
    assert_eq!(p.scheme, "github:");
    assert_eq!(p.authority, "");
    assert_eq!(p.path, "user/repo");
    assert_eq!(p.query, "");
    assert_eq!(p.fragment.as_deref(), Some("host"));
}

#[test]
fn parses_relative_path_reference() {
    let p = parse_flake_ref("./assets#darwin-rebuild-rs").unwrap();
    assert_eq!(p.scheme, "");
    assert_eq!(p.authority, "");
    assert_eq!(p.path, "./assets");
    assert_eq!(p.query, "");
    assert_eq!(p.fragment.as_deref(), Some("darwin-rebuild-rs"));
}

#[test]
fn empty_reference_is_none() {
    assert!(parse_flake_ref("").is_none());
}

#[test]
fn parses_bare_path() {
    let p = parse_flake_ref("flake").unwrap();
    assert_eq!(p.scheme, "");
    assert_eq!(p.authority, "");
    assert_eq!(p.path, "flake");
    assert_eq!(p.query, "");
    assert_eq!(p.fragment, None);
}

#[test]
fn parses_empty_fragment() {
    let p = parse_flake_ref("x#").unwrap();
    assert_eq!(p.path, "x");
    assert_eq!(p.fragment.as_deref(), Some(""));
}

#[test]
fn parses_authority_without_scheme() {
    let p = parse_flake_ref("//host/p").unwrap();
    assert_eq!(p.scheme, "");
    assert_eq!(p.authority, "//host");
    assert_eq!(p.path, "/p");
}

#[test]
fn leading_colon_goes_to_path() {
    let p = parse_flake_ref(":abc").unwrap();
    assert_eq!(p.scheme, "");
    assert_eq!(p.path, ":abc");
}

#[test]
fn colon_after_slash_is_no_scheme() {
    let p = parse_flake_ref("a/b:c").unwrap();
    assert_eq!(p.scheme, "");
    assert_eq!(p.path, "a/b:c");
}

#[test]
fn reconstructs_base_without_fragment() {
    let p = parse_flake_ref("https://example.com/repo?x=1#mac").unwrap();
    assert_eq!(p.reconstruct_base(), "https://example.com/repo?x=1");
}

#[test]
fn reparsing_base_yields_same_components() {
    for input in [
        "https://example.com/repo?x=1#mac",
        "github:user/repo#host",
        "./assets#darwin-rebuild-rs",
        "//host/p?q",
        ":abc",
        "a/b:c",
        "x#",
        "path",
    ] {
        let p = parse_flake_ref(input).unwrap();
        let base = p.reconstruct_base();
        if base.is_empty() {
            continue;
        }
        let q = parse_flake_ref(&base).unwrap();
        assert_eq!(q.scheme, p.scheme);
        assert_eq!(q.authority, p.authority);
        assert_eq!(q.path, p.path);
        assert_eq!(q.query, p.query);
        assert_eq!(q.fragment, None);
    }
}
