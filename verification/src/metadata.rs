//! The metadata resolver: validates the loosely-typed key-value output of
//! the build tool's metadata subcommand, folds the submodule flag into the
//! locked URL's query, and resolves the target attribute name.
//!
//! The metadata arrives as bytes; a small trusted boundary turns them into a
//! [`FlakeMetadata`] holding plain values, and everything past that boundary
//! is verified.

use vstd::prelude::*;

use crate::strings::contains_char;

verus! {

use vstd::string::StringExecFns;

/// A field of the metadata output, reduced to what the resolver reads:
/// absent (or null), a boolean, a string, or anything else.
#[derive(Debug)]
pub enum MetadataField {
    /// The field is missing or null.
    Absent,
    /// The field is a boolean.
    Flag(bool),
    /// The field is a string.
    Text(String),
    /// The field has some other type.
    Other,
}

/// The two metadata fields the resolver reads: the locked `url` and the
/// nested `resolved.submodules` flag.
#[derive(Debug)]
pub struct FlakeMetadata {
    pub url: MetadataField,
    pub submodules: MetadataField,
}

/// Why a reference could not be resolved.
#[derive(Debug, Clone, Copy, PartialEq, Eq, Structural)]
pub enum ResolveError {
    /// No host name was available to stand in for a missing attribute.
    HostnameUnavailable,
    /// The metadata output was not well-formed structured data.
    MetadataNotJson,
    /// The metadata's `url` field was absent or not a string.
    UrlNotAString,
    /// The metadata's `url` field was an empty string.
    UrlEmpty,
    /// The metadata's `submodules` field was present but not a boolean.
    SubmodulesNotBoolean,
}

/// What validation of the metadata fields yields: the locked URL and the
/// submodule flag, or the error, exactly as the resolver contract demands.
/// The URL must be a nonempty string; a missing or null submodules field is
/// `false`; a submodules field of any other type than boolean is rejected.
pub open spec fn spec_validate(m: FlakeMetadata) -> Result<(Seq<char>, bool), ResolveError> {
    match m.url {
        MetadataField::Text(u) => if u@.len() == 0 {
            Err(ResolveError::UrlEmpty)
        } else {
            match m.submodules {
                MetadataField::Flag(b) => Ok((u@, b)),
                MetadataField::Absent => Ok((u@, false)),
                MetadataField::Text(_) => Err(ResolveError::SubmodulesNotBoolean),
                MetadataField::Other => Err(ResolveError::SubmodulesNotBoolean),
            }
        },
        MetadataField::Absent => Err(ResolveError::UrlNotAString),
        MetadataField::Flag(_) => Err(ResolveError::UrlNotAString),
        MetadataField::Other => Err(ResolveError::UrlNotAString),
    }
}

/// Validate the metadata fields: a nonempty string `url` and a boolean (or
/// absent) `submodules` flag, every other shape rejected.
pub fn validate_metadata(m: FlakeMetadata) -> (r: Result<(String, bool), ResolveError>)
    ensures
        r matches Ok(p) ==> (spec_validate(m) matches Ok(q) && p.0@ == q.0 && p.1 == q.1),
        r matches Err(e) ==> spec_validate(m) == Err::<(Seq<char>, bool), ResolveError>(e),
{
    match m.url {
        MetadataField::Text(u) => if u.as_str().is_empty() {
            Err(ResolveError::UrlEmpty)
        } else {
            match m.submodules {
                MetadataField::Flag(b) => Ok((u, b)),
                MetadataField::Absent => Ok((u, false)),
                MetadataField::Text(_) => Err(ResolveError::SubmodulesNotBoolean),
                MetadataField::Other => Err(ResolveError::SubmodulesNotBoolean),
            }
        },
        MetadataField::Absent => Err(ResolveError::UrlNotAString),
        MetadataField::Flag(_) => Err(ResolveError::UrlNotAString),
        MetadataField::Other => Err(ResolveError::UrlNotAString),
    }
}

/// The locked URL with the submodule flag folded into its query component:
/// untouched when the flag is off, extended with `submodules=1` through `&`
/// when a query exists and through `?` otherwise.
pub open spec fn spec_apply_submodules(url: Seq<char>, submodules: bool) -> Seq<char> {
    if !submodules {
        url
    } else if url.contains('?') {
        url + "&submodules=1"@
    } else {
        url + "?submodules=1"@
    }
}

/// Fold the submodule flag into the URL's query component.
pub fn apply_submodules(url: String, submodules: bool) -> (r: String)
    ensures
        r@ == spec_apply_submodules(url@, submodules),
{
    if !submodules {
        url
    } else if contains_char(url.as_str(), '?') {
        url.concat("&submodules=1")
    } else {
        url.concat("?submodules=1")
    }
}

/// With the submodule flag on, the folded reference always ends in the
/// `submodules=1` marker: after `&` when the URL already has a query, after
/// `?` otherwise; with the flag off the URL is untouched.
pub proof fn lemma_submodules_suffix(url: Seq<char>)
    ensures
        ({
            let r = spec_apply_submodules(url, true);
            let suffix = if url.contains('?') {
                "&submodules=1"@
            } else {
                "?submodules=1"@
            };
            r.len() == url.len() + suffix.len() && r.skip(url.len() as int) == suffix
        }),
        spec_apply_submodules(url, false) == url,
{
    let r = spec_apply_submodules(url, true);
    let suffix = if url.contains('?') {
        "&submodules=1"@
    } else {
        "?submodules=1"@
    };
    assert(r.skip(url.len() as int) =~= suffix);
}

/// The namespace under which this platform's configurations are exposed.
pub open spec fn spec_attr_namespace() -> Seq<char> {
    "darwinConfigurations."@
}

/// The fully-qualified attribute path for an attribute name.
pub fn attribute_path(attr: &str) -> (r: String)
    ensures
        r@ == spec_attr_namespace() + attr@,
{
    String::from_str("darwinConfigurations.").concat(attr)
}

/// The attribute name for a run: a captured fragment is used verbatim, the
/// host name never consulted; without a fragment the host name stands in,
/// and an absent or empty host name is a hard failure.
pub open spec fn spec_resolve_attr(
    fragment: Option<Seq<char>>,
    hostname: Option<Seq<char>>,
) -> Result<Seq<char>, ResolveError> {
    match fragment {
        Some(f) => Ok(f),
        None => match hostname {
            Some(h) => if h.len() > 0 {
                Ok(h)
            } else {
                Err(ResolveError::HostnameUnavailable)
            },
            None => Err(ResolveError::HostnameUnavailable),
        },
    }
}

/// Pick the attribute name from the reference's fragment, falling back to
/// the host name.
pub fn resolve_attr_name(fragment: &Option<String>, hostname: Option<String>) -> (r: Result<
    String,
    ResolveError,
>)
    ensures
        r matches Ok(a) ==> spec_resolve_attr(fragment.deep_view(), hostname.deep_view())
            == Ok::<Seq<char>, ResolveError>(a@),
        r matches Err(e) ==> spec_resolve_attr(fragment.deep_view(), hostname.deep_view())
            == Err::<Seq<char>, ResolveError>(e),
{
    match fragment {
        Some(f) => Ok(f.clone()),
        None => match hostname {
            Some(h) => if h.as_str().is_empty() {
                Err(ResolveError::HostnameUnavailable)
            } else {
                Ok(h)
            },
            None => Err(ResolveError::HostnameUnavailable),
        },
    }
}

/// A fragment settles the attribute name by itself: whatever any host-name
/// lookup would return, the result is the fragment, verbatim.
pub proof fn lemma_fragment_wins(f: Seq<char>, h1: Option<Seq<char>>, h2: Option<Seq<char>>)
    ensures
        spec_resolve_attr(Some(f), h1) == Ok::<Seq<char>, ResolveError>(f),
        spec_resolve_attr(Some(f), h1) == spec_resolve_attr(Some(f), h2),
{
}

/// Pick the attribute name from the reference's fragment; only when there
/// is none is the local host name looked up.
pub fn resolve_attr(fragment: &Option<String>) -> (r: Result<String, ResolveError>)
    ensures
        fragment matches Some(f) ==> (r matches Ok(a) && a@ == f@),
        fragment is None ==> (r matches Ok(a) ==> a@.len() > 0),
        fragment is None ==> (r matches Err(e) ==> e == ResolveError::HostnameUnavailable),
{
    match fragment {
        Some(_) => resolve_attr_name(fragment, None),
        None => {
            let hostname = crate::nix_commands::get_local_hostname();
            resolve_attr_name(fragment, hostname)
        },
    }
}

/// A reference resolved for a run: the canonical locked URL with the
/// submodule flag folded in, and the fully-qualified attribute path.
#[derive(Debug)]
pub struct ResolvedReference {
    pub flake: String,
    pub flake_attr: String,
}

/// The resolved reference built from validated metadata and an attribute
/// name, or the validation error.
pub open spec fn spec_resolve_reference(m: FlakeMetadata, attr: Seq<char>) -> Result<
    (Seq<char>, Seq<char>),
    ResolveError,
> {
    match spec_validate(m) {
        Ok(p) => Ok((spec_apply_submodules(p.0, p.1), spec_attr_namespace() + attr)),
        Err(e) => Err(e),
    }
}

/// Build the resolved reference for a run from the metadata fields and the
/// attribute name.
pub fn resolve_reference(m: FlakeMetadata, attr: &str) -> (r: Result<
    ResolvedReference,
    ResolveError,
>)
    ensures
        r matches Ok(rr) ==> (spec_resolve_reference(m, attr@) matches Ok(p) && rr.flake@ == p.0
            && rr.flake_attr@ == p.1),
        r matches Err(e) ==> spec_resolve_reference(m, attr@) == Err::<
            (Seq<char>, Seq<char>),
            ResolveError,
        >(e),
{
    match validate_metadata(m) {
        Ok((url, submodules)) => Ok(
            ResolvedReference {
                flake: apply_submodules(url, submodules),
                flake_attr: attribute_path(attr),
            },
        ),
        Err(e) => Err(e),
    }
}

// What the metadata bytes reduce to: `None` when they are not well-formed
// JSON, otherwise the top-level `url` field and the nested
// `resolved.submodules` field, each brought down to the shapes the resolver
// distinguishes.  The reduction depends on the bytes alone, so it is given
// this name rather than being written out.
pub uninterp spec fn spec_metadata_of(bytes: Seq<u8>) -> Option<FlakeMetadata>;

/// Relies on serde_json::from_slice and serde_json::Value::get: parses the
/// bytes as JSON and reduces the `url` and `resolved.submodules` fields to
/// plain values, one arm per variant.  The result is a function of the
/// bytes alone, named `spec_metadata_of`.
#[verifier::external_body]
fn metadata_of(bytes: &[u8]) -> (r: Option<FlakeMetadata>)
    ensures
        r == spec_metadata_of(bytes@),
{
    let v: serde_json::Value = serde_json::from_slice(bytes).ok()?;
    let field = |x: Option<&serde_json::Value>| match x {
        None => MetadataField::Absent,
        Some(serde_json::Value::Null) => MetadataField::Absent,
        Some(serde_json::Value::Bool(b)) => MetadataField::Flag(*b),
        Some(serde_json::Value::String(s)) => MetadataField::Text(s.clone()),
        Some(_) => MetadataField::Other,
    };
    Some(FlakeMetadata {
        url: field(v.get("url")),
        submodules: field(v.get("resolved").and_then(|r| r.get("submodules"))),
    })
}

/// Reduce the metadata subcommand's captured output to the two fields the
/// resolver reads: exactly the named reduction of the bytes, with output
/// that is not well-formed JSON a resolution error.
pub fn parse_flake_metadata(bytes: &[u8]) -> (r: Result<FlakeMetadata, ResolveError>)
    ensures
        r matches Ok(m) ==> spec_metadata_of(bytes@) == Some(m),
        r matches Err(e) ==> spec_metadata_of(bytes@) is None && e
            == ResolveError::MetadataNotJson,
{
    match metadata_of(bytes) {
        Some(m) => Ok(m),
        None => Err(ResolveError::MetadataNotJson),
    }
}

} // verus!
