//! The reference parser: decomposes a configuration-source reference into
//! scheme, authority, path, query and fragment following the URI-reference
//! grammar `(scheme:)? (//authority)? path (?query)? (#fragment)?`.
//!
//! Parsing is total: every string decomposes, and the parts concatenate back
//! to the input.  The scheme keeps its trailing ':', the authority its
//! leading "//" and the query its leading '?', so that the base reference is
//! rebuilt by plain concatenation; the fragment is stored without its '#'.

use vstd::prelude::*;

use crate::strings::{
    lemma_scan_len_is, lemma_scan_len_props, scan_from, scan_len, stops, substr_string, ScanKind,
};

verus! {

use vstd::string::StrSliceExecFns;
use vstd::string::StringExecFns;

/// The parts of a reference, at the specification level.
#[verifier::ext_equal]
pub struct RefParts {
    pub scheme: Seq<char>,
    pub authority: Seq<char>,
    pub path: Seq<char>,
    pub query: Seq<char>,
    pub fragment: Option<Seq<char>>,
}

/// Length of the scheme part of `s`, its ':' included: nonzero exactly when
/// the first delimiter of `s` is a ':' that is not the first character.
pub open spec fn spec_scheme_len(s: Seq<char>) -> nat {
    let k = scan_len(ScanKind::SchemeEnd, s);
    if k < s.len() && s[k as int] == ':' && k > 0 {
        (k + 1) as nat
    } else {
        0
    }
}

/// Length of the authority part of `r`, its leading "//" included, where `r`
/// is the input with the scheme removed.
pub open spec fn spec_authority_len(r: Seq<char>) -> nat {
    if r.len() >= 2 && r[0] == '/' && r[1] == '/' {
        (2 + scan_len(ScanKind::AuthorityEnd, r.skip(2))) as nat
    } else {
        0
    }
}

/// Length of the path part of `r`, where `r` is the input with scheme and
/// authority removed.
pub open spec fn spec_path_len(r: Seq<char>) -> nat {
    scan_len(ScanKind::PathEnd, r)
}

/// Length of the query part of `r`, its leading '?' included, where `r` is
/// the input with scheme, authority and path removed.
pub open spec fn spec_query_len(r: Seq<char>) -> nat {
    if r.len() > 0 && r[0] == '?' {
        (1 + scan_len(ScanKind::QueryEnd, r.skip(1))) as nat
    } else {
        0
    }
}

/// The decomposition of `s` into its five parts.
pub open spec fn spec_parse(s: Seq<char>) -> RefParts {
    let sl = spec_scheme_len(s) as int;
    let r1 = s.skip(sl);
    let al = spec_authority_len(r1) as int;
    let r2 = r1.skip(al);
    let pl = spec_path_len(r2) as int;
    let r3 = r2.skip(pl);
    let ql = spec_query_len(r3) as int;
    let r4 = r3.skip(ql);
    RefParts {
        scheme: s.take(sl),
        authority: r1.take(al),
        path: r2.take(pl),
        query: r3.take(ql),
        fragment: if r4.len() > 0 {
            Some(r4.skip(1))
        } else {
            None
        },
    }
}

/// The base reference: scheme, authority, path and query concatenated, the
/// fragment left out.
pub open spec fn spec_base(p: RefParts) -> Seq<char> {
    p.scheme + p.authority + p.path + p.query
}

/// The fragment as it stands in the reference: '#' followed by its text, or
/// nothing when there is none.
pub open spec fn frag_with_hash(f: Option<Seq<char>>) -> Seq<char> {
    match f {
        Some(f) => seq!['#'] + f,
        None => Seq::empty(),
    }
}

/// The four base parts lie within the input's length.
proof fn lemma_part_lens(s: Seq<char>)
    ensures
        ({
            let sl = spec_scheme_len(s) as int;
            let r1 = s.skip(sl);
            let al = spec_authority_len(r1) as int;
            let r2 = r1.skip(al);
            let pl = spec_path_len(r2) as int;
            let r3 = r2.skip(pl);
            let ql = spec_query_len(r3) as int;
            sl + al + pl + ql <= s.len() && 0 <= sl && 0 <= al && 0 <= pl && 0 <= ql
        }),
{
    let sl = spec_scheme_len(s) as int;
    lemma_scan_len_props(ScanKind::SchemeEnd, s);
    let r1 = s.skip(sl);
    let al = spec_authority_len(r1) as int;
    lemma_scan_len_props(ScanKind::AuthorityEnd, r1.skip(2));
    let r2 = r1.skip(al);
    let pl = spec_path_len(r2) as int;
    lemma_scan_len_props(ScanKind::PathEnd, r2);
    let r3 = r2.skip(pl);
    let ql = spec_query_len(r3) as int;
    lemma_scan_len_props(ScanKind::QueryEnd, r3.skip(1));
}

/// Parsing loses nothing: the parts, with the fragment's '#' restored,
/// concatenate back to the input.
pub proof fn lemma_parse_reconstructs(s: Seq<char>)
    ensures
        ({
            let p = spec_parse(s);
            s == spec_base(p) + frag_with_hash(p.fragment)
        }),
{
    let sl = spec_scheme_len(s) as int;
    let r1 = s.skip(sl);
    let al = spec_authority_len(r1) as int;
    let r2 = r1.skip(al);
    let pl = spec_path_len(r2) as int;
    let r3 = r2.skip(pl);
    let ql = spec_query_len(r3) as int;
    let r4 = r3.skip(ql);
    lemma_part_lens(s);
    let p = spec_parse(s);
    assert(spec_base(p) =~= s.take(sl + al + pl + ql));
    if r4.len() > 0 {
        lemma_fragment_starts_with_hash(s);
        assert(frag_with_hash(p.fragment) =~= r4);
        assert(s =~= s.take(sl + al + pl + ql) + r4);
    } else {
        assert(s =~= s.take(sl + al + pl + ql) + frag_with_hash(p.fragment));
    }
}

/// What remains after the query is empty or starts with '#'.
proof fn lemma_fragment_starts_with_hash(s: Seq<char>)
    ensures
        ({
            let sl = spec_scheme_len(s) as int;
            let r1 = s.skip(sl);
            let al = spec_authority_len(r1) as int;
            let r2 = r1.skip(al);
            let pl = spec_path_len(r2) as int;
            let r3 = r2.skip(pl);
            let ql = spec_query_len(r3) as int;
            let r4 = r3.skip(ql);
            r4.len() > 0 ==> r4[0] == '#'
        }),
{
    let sl = spec_scheme_len(s) as int;
    let r1 = s.skip(sl);
    let al = spec_authority_len(r1) as int;
    let r2 = r1.skip(al);
    let pl = spec_path_len(r2) as int;
    let r3 = r2.skip(pl);
    let ql = spec_query_len(r3) as int;
    let r4 = r3.skip(ql);
    lemma_part_lens(s);
    lemma_scan_len_props(ScanKind::PathEnd, r2);
    if r4.len() > 0 {
        if ql > 0 {
            lemma_scan_len_props(ScanKind::QueryEnd, r3.skip(1));
            assert(r4[0] == r3.skip(1)[ql - 1]);
            assert(stops(ScanKind::QueryEnd, r3.skip(1)[ql - 1]));
        } else {
            assert(r4 =~= r3);
            assert(r3[0] == r2[pl]);
            assert(stops(ScanKind::PathEnd, r2[pl]));
            assert(r3[0] != '?');
        }
    }
}

/// Re-parsing the concatenation of authority, path and query (no scheme
/// consumed yet) finds the same three parts.
proof fn lemma_tail_parts(r1: Seq<char>)
    ensures
        ({
            let al = spec_authority_len(r1) as int;
            let r2 = r1.skip(al);
            let pl = spec_path_len(r2) as int;
            let r3 = r2.skip(pl);
            let ql = spec_query_len(r3) as int;
            let c1 = r1.take(al + pl + ql);
            &&& al + pl + ql <= r1.len()
            &&& spec_authority_len(c1) == al
            &&& spec_path_len(c1.skip(al)) == pl
            &&& spec_query_len(c1.skip(al + pl)) == ql
        }),
{
    let al = spec_authority_len(r1) as int;
    let r2 = r1.skip(al);
    let pl = spec_path_len(r2) as int;
    let r3 = r2.skip(pl);
    let ql = spec_query_len(r3) as int;
    let c1 = r1.take(al + pl + ql);
    lemma_scan_len_props(ScanKind::AuthorityEnd, r1.skip(2));
    lemma_scan_len_props(ScanKind::PathEnd, r2);
    lemma_scan_len_props(ScanKind::QueryEnd, r3.skip(1));
    assert(al + pl + ql <= r1.len());
    assert(forall|j: int| 0 <= j < c1.len() ==> c1[j] == r1[j]);
    // Authority is found again.
    if al > 0 {
        assert(c1.len() >= 2);
        assert(c1[0] == '/' && c1[1] == '/');
        assert forall|j: int| 0 <= j < al - 2 implies !stops(
            ScanKind::AuthorityEnd,
            c1.skip(2)[j],
        ) by {
            assert(c1.skip(2)[j] == r1[j + 2]);
            assert(r1.skip(2)[j] == r1[j + 2]);
        }
        if al < c1.len() {
            if pl > 0 {
                assert(c1[al] == r2[0]);
                assert(r2[0] == r1.skip(2)[al - 2]);
                assert(stops(ScanKind::AuthorityEnd, r1.skip(2)[al - 2]));
            } else {
                assert(ql > 0);
                assert(c1[al] == r3[0]);
                assert(r3[0] == '?');
            }
            assert(stops(ScanKind::AuthorityEnd, c1.skip(2)[al - 2]));
        }
        lemma_scan_len_is(ScanKind::AuthorityEnd, c1.skip(2), al - 2);
        assert(spec_authority_len(c1) == al);
    } else {
        if c1.len() >= 2 && c1[0] == '/' && c1[1] == '/' {
            if pl >= 2 {
                assert(r1[0] == r2[0] && r1[1] == r2[1]);
                assert(false);
            } else if pl == 1 {
                assert(c1[1] == r3[0]);
                assert(r3[0] == '?');
                assert(false);
            } else {
                assert(c1[0] == r3[0]);
                assert(r3[0] == '?');
                assert(false);
            }
        }
        assert(spec_authority_len(c1) == 0);
    }
    // The path is found again.
    let c2 = c1.skip(al);
    assert forall|j: int| 0 <= j < pl implies !stops(ScanKind::PathEnd, c2[j]) by {
        assert(c2[j] == r1[al + j]);
        assert(r2[j] == r1[al + j]);
    }
    if pl < c2.len() {
        assert(ql > 0);
        assert(c2[pl] == r3[0]);
        assert(r3[0] == '?');
    }
    lemma_scan_len_is(ScanKind::PathEnd, c2, pl);
    // The query is found again.
    let c3 = c1.skip(al + pl);
    assert(c3.len() == ql);
    if ql > 0 {
        assert(c3[0] == r1[al + pl]);
        assert(r3[0] == r1[al + pl]);
        assert(c3[0] == '?');
        assert forall|j: int| 0 <= j < ql - 1 implies !stops(ScanKind::QueryEnd, c3.skip(1)[j]) by {
            assert(c3.skip(1)[j] == r1[al + pl + 1 + j]);
            assert(r3.skip(1)[j] == r2[pl + 1 + j]);
            assert(r2[pl + 1 + j] == r1[al + pl + 1 + j]);
        }
        lemma_scan_len_is(ScanKind::QueryEnd, c3.skip(1), ql - 1);
        assert(spec_query_len(c3) == ql);
    } else {
        assert(spec_query_len(c3) == 0);
    }
}

/// Decomposition is idempotent: parsing the base reference rebuilt from the
/// parts of `s` finds the same scheme, authority, path and query, and no
/// fragment.
pub proof fn lemma_parse_round_trip(s: Seq<char>)
    ensures
        ({
            let p = spec_parse(s);
            let q = spec_parse(spec_base(p));
            &&& q.scheme == p.scheme
            &&& q.authority == p.authority
            &&& q.path == p.path
            &&& q.query == p.query
            &&& q.fragment is None
        }),
{
    let sl = spec_scheme_len(s) as int;
    let r1 = s.skip(sl);
    let al = spec_authority_len(r1) as int;
    let r2 = r1.skip(al);
    let pl = spec_path_len(r2) as int;
    let r3 = r2.skip(pl);
    let ql = spec_query_len(r3) as int;
    lemma_part_lens(s);
    let p = spec_parse(s);
    let c = spec_base(p);
    assert(c =~= s.take(sl + al + pl + ql));
    assert(forall|j: int| 0 <= j < c.len() ==> c[j] == s[j]);
    lemma_scan_len_props(ScanKind::SchemeEnd, s);
    // The scheme is found again.
    if sl > 0 {
        let k = scan_len(ScanKind::SchemeEnd, s) as int;
        assert(sl == k + 1);
        assert forall|j: int| 0 <= j < k implies !stops(ScanKind::SchemeEnd, c[j]) by {
            assert(c[j] == s[j]);
        }
        assert(stops(ScanKind::SchemeEnd, c[k]));
        lemma_scan_len_is(ScanKind::SchemeEnd, c, k);
        assert(spec_scheme_len(c) == sl);
    } else {
        let kc = scan_len(ScanKind::SchemeEnd, c) as int;
        lemma_scan_len_props(ScanKind::SchemeEnd, c);
        if kc < c.len() && c[kc] == ':' && kc > 0 {
            assert forall|j: int| 0 <= j < kc implies !stops(ScanKind::SchemeEnd, s[j]) by {
                assert(c[j] == s[j]);
            }
            assert(stops(ScanKind::SchemeEnd, s[kc]));
            lemma_scan_len_is(ScanKind::SchemeEnd, s, kc);
            assert(spec_scheme_len(s) > 0);
            assert(false);
        }
        assert(spec_scheme_len(c) == 0);
    }
    // The rest of the re-parse works on the same tail.
    lemma_tail_parts(r1);
    let c1 = r1.take(al + pl + ql);
    assert(c.skip(sl) =~= c1);
    let q = spec_parse(c);
    assert(q.scheme =~= p.scheme);
    assert(q.authority =~= c1.take(al));
    assert(c1.take(al) =~= r1.take(al));
    assert(q.path =~= c1.skip(al).take(pl));
    assert(c1.skip(al).take(pl) =~= r2.take(pl));
    assert(c1.skip(al).skip(pl) =~= c1.skip(al + pl));
    assert(q.query =~= c1.skip(al + pl).take(ql));
    assert(c1.skip(al + pl).take(ql) =~= r3.take(ql));
    assert(c1.skip(al + pl).skip(ql) =~= c1.skip(al + pl + ql));
    assert(c1.skip(al + pl + ql).len() == 0);
}

/// The parts of a reference, as owned strings.
pub struct FlakeRefParts {
    pub scheme: String,
    pub authority: String,
    pub path: String,
    pub query: String,
    pub fragment: Option<String>,
}

impl View for FlakeRefParts {
    type V = RefParts;

    open spec fn view(&self) -> RefParts {
        RefParts {
            scheme: self.scheme@,
            authority: self.authority@,
            path: self.path@,
            query: self.query@,
            fragment: match self.fragment {
                Some(f) => Some(f@),
                None => None,
            },
        }
    }
}

impl FlakeRefParts {
    /// The base reference handed to the metadata resolver: scheme, authority,
    /// path and query concatenated, the fragment left out.
    pub fn reconstruct_base(&self) -> (r: String)
        ensures
            r@ == spec_base(self@),
    {
        let mut out = self.scheme.clone();
        out.append(self.authority.as_str());
        out.append(self.path.as_str());
        out.append(self.query.as_str());
        proof {
            assert(out@ =~= spec_base(self@));
        }
        out
    }
}

/// Character length of the scheme part of `s`.
fn scheme_len_exec(s: &str) -> (sl: usize)
    ensures
        sl == spec_scheme_len(s@),
        sl <= s@.len(),
{
    let n = s.unicode_len();
    proof {
        assert(s@.skip(0) =~= s@);
    }
    let k = scan_from(s, 0, ScanKind::SchemeEnd);
    if k < n && k > 0 && s.get_char(k) == ':' {
        k + 1
    } else {
        0
    }
}

/// Character length of the authority part of `s` after a scheme of length
/// `sl`.
fn authority_len_exec(s: &str, sl: usize) -> (al: usize)
    requires
        sl <= s@.len(),
    ensures
        al == spec_authority_len(s@.skip(sl as int)),
        sl + al <= s@.len(),
{
    let ghost r1 = s@.skip(sl as int);
    let n = s.unicode_len();
    if n - sl >= 2 && s.get_char(sl) == '/' && s.get_char(sl + 1) == '/' {
        proof {
            assert(r1[0] == s@[sl as int]);
            assert(r1[1] == s@[sl + 1]);
            assert(r1.skip(2) =~= s@.skip(sl + 2));
        }
        scan_from(s, sl + 2, ScanKind::AuthorityEnd) - sl
    } else {
        proof {
            if r1.len() >= 2 {
                assert(r1[0] == s@[sl as int]);
                assert(r1[1] == s@[sl + 1]);
            }
        }
        0
    }
}

/// Character length of the path part of `s` after scheme and authority of
/// total length `start`.
fn path_len_exec(s: &str, start: usize) -> (pl: usize)
    requires
        start <= s@.len(),
    ensures
        pl == spec_path_len(s@.skip(start as int)),
        start + pl <= s@.len(),
{
    let r = scan_from(s, start, ScanKind::PathEnd);
    r - start
}

/// Character length of the query part of `s` after scheme, authority and
/// path of total length `qstart`.
fn query_len_exec(s: &str, qstart: usize) -> (ql: usize)
    requires
        qstart <= s@.len(),
    ensures
        ql == spec_query_len(s@.skip(qstart as int)),
        qstart + ql <= s@.len(),
{
    let ghost r3 = s@.skip(qstart as int);
    let n = s.unicode_len();
    if qstart < n && s.get_char(qstart) == '?' {
        proof {
            assert(r3[0] == s@[qstart as int]);
            assert(r3.skip(1) =~= s@.skip(qstart + 1));
        }
        scan_from(s, qstart + 1, ScanKind::QueryEnd) - qstart
    } else {
        proof {
            if r3.len() > 0 {
                assert(r3[0] == s@[qstart as int]);
            }
        }
        0
    }
}

/// Decompose a reference into its parts.  An empty input is not a reference
/// and yields `None`; every other string decomposes.
pub fn parse_flake_ref(s: &str) -> (r: Option<FlakeRefParts>)
    ensures
        r is Some <==> s@.len() > 0,
        r matches Some(p) ==> p@ == spec_parse(s@),
{
    let n = s.unicode_len();
    if n == 0 {
        return None;
    }
    let sl = scheme_len_exec(s);
    let al = authority_len_exec(s, sl);
    let pl = path_len_exec(s, sl + al);
    let qstart = sl + al + pl;
    let ql = query_len_exec(s, qstart);
    let ghost r1 = s@.skip(sl as int);
    let ghost r2 = r1.skip(al as int);
    let ghost r3 = r2.skip(pl as int);
    let ghost r4 = r3.skip(ql as int);
    proof {
        assert(r2 =~= s@.skip(sl + al));
        assert(r3 =~= s@.skip(sl + al + pl));
        assert(r4 =~= s@.skip(sl + al + pl + ql));
    }
    let fstart = qstart + ql;
    let fragment = if fstart < n {
        Some(substr_string(s, fstart + 1, n))
    } else {
        None
    };
    let parts = FlakeRefParts {
        scheme: substr_string(s, 0, sl),
        authority: substr_string(s, sl, sl + al),
        path: substr_string(s, sl + al, sl + al + pl),
        query: substr_string(s, qstart, qstart + ql),
        fragment,
    };
    proof {
        let p = spec_parse(s@);
        assert(parts@.scheme =~= p.scheme);
        assert(parts@.authority =~= r1.take(al as int));
        assert(parts@.path =~= r2.take(pl as int));
        assert(parts@.query =~= r3.take(ql as int));
        if fstart < n {
            assert(parts@.fragment matches Some(f) && f =~= r4.skip(1));
        }
        assert(parts@ =~= p);
    }
    Some(parts)
}

} // verus!
