//! Character-level helpers: delimiter scans over string slices, equality and
//! search, and substring extraction.  Everything is specified against the
//! `Seq<char>` view of the string.

use vstd::prelude::*;

verus! {

use vstd::string::StrSliceExecFns;

/// The delimiter classes at which the reference grammar's scans stop.
#[derive(Clone, Copy, PartialEq, Eq, Structural, Debug)]
pub enum ScanKind {
    /// A scheme runs until ':', '/', '?' or '#'.
    SchemeEnd,
    /// An authority runs until '/', '?' or '#'.
    AuthorityEnd,
    /// A path runs until '?' or '#'.
    PathEnd,
    /// A query runs until '#'.
    QueryEnd,
    /// A line runs until a newline.
    LineEnd,
}

/// Whether character `c` stops a scan of kind `kind`.
pub open spec fn stops(kind: ScanKind, c: char) -> bool {
    match kind {
        ScanKind::SchemeEnd => c == ':' || c == '/' || c == '?' || c == '#',
        ScanKind::AuthorityEnd => c == '/' || c == '?' || c == '#',
        ScanKind::PathEnd => c == '?' || c == '#',
        ScanKind::QueryEnd => c == '#',
        ScanKind::LineEnd => c == '\n',
    }
}

/// Length of the longest prefix of `s` in which no character stops a scan of
/// kind `kind`.
pub open spec fn scan_len(kind: ScanKind, s: Seq<char>) -> nat
    decreases s.len(),
{
    if s.len() == 0 {
        0
    } else if stops(kind, s[0]) {
        0
    } else {
        (1 + scan_len(kind, s.drop_first())) as nat
    }
}

/// The scanned prefix contains no stopping character, and the scan stops at a
/// stopping character unless it reaches the end.
pub proof fn lemma_scan_len_props(kind: ScanKind, s: Seq<char>)
    ensures
        scan_len(kind, s) <= s.len(),
        forall|j: int| 0 <= j < scan_len(kind, s) ==> !stops(kind, s[j]),
        scan_len(kind, s) < s.len() ==> stops(kind, s[scan_len(kind, s) as int]),
    decreases s.len(),
{
    if s.len() == 0 {
    } else if stops(kind, s[0]) {
    } else {
        lemma_scan_len_props(kind, s.drop_first());
        assert forall|j: int| 0 <= j < scan_len(kind, s) implies !stops(kind, s[j]) by {
            if j > 0 {
                assert(s.drop_first()[j - 1] == s[j]);
            }
        }
        if scan_len(kind, s) < s.len() {
            assert(s.drop_first()[scan_len(kind, s.drop_first()) as int]
                == s[scan_len(kind, s) as int]);
        }
    }
}

/// A scan length is determined by any index `n` whose prefix is free of
/// stopping characters and which is the end or a stopping character.
pub proof fn lemma_scan_len_is(kind: ScanKind, s: Seq<char>, n: int)
    requires
        0 <= n <= s.len(),
        forall|j: int| 0 <= j < n ==> !stops(kind, s[j]),
        n == s.len() || stops(kind, s[n]),
    ensures
        scan_len(kind, s) == n,
    decreases n,
{
    if n == 0 {
    } else {
        assert(!stops(kind, s[0]));
        assert forall|j: int| 0 <= j < n - 1 implies !stops(kind, s.drop_first()[j]) by {
            assert(s.drop_first()[j] == s[j + 1]);
        }
        if n < s.len() {
            assert(s.drop_first()[n - 1] == s[n]);
        }
        lemma_scan_len_is(kind, s.drop_first(), n - 1);
    }
}

/// Whether character `c` stops a scan of kind `kind`.
pub fn stops_exec(kind: ScanKind, c: char) -> (b: bool)
    ensures
        b == stops(kind, c),
{
    match kind {
        ScanKind::SchemeEnd => c == ':' || c == '/' || c == '?' || c == '#',
        ScanKind::AuthorityEnd => c == '/' || c == '?' || c == '#',
        ScanKind::PathEnd => c == '?' || c == '#',
        ScanKind::QueryEnd => c == '#',
        ScanKind::LineEnd => c == '\n',
    }
}

/// First index at or after `from` whose character stops a scan of kind
/// `kind`, or the length of `s` if there is none.
pub fn scan_from(s: &str, from: usize, kind: ScanKind) -> (r: usize)
    requires
        from <= s@.len(),
    ensures
        from <= r <= s@.len(),
        r - from == scan_len(kind, s@.skip(from as int)),
        forall|j: int| from <= j < r ==> !stops(kind, s@[j]),
        r < s@.len() ==> stops(kind, s@[r as int]),
{
    let n = s.unicode_len();
    let mut i: usize = from;
    while i < n && !stops_exec(kind, s.get_char(i))
        invariant
            from <= i <= n,
            n == s@.len(),
            forall|j: int| from <= j < i ==> !stops(kind, s@[j]),
        decreases n - i,
    {
        i = i + 1;
    }
    proof {
        let sub = s@.skip(from as int);
        assert forall|j: int| 0 <= j < i - from implies !stops(kind, sub[j]) by {
            assert(sub[j] == s@[from + j]);
        }
        if i < n {
            assert(sub[i - from] == s@[i as int]);
        }
        lemma_scan_len_is(kind, sub, i - from);
    }
    i
}

/// Character-wise equality of two string slices.
pub fn str_eq(a: &str, b: &str) -> (r: bool)
    ensures
        r == (a@ == b@),
{
    let n = a.unicode_len();
    let m = b.unicode_len();
    if n != m {
        proof {
            assert(a@.len() != b@.len());
        }
        return false;
    }
    let mut i: usize = 0;
    while i < n
        invariant
            i <= n,
            n == a@.len(),
            n == b@.len(),
            forall|j: int| 0 <= j < i ==> a@[j] == b@[j],
        decreases n - i,
    {
        if a.get_char(i) != b.get_char(i) {
            proof {
                assert(a@[i as int] != b@[i as int]);
            }
            return false;
        }
        i = i + 1;
    }
    proof {
        assert(a@ =~= b@);
    }
    true
}

/// Whether `s` contains the character `c`.
pub fn contains_char(s: &str, c: char) -> (r: bool)
    ensures
        r == s@.contains(c),
{
    let n = s.unicode_len();
    let mut i: usize = 0;
    while i < n
        invariant
            i <= n,
            n == s@.len(),
            forall|j: int| 0 <= j < i ==> s@[j] != c,
        decreases n - i,
    {
        if s.get_char(i) == c {
            return true;
        }
        i = i + 1;
    }
    proof {
        assert(forall|j: int| 0 <= j < s@.len() ==> s@[j] != c);
    }
    false
}

/// Whether `s` ends with `suffix`.
pub fn ends_with_str(s: &str, suffix: &str) -> (r: bool)
    ensures
        r == (s@.len() >= suffix@.len() && s@.skip(s@.len() - suffix@.len()) == suffix@),
{
    let n = s.unicode_len();
    let m = suffix.unicode_len();
    if m > n {
        return false;
    }
    let base = n - m;
    let mut i: usize = 0;
    while i < m
        invariant
            i <= m,
            m <= n,
            base == n - m,
            n == s@.len(),
            m == suffix@.len(),
            forall|j: int| 0 <= j < i ==> s@[base + j] == suffix@[j],
        decreases m - i,
    {
        if s.get_char(base + i) != suffix.get_char(i) {
            proof {
                let tail = s@.skip(s@.len() - suffix@.len());
                assert(tail[i as int] == s@[base + i]);
            }
            return false;
        }
        i = i + 1;
    }
    proof {
        let tail = s@.skip(s@.len() - suffix@.len());
        assert forall|j: int| 0 <= j < tail.len() implies tail[j] == suffix@[j] by {
            assert(tail[j] == s@[base + j]);
        }
        assert(tail =~= suffix@);
    }
    true
}

/// The substring of `s` between character positions `from` and `to`, owned.
pub fn substr_string(s: &str, from: usize, to: usize) -> (r: String)
    requires
        from <= to <= s@.len(),
    ensures
        r@ == s@.subrange(from as int, to as int),
{
    s.substring_char(from, to).to_owned()
}

} // verus!
