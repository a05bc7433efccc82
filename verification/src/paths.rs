//! The path sanitizer: the sole security boundary between a raw filename
//! capture and a path that may be joined to a resolved root.

use vstd::prelude::*;
use vstd::string::StrSliceExecFns;
use crate::error::PathError;
use crate::strutil::{normal_sep, spec_normalize, spec_join, normalize_separators};

verus! {

/// Whether a character acts as a path separator, in either platform style.
pub open spec fn is_sep(c: char) -> bool {
    c == '/' || c == '\\'
}

/// Whether a parent-directory segment (`..` delimited by separators or the
/// ends of the path) starts at position `i`.
pub open spec fn dotdot_segment_at(s: Seq<char>, i: int) -> bool {
    &&& 0 <= i
    &&& i + 2 <= s.len()
    &&& s[i] == '.'
    &&& s[i + 1] == '.'
    &&& (i == 0 || is_sep(s[i - 1]))
    &&& (i + 2 == s.len() || is_sep(s[i + 2]))
}

/// Whether the path contains a parent-directory segment anywhere.
pub open spec fn has_dotdot_segment(s: Seq<char>) -> bool {
    exists|i: int| dotdot_segment_at(s, i)
}

/// Whether the path can be read as absolute: a leading separator of either
/// style, or a drive marker in second position.
pub open spec fn is_absolute_path(s: Seq<char>) -> bool {
    (s.len() > 0 && is_sep(s[0])) || (s.len() >= 2 && s[1] == ':')
}

/// The sanitizer's acceptance condition: non-empty, no parent-directory
/// segment, and not an absolute path.
pub open spec fn spec_sanitize_ok(s: Seq<char>) -> bool {
    s.len() > 0 && !has_dotdot_segment(s) && !is_absolute_path(s)
}

/// A fully normalized, accepted path: accepted as-is, with every separator
/// in platform-neutral form.
pub open spec fn normalized_ok(s: Seq<char>) -> bool {
    spec_sanitize_ok(s) && forall|i: int| 0 <= i < s.len() ==> s[i] != '\\'
}

/// A relative, traversal-free path, safe to join with a resolved root.
/// Values exist only as the result of a successful [`sanitize`] call.
pub struct SanitizedPath {
    path: String,
}

impl View for SanitizedPath {
    type V = Seq<char>;

    closed spec fn view(&self) -> Seq<char> {
        self.path@
    }
}

impl SanitizedPath {
    /// The normalized path as a string slice.
    pub fn as_str(&self) -> (r: &str)
        ensures
            r@ == self@,
    {
        self.path.as_str()
    }
}

/// Normalization keeps every character's separator role and every dot,
/// so it neither hides nor creates a traversal or an absolute marker.
proof fn lemma_normalize_preserves_rejection(s: Seq<char>)
    ensures
        has_dotdot_segment(spec_normalize(s)) <==> has_dotdot_segment(s),
        is_absolute_path(spec_normalize(s)) <==> is_absolute_path(s),
        spec_normalize(s).len() == s.len(),
{
    let n = spec_normalize(s);
    assert forall|i: int| 0 <= i < s.len() implies is_sep(n[i]) == is_sep(s[i]) && (n[i] == '.'
        <==> s[i] == '.') && (n[i] == ':' <==> s[i] == ':') by {
        assert(n[i] == normal_sep(s[i]));
    }
    assert forall|i: int| dotdot_segment_at(s, i) implies dotdot_segment_at(n, i) by {}
    assert forall|i: int| dotdot_segment_at(n, i) implies dotdot_segment_at(s, i) by {}
    if has_dotdot_segment(s) {
        let i = choose|i: int| dotdot_segment_at(s, i);
        assert(dotdot_segment_at(n, i));
    }
    if has_dotdot_segment(n) {
        let i = choose|i: int| dotdot_segment_at(n, i);
        assert(dotdot_segment_at(s, i));
    }
}

/// Scans for a parent-directory segment.
fn contains_dotdot_segment(s: &str) -> (r: bool)
    ensures
        r <==> has_dotdot_segment(s@),
{
    let n = s.unicode_len();
    if n < 2 {
        proof {
            assert(forall|i: int| !dotdot_segment_at(s@, i));
        }
        return false;
    }
    let mut i: usize = 0;
    while i + 1 < n
        invariant
            0 <= i,
            i + 1 <= n,
            n == s@.len(),
            n >= 2,
            forall|j: int| 0 <= j < i ==> !dotdot_segment_at(s@, j),
        decreases n - i,
    {
        let c0 = s.get_char(i);
        let c1 = s.get_char(i + 1);
        if c0 == '.' && c1 == '.' {
            let left_ok = if i == 0 {
                true
            } else {
                let b = s.get_char(i - 1);
                b == '/' || b == '\\'
            };
            let right_ok = if i + 2 == n {
                true
            } else {
                let a = s.get_char(i + 2);
                a == '/' || a == '\\'
            };
            if left_ok && right_ok {
                proof {
                    assert(dotdot_segment_at(s@, i as int));
                }
                return true;
            }
        }
        i += 1;
    }
    proof {
        assert(forall|j: int| dotdot_segment_at(s@, j) ==> 0 <= j && j + 2 <= n);
        assert(forall|j: int| 0 <= j < i ==> !dotdot_segment_at(s@, j));
    }
    false
}

/// Tests for an absolute-path marker.
fn is_absolute(s: &str) -> (r: bool)
    ensures
        r <==> is_absolute_path(s@),
{
    let n = s.unicode_len();
    if n > 0 {
        let c0 = s.get_char(0);
        if c0 == '/' || c0 == '\\' {
            return true;
        }
    }
    if n >= 2 {
        let c1 = s.get_char(1);
        if c1 == ':' {
            return true;
        }
    }
    false
}

/// Validates and normalizes a raw filename capture. Rejects, in order:
/// empty captures, any parent-directory segment in either separator style,
/// and absolute paths; then normalizes separators to the platform-neutral
/// form. Rejection is the uniform `PathError::Invalid`.
pub fn sanitize(capture: &str) -> (r: Result<SanitizedPath, PathError>)
    ensures
        match r {
            Ok(p) => spec_sanitize_ok(capture@) && p@ == spec_normalize(capture@) && normalized_ok(
                p@,
            ),
            Err(e) => e == PathError::Invalid && !spec_sanitize_ok(capture@),
        },
{
    if capture.unicode_len() == 0 {
        return Err(PathError::Invalid);
    }
    if contains_dotdot_segment(capture) {
        return Err(PathError::Invalid);
    }
    if is_absolute(capture) {
        return Err(PathError::Invalid);
    }
    let normalized = normalize_separators(capture);
    proof {
        lemma_normalize_preserves_rejection(capture@);
        assert(forall|i: int|
            0 <= i < spec_normalize(capture@).len() ==> spec_normalize(capture@)[i] != '\\');
    }
    Ok(SanitizedPath { path: normalized })
}

/// A sanitized path joined to any root stays lexically within that root:
/// the root is a prefix of the joined path, what follows it is a single
/// separator and the normalized capture, and that remainder is relative
/// and free of parent-directory segments.
pub proof fn lemma_sanitized_join_contained(root: Seq<char>, capture: Seq<char>)
    requires
        spec_sanitize_ok(capture),
    ensures
        root.is_prefix_of(spec_join(root, spec_normalize(capture))),
        spec_join(root, spec_normalize(capture)) == root + "/"@ + spec_normalize(capture),
        spec_normalize(capture).len() > 0,
        !has_dotdot_segment(spec_normalize(capture)),
        !is_absolute_path(spec_normalize(capture)),
{
    lemma_normalize_preserves_rejection(capture);
    let joined = spec_join(root, spec_normalize(capture));
    assert(root =~= joined.subrange(0, root.len() as int));
}

} // verus!
