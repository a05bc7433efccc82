//! Verified helpers over `&str` and `String`, stated over `Seq<char>` views.

use vstd::prelude::*;
use vstd::string::StrSliceExecFns;
use vstd::string::StringExecFns;

verus! {

/// Character-wise equality of two string slices.
pub fn str_eq(a: &str, b: &str) -> (r: bool)
    ensures
        r <==> a@ == b@,
{
    let alen = a.unicode_len();
    let blen = b.unicode_len();
    if alen != blen {
        return false;
    }
    let mut i: usize = 0;
    while i < alen
        invariant
            0 <= i <= alen,
            alen == a@.len(),
            blen == b@.len(),
            alen == blen,
            forall|j: int| 0 <= j < i ==> a@[j] == b@[j],
        decreases alen - i,
    {
        if a.get_char(i) != b.get_char(i) {
            return false;
        }
        i += 1;
    }
    proof {
        assert(a@ =~= b@);
    }
    true
}

/// Whether `pre` is a prefix of `s`.
pub fn str_starts_with(s: &str, pre: &str) -> (r: bool)
    ensures
        r <==> pre@.is_prefix_of(s@),
{
    let slen = s.unicode_len();
    let plen = pre.unicode_len();
    if plen > slen {
        return false;
    }
    let mut i: usize = 0;
    while i < plen
        invariant
            0 <= i <= plen,
            plen <= slen,
            slen == s@.len(),
            plen == pre@.len(),
            forall|j: int| 0 <= j < i ==> pre@[j] == s@[j],
        decreases plen - i,
    {
        if s.get_char(i) != pre.get_char(i) {
            proof {
                assert(!(pre@ =~= s@.subrange(0, plen as int)));
            }
            return false;
        }
        i += 1;
    }
    proof {
        assert(pre@ =~= s@.subrange(0, plen as int));
    }
    true
}

/// Whether `suf` is a suffix of `s`.
pub fn str_ends_with(s: &str, suf: &str) -> (r: bool)
    ensures
        r <==> suf@.is_suffix_of(s@),
{
    let slen = s.unicode_len();
    let flen = suf.unicode_len();
    if flen > slen {
        return false;
    }
    let off = slen - flen;
    let mut i: usize = 0;
    while i < flen
        invariant
            0 <= i <= flen,
            flen <= slen,
            slen == s@.len(),
            flen == suf@.len(),
            off == slen - flen,
            forall|j: int| 0 <= j < i ==> suf@[j] == s@[off + j],
        decreases flen - i,
    {
        if s.get_char(off + i) != suf.get_char(i) {
            proof {
                assert(!(suf@ =~= s@.subrange(off as int, slen as int)));
            }
            return false;
        }
        i += 1;
    }
    proof {
        assert(suf@ =~= s@.subrange(off as int, slen as int));
    }
    true
}

/// The tail of `s` after a prefix `pre`, or `None` when `pre` is no prefix of `s`.
pub fn strip_prefix_checked<'a>(s: &'a str, pre: &str) -> (r: Option<&'a str>)
    ensures
        match r {
            Some(t) => pre@.is_prefix_of(s@) && t@ == s@.skip(pre@.len() as int),
            None => !pre@.is_prefix_of(s@),
        },
{
    if str_starts_with(s, pre) {
        let t = s.substring_char(pre.unicode_len(), s.unicode_len());
        proof {
            assert(t@ =~= s@.skip(pre@.len() as int));
        }
        Some(t)
    } else {
        None
    }
}

/// The platform-neutral form of a path character: backslash separators
/// become forward slashes, everything else is unchanged.
pub open spec fn normal_sep(c: char) -> char {
    if c == '\\' {
        '/'
    } else {
        c
    }
}

/// A path with every separator in platform-neutral form.
pub open spec fn spec_normalize(s: Seq<char>) -> Seq<char> {
    Seq::new(s.len(), |i: int| normal_sep(s[i]))
}

/// Rewrites every backslash separator to a forward slash.
pub fn normalize_separators(s: &str) -> (r: String)
    ensures
        r@ == spec_normalize(s@),
{
    proof {
        reveal_strlit("/");
    }
    let n = s.unicode_len();
    let mut out = String::new();
    let mut i: usize = 0;
    while i < n
        invariant
            0 <= i <= n,
            n == s@.len(),
            out@ == spec_normalize(s@).subrange(0, i as int),
        decreases n - i,
    {
        proof {
            reveal_strlit("/");
        }
        let c = s.get_char(i);
        if c == '\\' {
            out.append("/");
        } else {
            let piece = s.substring_char(i, i + 1);
            out.append(piece);
        }
        i += 1;
        proof {
            assert(out@ =~= spec_normalize(s@).subrange(0, i as int));
        }
    }
    proof {
        assert(spec_normalize(s@).subrange(0, n as int) =~= spec_normalize(s@));
    }
    out
}

/// A root directory joined with a relative path by a single separator.
pub open spec fn spec_join(root: Seq<char>, rel: Seq<char>) -> Seq<char> {
    root + "/"@ + rel
}

/// Joins a root directory and a relative path with a separator.
pub fn join_path(root: &str, rel: &str) -> (r: String)
    ensures
        r@ == spec_join(root@, rel@),
{
    let mut out = root.to_owned();
    out.append("/");
    out.append(rel);
    out
}

} // verus!
