//! Verified character-level string predicates.
//!
//! The regulation rules compare field values for equality, prefixes and
//! case-sensitive substrings.  These helpers implement the three predicates
//! over `&str` with contracts phrased on the character sequences.

use vstd::prelude::*;
use vstd::string::StrSliceExecFns;

verus! {

/// `needle` occurs somewhere in `hay` as a contiguous run of characters.
pub open spec fn contains_sub(hay: Seq<char>, needle: Seq<char>) -> bool {
    exists|j: int|
        0 <= j && j + needle.len() <= hay.len() && #[trigger] hay.subrange(
            j,
            j + needle.len() as int,
        ) == needle
}

/// `p` is a prefix of `s`.
pub open spec fn has_prefix(s: Seq<char>, p: Seq<char>) -> bool {
    p.len() <= s.len() && s.subrange(0, p.len() as int) == p
}

/// Character-for-character string equality.
pub fn str_eq(a: &str, b: &str) -> (r: bool)
    ensures
        r == (a@ == b@),
{
    let alen = a.unicode_len();
    let blen = b.unicode_len();
    if alen != blen {
        return false;
    }
    let mut i: usize = 0;
    while i < alen
        invariant
            alen == a@.len(),
            blen == b@.len(),
            alen == blen,
            i <= alen,
            forall|j: int| 0 <= j < i ==> a@[j] == b@[j],
        decreases alen - i,
    {
        if a.get_char(i) != b.get_char(i) {
            return false;
        }
        i += 1;
    }
    proof {
        assert(a@ =~= b@);
    }
    true
}

/// The characters of `needle` appear in `hay` starting at position `j`.
fn match_at(hay: &str, j: usize, needle: &str) -> (r: bool)
    requires
        j + needle@.len() <= hay@.len(),
    ensures
        r == (hay@.subrange(j as int, j as int + needle@.len() as int) == needle@),
{
    let hlen = hay.unicode_len();
    let nlen = needle.unicode_len();
    let mut k: usize = 0;
    while k < nlen
        invariant
            hlen == hay@.len(),
            nlen == needle@.len(),
            j + nlen <= hlen,
            k <= nlen,
            forall|k2: int| 0 <= k2 < k ==> hay@[j + k2] == needle@[k2],
        decreases nlen - k,
    {
        if hay.get_char(j + k) != needle.get_char(k) {
            proof {
                let ji = j as int;
                let ki = k as int;
                assert(hay@.subrange(ji, ji + nlen as int)[ki] == hay@[ji + ki]);
            }
            return false;
        }
        k += 1;
    }
    proof {
        assert(hay@.subrange(j as int, j as int + nlen as int) =~= needle@);
    }
    true
}

/// Case-sensitive substring search.
pub fn str_contains(hay: &str, needle: &str) -> (r: bool)
    ensures
        r == contains_sub(hay@, needle@),
{
    let hlen = hay.unicode_len();
    let nlen = needle.unicode_len();
    if nlen > hlen {
        return false;
    }
    if nlen == 0 {
        proof {
            assert(hay@.subrange(0, 0 + needle@.len() as int) =~= needle@);
        }
        return true;
    }
    let mut j: usize = 0;
    while j <= hlen - nlen
        invariant
            hlen == hay@.len(),
            nlen == needle@.len(),
            1 <= nlen <= hlen,
            j <= hlen - nlen + 1,
            forall|j2: int|
                0 <= j2 < j ==> #[trigger] hay@.subrange(j2, j2 + nlen as int) != needle@,
        decreases hlen - nlen + 1 - j,
    {
        if match_at(hay, j, needle) {
            return true;
        }
        j += 1;
    }
    false
}

/// Case-sensitive prefix test.
pub fn str_has_prefix(s: &str, p: &str) -> (r: bool)
    ensures
        r == has_prefix(s@, p@),
{
    let slen = s.unicode_len();
    let plen = p.unicode_len();
    if plen > slen {
        return false;
    }
    match_at(s, 0, p)
}

} // verus!
