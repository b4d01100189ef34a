//! Small verified string utilities: equality and substring search.

use vstd::prelude::*;
use vstd::string::StrSliceExecFns;

verus! {

/// `sub` occurs in `s` starting at position `i`.
pub open spec fn substr_at(s: Seq<char>, i: int, sub: Seq<char>) -> bool {
    0 <= i && i + sub.len() <= s.len() && s.subrange(i, i + sub.len()) == sub
}

/// `sub` occurs somewhere in `s`.
pub open spec fn has_substr(s: Seq<char>, sub: Seq<char>) -> bool {
    exists|i: int| substr_at(s, i, sub)
}

/// The views of a sequence of strings.
pub open spec fn str_views(s: Seq<String>) -> Seq<Seq<char>> {
    Seq::new(s.len(), |i: int| s[i]@)
}

/// Character-for-character string equality.
pub fn str_eq(a: &str, b: &str) -> (r: bool)
    ensures
        r == (a@ == b@),
{
    let la = a.unicode_len();
    let lb = b.unicode_len();
    if la != lb {
        proof {
            assert(a@ != b@);
        }
        return false;
    }
    let mut i: usize = 0;
    while i < la
        invariant
            0 <= i <= la,
            la == a@.len(),
            la == b@.len(),
            forall|k: int| 0 <= k < i ==> a@[k] == b@[k],
        decreases la - i,
    {
        if a.get_char(i) != b.get_char(i) {
            proof {
                assert(a@ != b@);
            }
            return false;
        }
        i += 1;
    }
    proof {
        assert(a@ =~= b@);
    }
    true
}

/// Whether `sub` matches `s` at position `i`.
fn matches_at(s: &str, i: usize, sub: &str, len: usize, sublen: usize) -> (r: bool)
    requires
        len == s@.len(),
        sublen == sub@.len(),
        i + sublen <= len,
    ensures
        r == substr_at(s@, i as int, sub@),
{
    let mut j: usize = 0;
    let mut ok = true;
    while j < sublen
        invariant
            0 <= j <= sublen,
            len == s@.len(),
            sublen == sub@.len(),
            i + sublen <= len,
            ok == (forall|k: int| 0 <= k < j ==> s@[i + k] == sub@[k]),
        decreases sublen - j,
    {
        if s.get_char(i + j) != sub.get_char(j) {
            ok = false;
        }
        j += 1;
    }
    proof {
        if ok {
            assert(s@.subrange(i as int, i + sublen) =~= sub@);
        } else {
            if substr_at(s@, i as int, sub@) {
                let r = s@.subrange(i as int, i + sublen);
                assert forall|k: int| 0 <= k < sublen implies s@[i + k] == sub@[k] by {
                    assert(r[k] == s@[i + k]);
                }
                assert(false);
            }
        }
    }
    ok
}

/// Whether `sub` occurs anywhere in `s`.
pub fn str_contains(s: &str, sub: &str) -> (r: bool)
    ensures
        r == has_substr(s@, sub@),
{
    let len = s.unicode_len();
    let sublen = sub.unicode_len();
    if sublen == 0 {
        proof {
            assert(s@.subrange(0, 0) =~= sub@);
            assert(substr_at(s@, 0, sub@));
        }
        return true;
    }
    if sublen > len {
        proof {
            if has_substr(s@, sub@) {
                let i = choose|i: int| substr_at(s@, i, sub@);
                assert(false);
            }
        }
        return false;
    }
    let mut i: usize = 0;
    while i <= len - sublen
        invariant
            0 <= i,
            i <= len - sublen + 1,
            1 <= sublen <= len,
            len == s@.len(),
            sublen == sub@.len(),
            forall|k: int| 0 <= k < i ==> !substr_at(s@, k, sub@),
        decreases len - sublen + 1 - i,
    {
        if matches_at(s, i, sub, len, sublen) {
            return true;
        }
        i += 1;
    }
    proof {
        if has_substr(s@, sub@) {
            let k = choose|k: int| substr_at(s@, k, sub@);
            assert(k < i);
            assert(false);
        }
    }
    false
}

} // verus!
