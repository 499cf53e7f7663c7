//! Text search over the characters of a string.

use vstd::prelude::*;
use vstd::string::*;

verus! {

/// `p` occurs in `s` starting at `i`.
pub open spec fn occurs_at(s: Seq<char>, p: Seq<char>, i: int) -> bool {
    0 <= i && i + p.len() <= s.len() && s.subrange(i, i + p.len()) == p
}

/// `p` occurs somewhere in `s`.
pub open spec fn has_substring(s: Seq<char>, p: Seq<char>) -> bool {
    exists|i: int| occurs_at(s, p, i)
}

fn occurs_at_exec(s: &str, p: &str, n: usize, i: usize) -> (r: bool)
    requires
        n == s@.len(),
        i + p@.len() <= n,
    ensures
        r == occurs_at(s@, p@, i as int),
{
    let m = p.unicode_len();
    let mut j: usize = 0;
    while j < m
        invariant
            m == p@.len(),
            j <= m,
            i + m <= n,
            n == s@.len(),
            s@.subrange(i as int, i + j) == p@.subrange(0, j as int),
        decreases m - j,
    {
        if s.get_char(i + j) != p.get_char(j) {
            assert(s@.subrange(i as int, i + m)[j as int] != p@[j as int]);
            return false;
        }
        assert(s@.subrange(i as int, i + j + 1) =~= s@.subrange(i as int, i + j).push(s@[i + j]));
        assert(p@.subrange(0, j + 1) =~= p@.subrange(0, j as int).push(p@[j as int]));
        j = j + 1;
    }
    assert(p@.subrange(0, m as int) =~= p@);
    true
}

/// Whether `p` occurs in `s`.
pub fn contains_text(s: &str, p: &str) -> (r: bool)
    ensures
        r == has_substring(s@, p@),
{
    let n = s.unicode_len();
    let m = p.unicode_len();
    if m > n {
        return false;
    }
    let mut i: usize = 0;
    while i <= n - m
        invariant
            n == s@.len(),
            m == p@.len(),
            m <= n,
            i <= n - m + 1,
            forall|k: int| 0 <= k < i ==> !occurs_at(s@, p@, k),
        decreases n - m + 1 - i,
    {
        if occurs_at_exec(s, p, n, i) {
            return true;
        }
        if i == n - m {
            return false;
        }
        i = i + 1;
    }
    false
}

/// Whether `a` and `b` hold the same characters.
pub fn same_text(a: &str, b: &str) -> (r: bool)
    ensures
        r == (a@ == b@),
{
    let n = a.unicode_len();
    let m = b.unicode_len();
    if n != m {
        return false;
    }
    let r = occurs_at_exec(a, b, n, 0);
    assert(a@.subrange(0, n as int) =~= a@);
    r
}

} // verus!
