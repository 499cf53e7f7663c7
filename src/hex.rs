//! Hex quantities as the chain node sends them: `0x`-prefixed hexadecimal.

use vstd::prelude::*;
use vstd::string::*;

verus! {

/// The text left once every leading `0x` is dropped.
pub open spec fn without_0x(s: Seq<char>) -> Seq<char>
    decreases s.len(),
{
    if s.len() >= 2 && s[0] == '0' && s[1] == 'x' {
        without_0x(s.subrange(2, s.len() as int))
    } else {
        s
    }
}

/// The text left once one leading `+` is dropped.
pub open spec fn without_plus(s: Seq<char>) -> Seq<char> {
    if s.len() > 0 && s[0] == '+' {
        s.subrange(1, s.len() as int)
    } else {
        s
    }
}

pub open spec fn is_hex_digit(c: char) -> bool {
    ('0' <= c && c <= '9') || ('a' <= c && c <= 'f') || ('A' <= c && c <= 'F')
}

pub open spec fn hex_digit_value(c: char) -> nat {
    if '0' <= c && c <= '9' {
        (c as u32 - '0' as u32) as nat
    } else if 'a' <= c && c <= 'f' {
        (c as u32 - 'a' as u32 + 10) as nat
    } else {
        (c as u32 - 'A' as u32 + 10) as nat
    }
}

pub open spec fn all_hex_digits(s: Seq<char>) -> bool {
    forall|i: int| 0 <= i < s.len() ==> is_hex_digit(#[trigger] s[i])
}

/// The number that a string of hex digits writes, most significant first.
pub open spec fn hex_value(s: Seq<char>) -> nat
    decreases s.len(),
{
    if s.len() == 0 {
        0
    } else {
        hex_value(s.drop_last()) * 16 + hex_digit_value(s.last())
    }
}

/// What a hex quantity stands for: after any leading `0x` and an optional `+`,
/// one or more hex digits whose value fits in 64 bits.
pub open spec fn hex_quantity(s: Seq<char>) -> Option<u64> {
    let d = without_plus(without_0x(s));
    if d.len() > 0 && all_hex_digits(d) && hex_value(d) <= u64::MAX {
        Some(hex_value(d) as u64)
    } else {
        None
    }
}

proof fn lemma_hex_value_grows(s: Seq<char>, i: int, j: int)
    requires
        0 <= i <= j <= s.len(),
        all_hex_digits(s),
    ensures
        hex_value(s.subrange(0, i)) <= hex_value(s.subrange(0, j)),
    decreases j - i,
{
    if i < j {
        lemma_hex_value_grows(s, i, j - 1);
        assert(s.subrange(0, j).drop_last() =~= s.subrange(0, j - 1));
    }
}

/// Whether `0x` stands at character `start` of `s`.
fn at_0x(s: &str, start: usize) -> (r: bool)
    requires
        start <= s@.len(),
    ensures
        r == ({
            let t = s@.subrange(start as int, s@.len() as int);
            t.len() >= 2 && t[0] == '0' && t[1] == 'x'
        }),
{
    let n = s.unicode_len();
    n - start >= 2 && s.get_char(start) == '0' && s.get_char(start + 1) == 'x'
}

fn digit_value(c: char) -> (r: Option<u64>)
    ensures
        is_hex_digit(c) ==> r == Some(hex_digit_value(c) as u64),
        !is_hex_digit(c) ==> r is None,
        r matches Some(d) ==> d < 16,
{
    if '0' <= c && c <= '9' {
        Some((c as u32 - '0' as u32) as u64)
    } else if 'a' <= c && c <= 'f' {
        Some((c as u32 - 'a' as u32 + 10) as u64)
    } else if 'A' <= c && c <= 'F' {
        Some((c as u32 - 'A' as u32 + 10) as u64)
    } else {
        None
    }
}

/// Reads a hex quantity: every leading `0x` is dropped, then an optional `+`,
/// then one or more hex digits in either case; `None` for an empty, malformed
/// or overlong number.
pub fn parse_hex_quantity(s: &str) -> (r: Option<u64>)
    ensures
        r == hex_quantity(s@),
{
    let n = s.unicode_len();
    let mut start: usize = 0;
    assert(s@.subrange(0, n as int) =~= s@);
    while at_0x(s, start)
        invariant
            n == s@.len(),
            start <= n,
            without_0x(s@.subrange(start as int, n as int)) == without_0x(s@),
        decreases n - start,
    {
        assert(s@.subrange(start as int, n as int).subrange(2, n - start) =~= s@.subrange(
            start + 2,
            n as int,
        ));
        start = start + 2;
    }
    let ghost stripped = s@.subrange(start as int, n as int);
    assert(without_0x(stripped) == stripped);
    if start < n && s.get_char(start) == '+' {
        start = start + 1;
    }
    let ghost d = s@.subrange(start as int, n as int);
    assert(without_plus(stripped) =~= d);
    if start == n {
        return None;
    }
    let mut acc: u64 = 0;
    let mut i: usize = start;
    while i < n
        invariant
            n == s@.len(),
            start <= i <= n,
            d == s@.subrange(start as int, n as int),
            d == without_plus(without_0x(s@)),
            d.len() > 0,
            acc == hex_value(d.subrange(0, i - start)),
            all_hex_digits(d.subrange(0, i - start)),
        decreases n - i,
    {
        let c = s.get_char(i);
        assert(d[i - start] == c);
        match digit_value(c) {
            None => {
                assert(!all_hex_digits(d));
                return None;
            },
            Some(v) => {
                assert(d.subrange(0, i + 1 - start).drop_last() =~= d.subrange(0, i - start));
                if acc > (u64::MAX - v) / 16 {
                    assert(hex_value(d.subrange(0, i + 1 - start)) > u64::MAX) by (nonlinear_arith)
                        requires
                            hex_value(d.subrange(0, i + 1 - start)) == acc * 16 + v,
                            acc > (u64::MAX - v) / 16,
                            v < 16,
                    ;
                    proof {
                        if all_hex_digits(d) {
                            lemma_hex_value_grows(d, i + 1 - start, d.len() as int);
                            assert(d.subrange(0, d.len() as int) =~= d);
                        }
                    }
                    return None;
                }
                assert(all_hex_digits(d.subrange(0, i + 1 - start)));
                acc = acc * 16 + v;
                i = i + 1;
            },
        }
    }
    assert(d.subrange(0, n - start) =~= d);
    Some(acc)
}

} // verus!
