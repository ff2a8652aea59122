//! Reading the liquidity pool out of a collateral denomination such as
//! `gamm/pool/7`: the third `/`-separated segment, as a decimal `u64`.

use vstd::prelude::*;
use vstd::utf8::encode_utf8;

verus! {

/// The byte of `/`.
pub const SLASH: u8 = 47;

/// The byte of `+`.
pub const PLUS: u8 = 43;

/// The first index at or after `from` where `s` holds `/`, or `s.len()`.
pub open spec fn next_slash(s: Seq<u8>, from: int) -> int
    decreases s.len() - from,
{
    if from < 0 || from >= s.len() {
        s.len() as int
    } else if s[from] == SLASH {
        from
    } else {
        next_slash(s, from + 1)
    }
}

/// The third `/`-separated segment of `s`, where `s` holds at least two `/`.
pub open spec fn third_segment(s: Seq<u8>) -> Option<Seq<u8>> {
    let a = next_slash(s, 0);
    if a >= s.len() {
        None
    } else {
        let b = next_slash(s, a + 1);
        if b >= s.len() {
            None
        } else {
            Some(s.subrange(b + 1, next_slash(s, b + 1)))
        }
    }
}

pub open spec fn is_digit(c: u8) -> bool {
    48 <= c <= 57
}

pub open spec fn all_digits(s: Seq<u8>) -> bool {
    forall|i: int| 0 <= i < s.len() ==> is_digit(#[trigger] s[i])
}

/// The number that the decimal digits `s` spell.
pub open spec fn digits_value(s: Seq<u8>) -> nat
    decreases s.len(),
{
    if s.len() == 0 {
        0
    } else {
        digits_value(s.drop_last()) * 10 + (s.last() - 48) as nat
    }
}

/// What `u64::from_str` makes of `s`: an optional `+`, then one or more
/// decimal digits whose number fits in `u64`.
pub open spec fn parse_u64_spec(s: Seq<u8>) -> Option<u64> {
    let digits = if s.len() > 0 && s[0] == PLUS { s.drop_first() } else { s };
    if digits.len() > 0 && all_digits(digits) && digits_value(digits) <= u64::MAX {
        Some(digits_value(digits) as u64)
    } else {
        None
    }
}

/// The pool that the denomination `denom` names, if any.
pub open spec fn pool_id_spec(denom: Seq<u8>) -> Option<u64> {
    match third_segment(denom) {
        Some(segment) => parse_u64_spec(segment),
        None => None,
    }
}

/// A prefix of decimal digits spells no more than the whole.
proof fn lemma_digits_prefix_le(s: Seq<u8>, k: int)
    requires
        all_digits(s),
        0 <= k <= s.len(),
    ensures
        digits_value(s.subrange(0, k)) <= digits_value(s),
    decreases s.len(),
{
    if k < s.len() {
        let t = s.drop_last();
        assert(t.subrange(0, k) =~= s.subrange(0, k));
        assert(all_digits(t));
        lemma_digits_prefix_le(t, k);
    } else {
        assert(s.subrange(0, k) =~= s);
    }
}

fn find_slash(s: &[u8], from: usize) -> (r: usize)
    requires
        from <= s@.len(),
    ensures
        r == next_slash(s@, from as int),
        from <= r <= s@.len(),
{
    let mut i = from;
    while i < s.len()
        invariant
            from <= i <= s@.len(),
            next_slash(s@, i as int) == next_slash(s@, from as int),
        decreases s@.len() - i,
    {
        if s[i] == SLASH {
            return i;
        }
        i += 1;
    }
    i
}

fn parse_u64(s: &[u8], start: usize, end: usize) -> (r: Option<u64>)
    requires
        start <= end <= s@.len(),
    ensures
        r == parse_u64_spec(s@.subrange(start as int, end as int)),
{
    let ghost seg = s@.subrange(start as int, end as int);
    let mut first = start;
    if first < end && s[first] == PLUS {
        first += 1;
    }
    let ghost digits = s@.subrange(first as int, end as int);
    assert(digits =~= (if seg.len() > 0 && seg[0] == PLUS { seg.drop_first() } else { seg }));
    if first == end {
        return None;
    }
    let mut v: u64 = 0;
    let mut i = first;
    assert(s@.subrange(first as int, first as int) =~= Seq::<u8>::empty());
    while i < end
        invariant
            first <= i <= end <= s@.len(),
            digits == s@.subrange(first as int, end as int),
            seg == s@.subrange(start as int, end as int),
            digits == (if seg.len() > 0 && seg[0] == PLUS { seg.drop_first() } else { seg }),
            all_digits(s@.subrange(first as int, i as int)),
            v == digits_value(s@.subrange(first as int, i as int)),
        decreases end - i,
    {
        let c = s[i];
        let ghost done = s@.subrange(first as int, i as int);
        let ghost next = s@.subrange(first as int, i + 1);
        assert(next.drop_last() =~= done);
        assert(digits[i - first] == c);
        if c < 48 || c > 57 {
            assert(!is_digit(digits[i - first]));
            return None;
        }
        assert(all_digits(next));
        let grown = match v.checked_mul(10) {
            Some(x) => x.checked_add((c - 48) as u64),
            None => None,
        };
        match grown {
            Some(x) => {
                v = x;
            },
            None => {
                proof {
                    if all_digits(digits) {
                        assert(digits.subrange(0, i + 1 - first) =~= next);
                        lemma_digits_prefix_le(digits, i + 1 - first);
                    }
                }
                return None;
            },
        }
        i += 1;
    }
    assert(s@.subrange(first as int, i as int) =~= digits);
    Some(v)
}

/// The pool that a collateral denomination names: its third `/`-separated
/// segment read as a decimal `u64`.
pub fn collateral_pool_id(denom: &str) -> (r: Option<u64>)
    ensures
        r == pool_id_spec(encode_utf8(denom@)),
{
    let s = denom.as_bytes();
    let a = find_slash(s, 0);
    if a >= s.len() {
        return None;
    }
    let b = find_slash(s, a + 1);
    if b >= s.len() {
        return None;
    }
    let e = find_slash(s, b + 1);
    parse_u64(s, b + 1, e)
}

} // verus!
