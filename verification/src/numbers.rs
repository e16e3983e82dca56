//! Decimal numbers in text, as `str::parse` reads unsigned integers.
use vstd::prelude::*;

use crate::chars::is_ascii_digit;

verus! {

/// The value of the decimal digits `d`.
pub open spec fn digits_value(d: Seq<char>) -> nat
    decreases d.len(),
{
    if d.len() == 0 {
        0
    } else {
        digits_value(d.drop_last()) * 10 + ((d.last() as u32 - '0' as u32) as nat)
    }
}

/// The digits of an unsigned number in text: the text without one leading `+`.
pub open spec fn unsigned_digits(s: Seq<char>) -> Seq<char> {
    if s.len() > 0 && s[0] == '+' {
        s.skip(1)
    } else {
        s
    }
}

/// The unsigned integer that `s` spells, if it spells one no larger than `max`: an optional
/// `+`, then one or more ASCII digits.
pub open spec fn parse_unsigned_spec(s: Seq<char>, max: nat) -> Option<nat> {
    let d = unsigned_digits(s);
    if d.len() > 0 && (forall|k: int| 0 <= k < d.len() ==> is_ascii_digit(#[trigger] d[k]))
        && digits_value(d) <= max {
        Some(digits_value(d))
    } else {
        None
    }
}

proof fn lemma_capped_step(x: nat, d: nat, cap: nat)
    requires
        d < 10,
    ensures
        (if x < cap { x } else { cap }) * 10 + d >= cap ==> x * 10 + d >= cap,
        (if x < cap { x } else { cap }) * 10 + d < cap ==> (if x < cap { x } else { cap }) * 10 + d
            == x * 10 + d,
{
}

/// Reads an unsigned integer no larger than `max` from `s`, as `u64::from_str` (or the
/// narrower types) reads one; `None` for any other text.
pub fn parse_unsigned(s: &str, max: u64) -> (res: Option<u64>)
    ensures
        res is Some <==> parse_unsigned_spec(s@, max as nat) is Some,
        res matches Some(v) ==> parse_unsigned_spec(s@, max as nat) == Some(v as nat),
{
    let n = s.unicode_len();
    let mut i: usize = 0;
    if n > 0 && s.get_char(0) == '+' {
        i = 1;
    }
    let ghost d = unsigned_digits(s@);
    assert(d =~= s@.skip(i as int));
    if i >= n {
        return None;
    }
    let cap: u128 = (max as u128) + 1;
    let mut v: u128 = 0;
    let start = i;
    while i < n
        invariant
            n == s@.len(),
            start <= i <= n,
            d == s@.skip(start as int),
            d == unsigned_digits(s@),
            cap == max + 1,
            v == (if digits_value(d.take(i - start)) < cap {
                digits_value(d.take(i - start))
            } else {
                cap as nat
            }),
            forall|k: int| 0 <= k < i - start ==> is_ascii_digit(#[trigger] d[k]),
        decreases n - i,
    {
        let c = s.get_char(i);
        assert(d[i - start] == c);
        if !('0' <= c && c <= '9') {
            assert(!is_ascii_digit(d[i - start]));
            return None;
        }
        let digit = (c as u32 - '0' as u32) as u128;
        let ghost prev = digits_value(d.take(i - start));
        assert(d.take(i - start + 1).drop_last() =~= d.take(i - start));
        assert(digits_value(d.take(i - start + 1)) == prev * 10 + digit);
        proof {
            lemma_capped_step(prev, digit as nat, cap as nat);
        }
        let next = v * 10 + digit;
        v = if next < cap {
            next
        } else {
            cap
        };
        i = i + 1;
    }
    assert(d.take(n - start) =~= d);
    if v < cap {
        Some(v as u64)
    } else {
        None
    }
}

} // verus!
