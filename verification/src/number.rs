//! Unsigned numbers written as a plain run of digits in a given radix.

use vstd::prelude::*;

verus! {

/// The value of `c` as a digit: `0`-`9` stand for zero to nine, and the
/// letters `a`-`z`, in either case, for ten to thirty-five. Any other
/// character is no digit.
pub open spec fn digit_of(c: char) -> Option<int> {
    let code = c as int;
    if 0x30 <= code <= 0x39 {
        Some(code - 0x30)
    } else if 0x61 <= code <= 0x7a {
        Some(code - 0x61 + 10)
    } else if 0x41 <= code <= 0x5a {
        Some(code - 0x41 + 10)
    } else {
        None
    }
}

/// Whether `c` is a digit of the given radix.
pub open spec fn is_digit(c: char, radix: int) -> bool {
    digit_of(c) matches Some(d) && d < radix
}

/// Whether `s` is a non-empty run of digits of the given radix.
pub open spec fn is_numeral(s: Seq<char>, radix: int) -> bool {
    s.len() > 0 && forall|i: int| 0 <= i < s.len() ==> is_digit(#[trigger] s[i], radix)
}

/// The number that a run of digits denotes, most significant digit first.
pub open spec fn numeral_value(s: Seq<char>, radix: int) -> int
    decreases s.len(),
{
    if s.len() == 0 {
        0
    } else {
        numeral_value(s.drop_last(), radix) * radix + digit_of(s.last()).unwrap_or(0)
    }
}

/// What `s` denotes as a 32-bit unsigned number: nothing unless `s` is a
/// numeral whose value fits.
pub open spec fn parse_u32_spec(s: Seq<char>, radix: int) -> Option<u32> {
    if is_numeral(s, radix) && numeral_value(s, radix) <= u32::MAX {
        Some(numeral_value(s, radix) as u32)
    } else {
        None
    }
}

/// A run of digits denotes at least as much as any of its prefixes.
proof fn lemma_prefix_value_bounded(s: Seq<char>, radix: int, k: int)
    requires
        radix >= 1,
        0 <= k <= s.len(),
        forall|i: int| 0 <= i < s.len() ==> is_digit(#[trigger] s[i], radix),
    ensures
        0 <= numeral_value(s.take(k), radix) <= numeral_value(s, radix),
    decreases s.len() - k,
{
    lemma_value_nonnegative(s.take(k), radix);
    if k == s.len() {
        assert(s.take(k) =~= s);
    } else {
        let longer = s.take(k + 1);
        assert(longer.drop_last() =~= s.take(k));
        let shorter_value = numeral_value(s.take(k), radix);
        assert(shorter_value * radix >= shorter_value) by (nonlinear_arith)
            requires
                shorter_value >= 0,
                radix >= 1,
        ;
        lemma_prefix_value_bounded(s, radix, k + 1);
    }
}

/// A run of digits never denotes a negative number.
proof fn lemma_value_nonnegative(s: Seq<char>, radix: int)
    requires
        radix >= 1,
    ensures
        numeral_value(s, radix) >= 0,
    decreases s.len(),
{
    if s.len() > 0 {
        lemma_value_nonnegative(s.drop_last(), radix);
        let head = numeral_value(s.drop_last(), radix);
        assert(head * radix >= 0) by (nonlinear_arith)
            requires
                head >= 0,
                radix >= 1,
        ;
    }
}

/// The value of one character as a digit of the given radix.
pub fn digit(c: char, radix: u32) -> (d: Option<u32>)
    requires
        2 <= radix <= 36,
    ensures
        d is Some <==> is_digit(c, radix as int),
        d matches Some(v) ==> digit_of(c) == Some(v as int),
{
    let code: u32 = c as u32;
    let value: u32 = if 0x30 <= code && code <= 0x39 {
        code - 0x30
    } else if 0x61 <= code && code <= 0x7a {
        code - 0x61 + 10
    } else if 0x41 <= code && code <= 0x5a {
        code - 0x41 + 10
    } else {
        return None;
    };
    if value < radix {
        Some(value)
    } else {
        None
    }
}

/// Reads `s` as an unsigned number in the given radix. The whole of `s` must
/// be digits: no sign, no blank and no prefix is accepted, and neither is the
/// empty string or a value that does not fit in 32 bits.
pub fn parse_u32(s: &str, radix: u32) -> (n: Option<u32>)
    requires
        2 <= radix <= 36,
    ensures
        n == parse_u32_spec(s@, radix as int),
{
    let mut acc: u32 = 0;
    let mut seen: bool = false;
    for c in it: s.chars()
        invariant
            it.seq() == s@,
            2 <= radix <= 36,
            seen == (it.index() > 0),
            acc == numeral_value(s@.take(it.index() as int), radix as int),
            forall|i: int| 0 <= i < it.index() ==> is_digit(#[trigger] s@[i], radix as int),
    {
        let ghost k = it.index() as int;
        proof {
            assert(s@.take(k + 1).drop_last() =~= s@.take(k));
        }
        let d = match digit(c, radix) {
            Some(d) => d,
            None => {
                return None;
            },
        };
        let next = match acc.checked_mul(radix) {
            Some(shifted) => shifted.checked_add(d),
            None => None,
        };
        match next {
            Some(v) => {
                acc = v;
                seen = true;
            },
            None => {
                proof {
                    if is_numeral(s@, radix as int) {
                        lemma_prefix_value_bounded(s@, radix as int, k + 1);
                    }
                }
                return None;
            },
        }
    }
    proof {
        assert(s@.take(s@.len() as int) =~= s@);
    }
    if seen {
        Some(acc)
    } else {
        None
    }
}

} // verus!
