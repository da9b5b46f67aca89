//! Decimal millisecond figures and their value in microseconds.

use vstd::prelude::*;

verus! {

/// The largest number of whole milliseconds whose microseconds fit in a `u64`.
pub const MAX_WHOLE_MILLIS: u64 = 18446744073709551;

/// `c` is one of the ten ASCII digits.
pub open spec fn is_digit(c: char) -> bool {
    '0' <= c && c <= '9'
}

/// The value of the digit `c`.
pub open spec fn digit_value(c: char) -> nat {
    if is_digit(c) {
        (c as u32 - '0' as u32) as nat
    } else {
        0
    }
}

/// Every character of `s` is a digit.
pub open spec fn all_digits(s: Seq<char>) -> bool {
    forall|i: int| 0 <= i < s.len() ==> is_digit(#[trigger] s[i])
}

/// The number that the digits `s` write in base ten.
pub open spec fn digits_value(s: Seq<char>) -> nat
    decreases s.len(),
{
    if s.len() == 0 {
        0
    } else {
        digits_value(s.drop_last()) * 10 + digit_value(s.last())
    }
}

/// The length of the run of digits that `s` begins with.
pub open spec fn leading_digits(s: Seq<char>) -> nat
    decreases s.len(),
{
    if s.len() > 0 && is_digit(s[0]) {
        1 + leading_digits(s.drop_first())
    } else {
        0
    }
}

/// The digit at index `i` of `s`, and zero past its end.
pub open spec fn digit_at(s: Seq<char>, i: int) -> nat {
    if 0 <= i < s.len() {
        digit_value(s[i])
    } else {
        0
    }
}

/// The first three digits after the point, as a number of thousandths;
/// further digits are cut off.
pub open spec fn thousandths(fraction: Seq<char>) -> nat {
    digit_at(fraction, 0) * 100 + digit_at(fraction, 1) * 10 + digit_at(fraction, 2)
}

/// The microseconds in the millisecond figure `s`, rounded down.
///
/// A figure is a run of digits, optionally followed by a point and a
/// second run of digits; either run may be empty, but not both. Any
/// other text has no value.
pub open spec fn millis_text_micros(s: Seq<char>) -> Option<nat> {
    let d = leading_digits(s) as int;
    let whole = s.subrange(0, d);
    if d == s.len() {
        if d > 0 {
            Some(digits_value(whole) * 1000)
        } else {
            None
        }
    } else if s[d] == '.' {
        let fraction = s.subrange(d + 1, s.len() as int);
        if all_digits(fraction) && d + fraction.len() > 0 {
            Some(digits_value(whole) * 1000 + thousandths(fraction))
        } else {
            None
        }
    } else {
        None
    }
}

/// `millis_text_micros`, held to the range of a `u64`: a value past
/// `u64::MAX` becomes `u64::MAX`.
pub open spec fn millis_text_micros_saturated(s: Seq<char>) -> Option<u64> {
    match millis_text_micros(s) {
        Some(v) => Some(if v > u64::MAX { u64::MAX } else { v as u64 }),
        None => None,
    }
}

/// A run of `n` digits at the start of `s` that ends at the end of `s` or
/// before a character that is no digit is the leading run.
pub proof fn lemma_leading_digits(s: Seq<char>, n: int)
    requires
        0 <= n <= s.len(),
        all_digits(s.subrange(0, n)),
        n == s.len() || !is_digit(s[n]),
    ensures
        leading_digits(s) == n,
    decreases n,
{
    if n == 0 {
    } else {
        assert(s.subrange(0, n)[0] == s[0]);
        let rest = s.drop_first();
        assert forall|i: int| 0 <= i < n - 1 implies is_digit(#[trigger] rest.subrange(0, n - 1)[i]) by {
            assert(rest.subrange(0, n - 1)[i] == s.subrange(0, n)[i + 1]);
        }
        lemma_leading_digits(rest, n - 1);
    }
}

/// Whether `c` is one of the ten ASCII digits.
pub fn is_ascii_digit(c: char) -> (b: bool)
    ensures
        b == is_digit(c),
{
    '0' <= c && c <= '9'
}

/// The value of the digit `c`.
pub fn digit_of(c: char) -> (v: u64)
    requires
        is_digit(c),
    ensures
        v == digit_value(c),
        v <= 9,
{
    (c as u32 - '0' as u32) as u64
}

/// Reads a millisecond figure and gives its microseconds, rounded down and
/// held to the range of a `u64`. Text that is no figure gives `None`.
#[verifier::loop_isolation(false)]
pub fn parse_millis(text: &Vec<char>) -> (r: Option<u64>)
    ensures
        r == millis_text_micros_saturated(text@),
{
    let n: usize = text.len();
    let mut i: usize = 0;
    let mut whole: u64 = 0;
    let mut over: bool = false;
    while i < n && is_ascii_digit(text[i])
        invariant
            i <= n,
            n == text@.len(),
            all_digits(text@.subrange(0, i as int)),
            !over ==> whole == digits_value(text@.subrange(0, i as int)),
            !over ==> whole <= MAX_WHOLE_MILLIS,
            over ==> digits_value(text@.subrange(0, i as int)) > MAX_WHOLE_MILLIS,
        decreases n - i,
    {
        let d: u64 = digit_of(text[i]);
        proof {
            let next = text@.subrange(0, i as int + 1);
            assert(next.drop_last() =~= text@.subrange(0, i as int));
        }
        if !over {
            if whole > (MAX_WHOLE_MILLIS - d) / 10 {
                over = true;
            } else {
                whole = whole * 10 + d;
            }
        }
        i += 1;
    }
    proof {
        lemma_leading_digits(text@, i as int);
    }
    let mut frac: u64 = 0;
    if i == n {
        if i == 0 {
            return None;
        }
    } else {
        if text[i] != '.' {
            return None;
        }
        let start: usize = i + 1;
        let ghost fraction = text@.subrange(start as int, n as int);
        let mut j: usize = start;
        while j < n
            invariant
                start <= j <= n,
                n == text@.len(),
                fraction == text@.subrange(start as int, n as int),
                all_digits(fraction.subrange(0, j - start)),
                frac == digit_at(fraction.subrange(0, j - start), 0) * 100 + digit_at(
                    fraction.subrange(0, j - start),
                    1,
                ) * 10 + digit_at(fraction.subrange(0, j - start), 2),
                frac <= 999,
            decreases n - j,
        {
            let c: char = text[j];
            if !is_ascii_digit(c) {
                proof {
                    assert(fraction[j - start] == c);
                }
                return None;
            }
            let d: u64 = digit_of(c);
            let k: usize = j - start;
            if k == 0 {
                frac = frac + d * 100;
            } else if k == 1 {
                frac = frac + d * 10;
            } else if k == 2 {
                frac = frac + d;
            }
            j += 1;
        }
        proof {
            assert(fraction.subrange(0, n - start) =~= fraction);
        }
        if n == 1 {
            return None;
        }
    }
    if over {
        Some(u64::MAX)
    } else {
        let base: u64 = whole * 1000;
        if frac > u64::MAX - base {
            Some(u64::MAX)
        } else {
            Some(base + frac)
        }
    }
}

} // verus!
