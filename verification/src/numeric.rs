//! Fixed-point numeric model of the raw record values.
//!
//! Every numeric field of a record is a decimal string.  The engine reads it
//! as a signed fixed-point number with three fractional digits ("millis"):
//! the string `54.96` denotes 54960 millis.  Digits beyond the third
//! fractional place are ignored (the magnitude is truncated toward zero),
//! and a value whose integer part does not fit below [`MAX_UNITS`] is
//! rejected as non-numeric.  All regulation thresholds have at most two
//! fractional digits, so three places represent every comparison exactly.

use vstd::prelude::*;
use vstd::string::StrSliceExecFns;

verus! {

/// Exclusive bound on the integer part of a parsed value, in whole units.
pub const MAX_UNITS: i64 = 1_000_000_000;

/// One thousand millis make a unit.
pub const MILLIS_PER_UNIT: i64 = 1000;

pub open spec fn is_digit(c: char) -> bool {
    '0' as int <= c as int <= '9' as int
}

pub open spec fn digit_val(c: char) -> int {
    c as int - '0' as int
}

pub open spec fn all_digits(s: Seq<char>) -> bool {
    forall|i: int| 0 <= i < s.len() ==> is_digit(#[trigger] s[i])
}

/// Value of a string of decimal digits, most significant first.
pub open spec fn digits_val(s: Seq<char>) -> int
    decreases s.len(),
{
    if s.len() == 0 {
        0
    } else {
        10 * digits_val(s.drop_last()) + digit_val(s.last())
    }
}

/// The i-th fractional digit, or 0 past the end of the string.
pub open spec fn frac_digit(s: Seq<char>, i: int) -> int {
    if 0 <= i < s.len() {
        digit_val(s[i])
    } else {
        0
    }
}

/// Value in millis of the fractional digit string `s` (what follows the
/// decimal point), truncated toward zero past the third digit.
pub open spec fn frac_millis(s: Seq<char>) -> int {
    100 * frac_digit(s, 0) + 10 * frac_digit(s, 1) + frac_digit(s, 2)
}

/// Index of the first `.` at or after position `i`, or `s.len()` if none.
pub open spec fn first_dot_from(s: Seq<char>, i: int) -> int
    decreases s.len() - i,
{
    if i < 0 || i >= s.len() {
        s.len() as int
    } else if s[i] == '.' {
        i
    } else {
        first_dot_from(s, i + 1)
    }
}

pub proof fn lemma_first_dot_from(s: Seq<char>, i: int)
    requires
        0 <= i <= s.len(),
    ensures
        i <= first_dot_from(s, i) <= s.len(),
        first_dot_from(s, i) < s.len() ==> s[first_dot_from(s, i)] == '.',
        forall|k: int| i <= k < first_dot_from(s, i) ==> s[k] != '.',
    decreases s.len() - i,
{
    if i < s.len() && s[i] != '.' {
        lemma_first_dot_from(s, i + 1);
    }
}

/// The digits of `s` after an optional leading sign.
pub open spec fn body_of(s: Seq<char>) -> Seq<char> {
    if s.len() > 0 && (s[0] == '+' || s[0] == '-') {
        s.drop_first()
    } else {
        s
    }
}

pub open spec fn sign_of(s: Seq<char>) -> int {
    if s.len() > 0 && s[0] == '-' {
        -1
    } else {
        1
    }
}

/// A well-formed unsigned decimal body: digits, at most one dot, and at
/// least one digit somewhere.
pub open spec fn unsigned_wellformed(s: Seq<char>) -> bool {
    let d = first_dot_from(s, 0);
    &&& all_digits(s.subrange(0, d))
    &&& (d < s.len() ==> all_digits(s.subrange(d + 1, s.len() as int)))
    &&& (d < s.len() ==> first_dot_from(s, d + 1) == s.len())
    &&& (d > 0 || d + 1 < s.len())
}

/// Whole-unit part of a well-formed unsigned body.
pub open spec fn unsigned_units(s: Seq<char>) -> int {
    digits_val(s.subrange(0, first_dot_from(s, 0)))
}

/// Fractional part of a well-formed unsigned body, in millis.
pub open spec fn unsigned_frac(s: Seq<char>) -> int {
    let d = first_dot_from(s, 0);
    if d < s.len() {
        frac_millis(s.subrange(d + 1, s.len() as int))
    } else {
        0
    }
}

pub open spec fn unsigned_millis(s: Seq<char>) -> int {
    1000 * unsigned_units(s) + unsigned_frac(s)
}

/// The numeric reading of a raw field value: its fixed-point value in
/// millis, or `None` if the text is not a decimal number the engine
/// accepts (or its integer part reaches [`MAX_UNITS`]).
pub open spec fn parse_millis(s: Seq<char>) -> Option<int> {
    let b = body_of(s);
    if unsigned_wellformed(b) && unsigned_units(b) < MAX_UNITS as int {
        Some(sign_of(s) * unsigned_millis(b))
    } else {
        None
    }
}

/// Largest magnitude, in millis, that `parse_millis` can yield.
pub const MAX_ABS_MILLIS: i64 = 999_999_999_999;

pub proof fn lemma_digits_val_nonneg(s: Seq<char>)
    requires
        all_digits(s),
    ensures
        digits_val(s) >= 0,
    decreases s.len(),
{
    if s.len() > 0 {
        assert(all_digits(s.drop_last()));
        lemma_digits_val_nonneg(s.drop_last());
    }
}

pub proof fn lemma_parse_millis_bounds(s: Seq<char>)
    ensures
        parse_millis(s) is Some ==> -(MAX_ABS_MILLIS as int) <= parse_millis(s)->Some_0
            <= MAX_ABS_MILLIS as int,
{
    let b = body_of(s);
    if unsigned_wellformed(b) && unsigned_units(b) < MAX_UNITS as int {
        let d = first_dot_from(b, 0);
        assert(all_digits(b.subrange(0, d)));
        lemma_digits_val_nonneg(b.subrange(0, d));
        assert(0 <= unsigned_units(b) <= MAX_UNITS - 1);
        assert(0 <= unsigned_frac(b) <= 999);
    }
}

pub proof fn lemma_digits_val_push(s: Seq<char>, c: char)
    ensures
        digits_val(s.push(c)) == 10 * digits_val(s) + digit_val(c),
{
    assert(s.push(c).drop_last() =~= s);
    assert(s.push(c).last() == c);
}

/// Pins `first_dot_from` down: `p` is the first dot at or after `i`, or the
/// end of the string if `p == s.len()`.
pub proof fn lemma_first_dot_from_val(s: Seq<char>, i: int, p: int)
    requires
        0 <= i <= p <= s.len(),
        forall|k: int| i <= k < p ==> s[k] != '.',
        p < s.len() ==> s[p] == '.',
    ensures
        first_dot_from(s, i) == p,
    decreases p - i,
{
    if i < p {
        lemma_first_dot_from_val(s, i + 1, p);
    }
}

/// Quotient of `n / d` truncated toward zero.
pub open spec fn trunc_of(n: int, d: int) -> int
    recommends
        d > 0,
{
    if n >= 0 {
        n / d
    } else {
        -((-n) / d)
    }
}

/// Quotient of `n / d` rounded toward negative infinity.
pub open spec fn floor_of(n: int, d: int) -> int
    recommends
        d > 0,
{
    n / d
}

/// Quotient of `n / d` rounded to the nearest integer, halves away from
/// zero (the rounding the regulations use).
pub open spec fn round_of(n: int, d: int) -> int
    recommends
        d > 0,
        d % 2 == 0,
{
    if n >= 0 {
        (n + d / 2) / d
    } else {
        -((-n + d / 2) / d)
    }
}

/// True when position `j` of `s` holds a decimal digit.
fn is_digit_at(s: &str, j: usize, len: usize) -> (r: bool)
    requires
        j <= len,
        len == s@.len(),
    ensures
        r == (j < len && is_digit(s@[j as int])),
{
    if j < len {
        let c = s.get_char(j);
        let u: u32 = c as u32;
        48 <= u && u <= 57
    } else {
        false
    }
}

/// Runtime reading of a raw field value, faithful to [`parse_millis`].
pub fn parse_millis_exec(s: &str) -> (r: Option<i64>)
    ensures
        match r {
            Some(n) => parse_millis(s@) == Some(n as int),
            None => parse_millis(s@) is None,
        },
{
    let len = s.unicode_len();
    let mut start: usize = 0;
    let mut neg = false;
    if len > 0 {
        let c0 = s.get_char(0);
        if c0 == '-' {
            neg = true;
            start = 1;
        } else if c0 == '+' {
            start = 1;
        }
    }
    let ghost b = s@.subrange(start as int, len as int);
    proof {
        assert(b =~= body_of(s@));
        assert((if neg { -1int } else { 1int }) == sign_of(s@));
    }
    // Integer-part digits.
    let mut j: usize = start;
    let mut units: i64 = 0;
    let mut too_big = false;
    while is_digit_at(s, j, len)
        invariant
            len == s@.len(),
            start <= j <= len,
            b == s@.subrange(start as int, len as int),
            all_digits(b.subrange(0, j - start)),
            0 <= units < MAX_UNITS,
            !too_big ==> units == digits_val(b.subrange(0, j - start)),
            too_big ==> digits_val(b.subrange(0, j - start)) >= MAX_UNITS,
        decreases len - j,
    {
        let c = s.get_char(j);
        let d: i64 = (c as u32 - 48) as i64;
        proof {
            let pre = b.subrange(0, j - start);
            assert(b.subrange(0, j - start + 1) =~= pre.push(b[j - start]));
            assert(b[j - start] == s@[j as int]);
            lemma_digits_val_push(pre, b[j - start]);
            lemma_digits_val_nonneg(pre);
        }
        if units >= 100_000_000 {
            too_big = true;
        } else {
            units = units * 10 + d;
        }
        j += 1;
    }
    let int_digits: usize = j - start;
    if j == len {
        // No fractional part.
        proof {
            assert forall|k: int| 0 <= k < b.len() implies b[k] != '.' by {
                assert(is_digit(b.subrange(0, j - start)[k]));
            }
            lemma_first_dot_from_val(b, 0, b.len() as int);
            assert(b.subrange(0, b.len() as int) =~= b.subrange(0, j - start));
        }
        if int_digits == 0 || too_big {
            return None;
        }
        let total: i64 = units * 1000;
        if neg {
            Some(-total)
        } else {
            Some(total)
        }
    } else {
        let c = s.get_char(j);
        if c != '.' {
            // Neither a digit nor a dot: the body is malformed.
            proof {
                let p = first_dot_from(b, 0);
                lemma_first_dot_from(b, 0);
                if p < j - start {
                    assert(is_digit(b.subrange(0, j - start)[p]));
                    assert(false);
                }
                if p == j - start {
                    assert(b[p] == s@[j as int]);
                    assert(false);
                }
                assert(!is_digit(b.subrange(0, p)[j - start]));
            }
            return None;
        }
        let ghost p = (j - start) as int;
        proof {
            assert forall|k: int| 0 <= k < p implies b[k] != '.' by {
                assert(is_digit(b.subrange(0, j - start)[k]));
            }
            lemma_first_dot_from_val(b, 0, p);
        }
        // Fractional digits; only the first three carry value.
        let mut j2: usize = j + 1;
        let mut frac: i64 = 0;
        while j2 < len
            invariant
                len == s@.len(),
                start <= j < len,
                b == s@.subrange(start as int, len as int),
                b == body_of(s@),
                p == j - start,
                first_dot_from(b, 0) == p,
                j + 1 <= j2 <= len,
                all_digits(s@.subrange(j + 1, j2 as int)),
                0 <= frac <= 999,
                frac == frac_millis(s@.subrange(j + 1, j2 as int)),
            decreases len - j2,
        {
            let c2 = s.get_char(j2);
            let u2: u32 = c2 as u32;
            if u2 < 48 || u2 > 57 {
                // A non-digit after the dot.
                proof {
                    let fr = b.subrange(p + 1, b.len() as int);
                    assert(fr[j2 - j - 1] == s@[j2 as int]);
                    assert(!is_digit(fr[j2 - j - 1]));
                }
                return None;
            }
            let d2: i64 = (u2 - 48) as i64;
            proof {
                let pre = s@.subrange(j + 1, j2 as int);
                assert(s@.subrange(j + 1, j2 + 1) =~= pre.push(s@[j2 as int]));
            }
            let idx: usize = j2 - (j + 1);
            if idx == 0 {
                frac = frac + 100 * d2;
            } else if idx == 1 {
                frac = frac + 10 * d2;
            } else if idx == 2 {
                frac = frac + d2;
            }
            j2 += 1;
        }
        proof {
            assert(s@.subrange(j + 1, len as int) =~= b.subrange(p + 1, b.len() as int));
            assert forall|k: int| p + 1 <= k < b.len() implies b[k] != '.' by {
                assert(is_digit(s@.subrange(j + 1, len as int)[k - p - 1]));
            }
            lemma_first_dot_from_val(b, p + 1, b.len() as int);
        }
        if (int_digits == 0 && j + 1 == len) || too_big {
            return None;
        }
        let total: i64 = units * 1000 + frac;
        if neg {
            Some(-total)
        } else {
            Some(total)
        }
    }
}

/// Nonnegative division helper on machine integers.
fn udiv(n: i64, d: i64) -> (r: i64)
    requires
        0 <= n,
        0 < d,
    ensures
        r == n as int / d as int,
        0 <= r <= n,
{
    proof {
        assert(n as int / d as int <= n as int && n as int / d as int >= 0) by (nonlinear_arith)
            requires
                0 <= n,
                0 < d,
        ;
    }
    ((n as u64) / (d as u64)) as i64
}

/// Truncating division, as `as isize`/`as usize` truncate a float.
pub fn div_trunc(n: i64, d: i64) -> (r: i64)
    requires
        d == 100 || d == MILLIS_PER_UNIT,
        -MAX_ABS_MILLIS <= n <= MAX_ABS_MILLIS,
    ensures
        r == trunc_of(n as int, d as int),
        -MAX_ABS_MILLIS <= r <= MAX_ABS_MILLIS,
{
    if n >= 0 {
        udiv(n, d)
    } else {
        -udiv(-n, d)
    }
}

/// Flooring division, as `f32::floor` before an integer compare.
pub fn div_floor(n: i64, d: i64) -> (r: i64)
    requires
        d == 100 || d == MILLIS_PER_UNIT,
        -MAX_ABS_MILLIS <= n <= MAX_ABS_MILLIS,
    ensures
        r == floor_of(n as int, d as int),
        -MAX_ABS_MILLIS <= r <= MAX_ABS_MILLIS,
{
    if n >= 0 {
        udiv(n, d)
    } else {
        let nn = -n;
        let m = udiv(nn, d);
        let rem = ((nn as u64) % (d as u64)) as i64;
        proof {
            let ni = nn as int;
            let di = d as int;
            vstd::arithmetic::div_mod::lemma_fundamental_div_mod(ni, di);
            if rem == 0 {
                assert(n as int / di == -(m as int)) by (nonlinear_arith)
                    requires
                        n as int == -ni,
                        ni == di * (ni / di),
                        m == ni / di,
                        di > 0,
                ;
            } else {
                assert(n as int / di == -(m as int) - 1) by (nonlinear_arith)
                    requires
                        n as int == -ni,
                        ni == di * (ni / di) + ni % di,
                        0 < ni % di < di,
                        m == ni / di,
                        di > 0,
                ;
            }
        }
        if rem == 0 {
            -m
        } else {
            -m - 1
        }
    }
}

/// Rounding division: nearest integer, halves away from zero, as
/// `f32::round` before a compare.
pub fn div_round(n: i64, d: i64) -> (r: i64)
    requires
        d == 100 || d == MILLIS_PER_UNIT,
        -MAX_ABS_MILLIS <= n <= MAX_ABS_MILLIS,
    ensures
        r == round_of(n as int, d as int),
        -MAX_ABS_MILLIS <= r <= MAX_ABS_MILLIS,
{
    if n >= 0 {
        udiv(n + d / 2, d)
    } else {
        -udiv(-n + d / 2, d)
    }
}

} // verus!
