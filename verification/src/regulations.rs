//! The regulation abstraction and the check combinators the variants share.
//!
//! A regulation variant is a stateless, named rule set.  Evaluation runs
//! five ordered phases; within a phase, checks run in fixed order, and the
//! whole evaluation stops at the first failing check.  Each check's outcome
//! is modelled as `Option<Seq<char>>`: `None` passes, `Some(reason)` names
//! the first violated rule.

use vstd::prelude::*;
use vstd::string::StringExecFns;
use crate::record::{
    CarData, spec_get, spec_get_millis, spec_get_usize, not_numeric_reason,
};
use crate::numeric::{
    parse_millis, parse_millis_exec, trunc_of, round_of, floor_of, div_trunc, div_round,
    div_floor, lemma_parse_millis_bounds, MAX_ABS_MILLIS, MILLIS_PER_UNIT,
};
use crate::strutil::{contains_sub, has_prefix, str_contains, str_eq, str_has_prefix};

pub mod mcs_s1_group_c;
pub mod mcs_s1_gt1;

verus! {

/// The first failing outcome of two checks run in order.
pub open spec fn first_fail(a: Option<Seq<char>>, b: Option<Seq<char>>) -> Option<Seq<char>> {
    if a is Some {
        a
    } else {
        b
    }
}

/// A failed check is final: whatever stands after it in the order, the
/// composed outcome is that check's reason.
pub proof fn lemma_first_fail_left(a: Option<Seq<char>>, b: Option<Seq<char>>)
    ensures
        a is Some ==> first_fail(a, b) == a,
{
}

/// A passed check is silent: the composed outcome is whatever the checks
/// after it say.
pub proof fn lemma_first_fail_right(a: Option<Seq<char>>, b: Option<Seq<char>>)
    ensures
        a is None ==> first_fail(a, b) == b,
{
}

/// An executable verdict reports exactly what a spec-level outcome says:
/// `Ok` iff the checks pass, `Err` carrying the first violated rule's
/// reason.
pub open spec fn reports(r: Result<(), String>, v: Option<Seq<char>>) -> bool {
    match r {
        Ok(u) => v is None,
        Err(m) => v == Some(m@),
    }
}

/// A regulation variant: a fixed, ordered rule set for one competition
/// class.
pub trait Regulations {
    /// The verdict this rule set assigns to a record's contents: `None`
    /// when every check passes, otherwise the first violated rule's reason.
    spec fn verdict(&self, ps: Seq<(Seq<char>, Seq<char>)>) -> Option<Seq<char>>;

    /// Runs the ordered checks and returns the first violated rule, if any.
    fn check(&self, car_data: CarData) -> (r: Result<(), String>)
        ensures
            reports(r, self.verdict(car_data@)),
    ;
}

/// Fails unless the field reads as the exact whole number `want`.
pub open spec fn usize_eq_check(
    ps: Seq<(Seq<char>, Seq<char>)>,
    key: Seq<char>,
    want: int,
    reason: Seq<char>,
) -> Option<Seq<char>> {
    match spec_get_usize(ps, key) {
        Ok(u) => if u != want {
            Some(reason)
        } else {
            None
        },
        Err(e) => Some(e),
    }
}

/// Fails when the field's whole-number reading exceeds `max`.
pub open spec fn usize_gt_check(
    ps: Seq<(Seq<char>, Seq<char>)>,
    key: Seq<char>,
    max: int,
    reason: Seq<char>,
) -> Option<Seq<char>> {
    match spec_get_usize(ps, key) {
        Ok(u) => if u > max {
            Some(reason)
        } else {
            None
        },
        Err(e) => Some(e),
    }
}

/// Fails when the field's value, rounded to the nearest unit, is below
/// `min_millis`.
pub open spec fn round_lt_check(
    ps: Seq<(Seq<char>, Seq<char>)>,
    key: Seq<char>,
    min_millis: int,
    reason: Seq<char>,
) -> Option<Seq<char>> {
    match spec_get_millis(ps, key) {
        Ok(n) => if round_of(n, MILLIS_PER_UNIT as int) * (MILLIS_PER_UNIT as int) < min_millis {
            Some(reason)
        } else {
            None
        },
        Err(e) => Some(e),
    }
}

/// Fails when the field's value, rounded to the nearest unit, exceeds
/// `max_millis`.
pub open spec fn round_gt_check(
    ps: Seq<(Seq<char>, Seq<char>)>,
    key: Seq<char>,
    max_millis: int,
    reason: Seq<char>,
) -> Option<Seq<char>> {
    match spec_get_millis(ps, key) {
        Ok(n) => if round_of(n, MILLIS_PER_UNIT as int) * (MILLIS_PER_UNIT as int) > max_millis {
            Some(reason)
        } else {
            None
        },
        Err(e) => Some(e),
    }
}

/// Fails when the field's value, floored to a whole unit, exceeds
/// `max_millis` (floored, not rounded: the distinction is load-bearing).
pub open spec fn floor_gt_check(
    ps: Seq<(Seq<char>, Seq<char>)>,
    key: Seq<char>,
    max_millis: int,
    reason: Seq<char>,
) -> Option<Seq<char>> {
    match spec_get_millis(ps, key) {
        Ok(n) => if floor_of(n, MILLIS_PER_UNIT as int) * (MILLIS_PER_UNIT as int) > max_millis {
            Some(reason)
        } else {
            None
        },
        Err(e) => Some(e),
    }
}

/// Fails when the field's raw value exceeds `max_millis`.
pub open spec fn millis_gt_check(
    ps: Seq<(Seq<char>, Seq<char>)>,
    key: Seq<char>,
    max_millis: int,
    reason: Seq<char>,
) -> Option<Seq<char>> {
    match spec_get_millis(ps, key) {
        Ok(n) => if n > max_millis {
            Some(reason)
        } else {
            None
        },
        Err(e) => Some(e),
    }
}

/// Fails when the field, scaled to tenths and rounded (the two-step
/// one-decimal rounding the regulations use), is below `min_tenths`.
pub open spec fn tenths_lt_check(
    ps: Seq<(Seq<char>, Seq<char>)>,
    key: Seq<char>,
    min_tenths: int,
    reason: Seq<char>,
) -> Option<Seq<char>> {
    match spec_get_millis(ps, key) {
        Ok(n) => if round_of(n, 100) < min_tenths {
            Some(reason)
        } else {
            None
        },
        Err(e) => Some(e),
    }
}

/// Fails unless the field, truncated toward zero to a whole number, equals
/// `want`.
pub open spec fn trunc_ne_check(
    ps: Seq<(Seq<char>, Seq<char>)>,
    key: Seq<char>,
    want: int,
    reason: Seq<char>,
) -> Option<Seq<char>> {
    match spec_get_millis(ps, key) {
        Ok(n) => if trunc_of(n, MILLIS_PER_UNIT as int) != want {
            Some(reason)
        } else {
            None
        },
        Err(e) => Some(e),
    }
}

/// Fails unless the field holds exactly `want`.
pub open spec fn value_is_check(
    ps: Seq<(Seq<char>, Seq<char>)>,
    key: Seq<char>,
    want: Seq<char>,
    reason: Seq<char>,
) -> Option<Seq<char>> {
    match spec_get(ps, key) {
        Ok(v) => if v != want {
            Some(reason)
        } else {
            None
        },
        Err(e) => Some(e),
    }
}

/// Fails when the field holds exactly `bad`.
pub open spec fn value_not_check(
    ps: Seq<(Seq<char>, Seq<char>)>,
    key: Seq<char>,
    bad: Seq<char>,
    reason: Seq<char>,
) -> Option<Seq<char>> {
    match spec_get(ps, key) {
        Ok(v) => if v == bad {
            Some(reason)
        } else {
            None
        },
        Err(e) => Some(e),
    }
}

/// Fails when the field's value contains `needle`.
pub open spec fn value_lacks_check(
    ps: Seq<(Seq<char>, Seq<char>)>,
    key: Seq<char>,
    needle: Seq<char>,
    reason: Seq<char>,
) -> Option<Seq<char>> {
    match spec_get(ps, key) {
        Ok(v) => if contains_sub(v, needle) {
            Some(reason)
        } else {
            None
        },
        Err(e) => Some(e),
    }
}

/// Fails unless the field's value starts with `prefix` (or, with `want`
/// false, fails when it does).
pub open spec fn prefix_check(
    ps: Seq<(Seq<char>, Seq<char>)>,
    key: Seq<char>,
    prefix: Seq<char>,
    want: bool,
    reason: Seq<char>,
) -> Option<Seq<char>> {
    match spec_get(ps, key) {
        Ok(v) => if has_prefix(v, prefix) != want {
            Some(reason)
        } else {
            None
        },
        Err(e) => Some(e),
    }
}

/// Fails when any of the three small-seat-row fields reads above zero,
/// probing them in order.
pub open spec fn seats_check(ps: Seq<(Seq<char>, Seq<char>)>, reason: Seq<char>) -> Option<
    Seq<char>,
> {
    match spec_get_usize(ps, "Small 1st Row Seats"@) {
        Err(e) => Some(e),
        Ok(a) => if a > 0 {
            Some(reason)
        } else {
            match spec_get_usize(ps, "Small 2nd Row Seats"@) {
                Err(e) => Some(e),
                Ok(b) => if b > 0 {
                    Some(reason)
                } else {
                    match spec_get_usize(ps, "Small 3rd Row Seats"@) {
                        Err(e) => Some(e),
                        Ok(c) => if c > 0 {
                            Some(reason)
                        } else {
                            None
                        },
                    }
                },
            }
        },
    }
}

/// Fails when either displacement field exceeds `max_millis`, probing the
/// family figure first.
pub open spec fn displacement_check(
    ps: Seq<(Seq<char>, Seq<char>)>,
    max_millis: int,
    reason: Seq<char>,
) -> Option<Seq<char>> {
    match spec_get_millis(ps, "Family Displacement"@) {
        Err(e) => Some(e),
        Ok(a) => if a > max_millis {
            Some(reason)
        } else {
            match spec_get_millis(ps, "Variant Displacement"@) {
                Err(e) => Some(e),
                Ok(b) => if b > max_millis {
                    Some(reason)
                } else {
                    None
                },
            }
        },
    }
}

/// A field name selected by the quality-slider scan: it must mention
/// `Quality`, and, when `needs_variant` is set, `Variant` as well.
pub open spec fn quality_key_match(k: Seq<char>, needs_variant: bool) -> bool {
    contains_sub(k, "Quality"@) && (needs_variant ==> contains_sub(k, "Variant"@))
}

/// Aggregate scan over every field whose name matches the quality-slider
/// pattern: unreadable matched values fail as non-numeric; otherwise the
/// scan fails when any matched value, truncated to a whole number, falls
/// outside `[lo, hi]`.
pub open spec fn quality_scan_check(
    ps: Seq<(Seq<char>, Seq<char>)>,
    needs_variant: bool,
    lo: int,
    hi: int,
    reason: Seq<char>,
) -> Option<Seq<char>> {
    if exists|i: int|
        0 <= i < ps.len() && quality_key_match((#[trigger] ps[i]).0, needs_variant) && parse_millis(
            ps[i].1,
        ) is None {
        Some(not_numeric_reason())
    } else if exists|i: int|
        0 <= i < ps.len() && quality_key_match((#[trigger] ps[i]).0, needs_variant) && !(lo
            <= trunc_of(parse_millis(ps[i].1)->Some_0, MILLIS_PER_UNIT as int) <= hi) {
        Some(reason)
    } else {
        None
    }
}

/// Executable twin of [`usize_eq_check`].
pub fn check_usize_eq(cd: &CarData, key: &str, want: usize, reason: &str) -> (r: Result<
    (),
    String,
>)
    ensures
        reports(r, usize_eq_check(cd@, key@, want as int, reason@)),
{
    match cd.get_usize(key) {
        Err(m) => Err(m),
        Ok(u) => if u != want {
            Err(reason.to_owned())
        } else {
            Ok(())
        },
    }
}

/// Executable twin of [`usize_gt_check`].
pub fn check_usize_gt(cd: &CarData, key: &str, max: usize, reason: &str) -> (r: Result<
    (),
    String,
>)
    ensures
        reports(r, usize_gt_check(cd@, key@, max as int, reason@)),
{
    match cd.get_usize(key) {
        Err(m) => Err(m),
        Ok(u) => if u > max {
            Err(reason.to_owned())
        } else {
            Ok(())
        },
    }
}

/// Executable twin of [`round_lt_check`].
pub fn check_round_lt(cd: &CarData, key: &str, min_millis: i64, reason: &str) -> (r: Result<
    (),
    String,
>)
    requires
        -MAX_ABS_MILLIS <= min_millis <= MAX_ABS_MILLIS,
    ensures
        reports(r, round_lt_check(cd@, key@, min_millis as int, reason@)),
{
    match cd.get_millis(key) {
        Err(m) => Err(m),
        Ok(n) => {
            let rounded = div_round(n, MILLIS_PER_UNIT);
            if rounded * MILLIS_PER_UNIT < min_millis {
                Err(reason.to_owned())
            } else {
                Ok(())
            }
        },
    }
}

/// Executable twin of [`round_gt_check`].
pub fn check_round_gt(cd: &CarData, key: &str, max_millis: i64, reason: &str) -> (r: Result<
    (),
    String,
>)
    requires
        -MAX_ABS_MILLIS <= max_millis <= MAX_ABS_MILLIS,
    ensures
        reports(r, round_gt_check(cd@, key@, max_millis as int, reason@)),
{
    match cd.get_millis(key) {
        Err(m) => Err(m),
        Ok(n) => {
            let rounded = div_round(n, MILLIS_PER_UNIT);
            if rounded * MILLIS_PER_UNIT > max_millis {
                Err(reason.to_owned())
            } else {
                Ok(())
            }
        },
    }
}

/// Executable twin of [`floor_gt_check`].
pub fn check_floor_gt(cd: &CarData, key: &str, max_millis: i64, reason: &str) -> (r: Result<
    (),
    String,
>)
    requires
        -MAX_ABS_MILLIS <= max_millis <= MAX_ABS_MILLIS,
    ensures
        reports(r, floor_gt_check(cd@, key@, max_millis as int, reason@)),
{
    match cd.get_millis(key) {
        Err(m) => Err(m),
        Ok(n) => {
            let floored = div_floor(n, MILLIS_PER_UNIT);
            if floored * MILLIS_PER_UNIT > max_millis {
                Err(reason.to_owned())
            } else {
                Ok(())
            }
        },
    }
}

/// Executable twin of [`millis_gt_check`].
pub fn check_millis_gt(cd: &CarData, key: &str, max_millis: i64, reason: &str) -> (r: Result<
    (),
    String,
>)
    ensures
        reports(r, millis_gt_check(cd@, key@, max_millis as int, reason@)),
{
    match cd.get_millis(key) {
        Err(m) => Err(m),
        Ok(n) => if n > max_millis {
            Err(reason.to_owned())
        } else {
            Ok(())
        },
    }
}

/// Executable twin of [`tenths_lt_check`].
pub fn check_tenths_lt(cd: &CarData, key: &str, min_tenths: i64, reason: &str) -> (r: Result<
    (),
    String,
>)
    ensures
        reports(r, tenths_lt_check(cd@, key@, min_tenths as int, reason@)),
{
    match cd.get_millis(key) {
        Err(m) => Err(m),
        Ok(n) => {
            let tenths = div_round(n, 100);
            if tenths < min_tenths {
                Err(reason.to_owned())
            } else {
                Ok(())
            }
        },
    }
}

/// Executable twin of [`trunc_ne_check`].
pub fn check_trunc_eq(cd: &CarData, key: &str, want: i64, reason: &str) -> (r: Result<(), String>)
    ensures
        reports(r, trunc_ne_check(cd@, key@, want as int, reason@)),
{
    match cd.get_millis(key) {
        Err(m) => Err(m),
        Ok(n) => {
            let t = div_trunc(n, MILLIS_PER_UNIT);
            if t != want {
                Err(reason.to_owned())
            } else {
                Ok(())
            }
        },
    }
}

/// Executable twin of [`value_is_check`].
pub fn check_value_is(cd: &CarData, key: &str, want: &str, reason: &str) -> (r: Result<
    (),
    String,
>)
    ensures
        reports(r, value_is_check(cd@, key@, want@, reason@)),
{
    match cd.get(key) {
        Err(m) => Err(m),
        Ok(v) => if str_eq(v.as_str(), want) {
            Ok(())
        } else {
            Err(reason.to_owned())
        },
    }
}

/// Executable twin of [`value_not_check`].
pub fn check_value_not(cd: &CarData, key: &str, bad: &str, reason: &str) -> (r: Result<
    (),
    String,
>)
    ensures
        reports(r, value_not_check(cd@, key@, bad@, reason@)),
{
    match cd.get(key) {
        Err(m) => Err(m),
        Ok(v) => if str_eq(v.as_str(), bad) {
            Err(reason.to_owned())
        } else {
            Ok(())
        },
    }
}

/// Executable twin of [`value_lacks_check`].
pub fn check_value_lacks(cd: &CarData, key: &str, needle: &str, reason: &str) -> (r: Result<
    (),
    String,
>)
    ensures
        reports(r, value_lacks_check(cd@, key@, needle@, reason@)),
{
    match cd.get(key) {
        Err(m) => Err(m),
        Ok(v) => if str_contains(v.as_str(), needle) {
            Err(reason.to_owned())
        } else {
            Ok(())
        },
    }
}

/// Executable twin of [`prefix_check`].
pub fn check_prefix(cd: &CarData, key: &str, prefix: &str, want: bool, reason: &str) -> (r: Result<
    (),
    String,
>)
    ensures
        reports(r, prefix_check(cd@, key@, prefix@, want, reason@)),
{
    match cd.get(key) {
        Err(m) => Err(m),
        Ok(v) => if str_has_prefix(v.as_str(), prefix) != want {
            Err(reason.to_owned())
        } else {
            Ok(())
        },
    }
}

/// Executable twin of [`seats_check`].
pub fn check_seats(cd: &CarData, reason: &str) -> (r: Result<(), String>)
    ensures
        reports(r, seats_check(cd@, reason@)),
{
    match cd.get_usize("Small 1st Row Seats") {
        Err(m) => Err(m),
        Ok(a) => if a > 0 {
            Err(reason.to_owned())
        } else {
            match cd.get_usize("Small 2nd Row Seats") {
                Err(m) => Err(m),
                Ok(b) => if b > 0 {
                    Err(reason.to_owned())
                } else {
                    match cd.get_usize("Small 3rd Row Seats") {
                        Err(m) => Err(m),
                        Ok(c) => if c > 0 {
                            Err(reason.to_owned())
                        } else {
                            Ok(())
                        },
                    }
                },
            }
        },
    }
}

/// Executable twin of [`displacement_check`].
pub fn check_displacement(cd: &CarData, max_millis: i64, reason: &str) -> (r: Result<(), String>)
    ensures
        reports(r, displacement_check(cd@, max_millis as int, reason@)),
{
    match cd.get_millis("Family Displacement") {
        Err(m) => Err(m),
        Ok(a) => if a > max_millis {
            Err(reason.to_owned())
        } else {
            match cd.get_millis("Variant Displacement") {
                Err(m) => Err(m),
                Ok(b) => if b > max_millis {
                    Err(reason.to_owned())
                } else {
                    Ok(())
                },
            }
        },
    }
}

/// Executable twin of [`quality_scan_check`]: folds over the dynamically
/// selected fields, tracking whether any truncated value leaves the band.
pub fn check_quality_scan(
    cd: &CarData,
    needs_variant: bool,
    lo: i64,
    hi: i64,
    reason: &str,
) -> (r: Result<(), String>)
    requires
        -MAX_ABS_MILLIS <= lo <= hi <= MAX_ABS_MILLIS,
    ensures
        reports(r, quality_scan_check(cd@, needs_variant, lo as int, hi as int, reason@)),
{
    let n = cd.len();
    let mut i: usize = 0;
    let mut out_of_band = false;
    while i < n
        invariant
            n == cd@.len(),
            i <= n,
            -MAX_ABS_MILLIS <= lo <= hi <= MAX_ABS_MILLIS,
            forall|k: int|
                0 <= k < i && quality_key_match((#[trigger] cd@[k]).0, needs_variant)
                    ==> parse_millis(cd@[k].1) is Some,
            out_of_band <==> exists|k: int|
                0 <= k < i && quality_key_match((#[trigger] cd@[k]).0, needs_variant) && !(lo as int
                    <= trunc_of(parse_millis(cd@[k].1)->Some_0, MILLIS_PER_UNIT as int)
                    <= hi as int),
        decreases n - i,
    {
        let key = cd.key_at(i);
        let mut matched = str_contains(key.as_str(), "Quality");
        if matched && needs_variant {
            matched = str_contains(key.as_str(), "Variant");
        }
        if matched {
            match parse_millis_exec(cd.value_at(i).as_str()) {
                None => {
                    return Err("invalid float literal".to_owned());
                },
                Some(v) => {
                    proof {
                        lemma_parse_millis_bounds(cd@[i as int].1);
                    }
                    let t = div_trunc(v, MILLIS_PER_UNIT);
                    if t < lo || t > hi {
                        out_of_band = true;
                    }
                },
            }
        }
        i += 1;
    }
    if out_of_band {
        Err(reason.to_owned())
    } else {
        Ok(())
    }
}

} // verus!
