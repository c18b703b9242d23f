//! Integer arithmetic that turns raw capacity and rate figures into
//! percentages and time estimates.

use vstd::prelude::*;

verus! {

/// `n / d` rounded to the nearest integer, halves rounded away from zero.
pub open spec fn round_div(n: int, d: int) -> int
    recommends
        d > 0,
{
    if n >= 0 {
        (2 * n + d) / (2 * d)
    } else {
        -((-2 * n + d) / (2 * d))
    }
}

/// `n / d` with the fractional part dropped (rounded toward zero).
pub open spec fn trunc_div(n: int, d: int) -> int
    recommends
        d > 0,
{
    if n >= 0 {
        n / d
    } else {
        -((-n) / d)
    }
}

/// `x` forced into the range `0..=100`.
pub open spec fn clamp_percent(x: int) -> int {
    if x < 0 {
        0
    } else if x > 100 {
        100
    } else {
        x
    }
}

/// `x` forced into the range of `i32`.
pub open spec fn saturate_i32(x: int) -> int {
    if x < i32::MIN {
        i32::MIN as int
    } else if x > i32::MAX {
        i32::MAX as int
    } else {
        x
    }
}

/// The share `part / whole` as a whole percentage, rounded and clamped;
/// absent when `whole` is not positive.
pub open spec fn ratio_percent(part: int, whole: int) -> Option<int> {
    if whole <= 0 {
        None
    } else {
        Some(clamp_percent(round_div(part * 100, whole)))
    }
}

/// Minutes until empty and minutes until full for a signed rate
/// (positive while charging), in that order.
pub open spec fn time_estimates_spec(remaining: int, full: int, rate: int) -> (Option<int>, Option<int>) {
    if rate > 0 {
        (None, Some(saturate_i32(trunc_div((full - remaining) * 60, rate))))
    } else if rate < 0 {
        (Some(saturate_i32(trunc_div(remaining * 60, -rate))), None)
    } else {
        (None, None)
    }
}

fn rounded_quotient(n: i128, d: i128) -> (r: i128)
    requires
        d > 0,
        d <= i64::MAX,
        -0x1_0000_0000_0000_0000_0000 <= n <= 0x1_0000_0000_0000_0000_0000,
    ensures
        r == round_div(n as int, d as int),
        n >= 0 ==> 0 <= r,
        n < 0 ==> r <= 0,
{
    if n >= 0 {
        assert((2 * n + d) / (2 * d) >= 0) by (nonlinear_arith)
            requires
                n >= 0,
                d > 0,
        ;
        (2 * n + d) / (2 * d)
    } else {
        assert((-2 * (n as int) + d) / (2 * (d as int)) >= 0) by (nonlinear_arith)
            requires
                n < 0,
                d > 0,
        ;
        -((-2 * n + d) / (2 * d))
    }
}

fn truncated_quotient(n: i128, d: i128) -> (r: i128)
    requires
        d > 0,
        -0x1_0000_0000_0000_0000_0000 <= n <= 0x1_0000_0000_0000_0000_0000,
    ensures
        r == trunc_div(n as int, d as int),
{
    if n >= 0 {
        assert(0 <= n / d <= n) by (nonlinear_arith)
            requires
                n >= 0,
                d > 0,
        ;
        n / d
    } else {
        assert(0 <= (-(n as int)) / (d as int) <= -(n as int)) by (nonlinear_arith)
            requires
                n < 0,
                d > 0,
        ;
        -((-n) / d)
    }
}

fn clamp_to_percent(x: i128) -> (r: i32)
    ensures
        r == clamp_percent(x as int),
{
    if x < 0 {
        0
    } else if x > 100 {
        100
    } else {
        x as i32
    }
}

fn saturate_to_i32(x: i128) -> (r: i32)
    ensures
        r == saturate_i32(x as int),
{
    if x < i32::MIN as i128 {
        i32::MIN
    } else if x > i32::MAX as i128 {
        i32::MAX
    } else {
        x as i32
    }
}

/// Whole percentage of `part` in `whole`, rounded to the nearest integer
/// and clamped into `0..=100`. `None` when `whole` is zero or negative,
/// so no division by zero can happen.
pub fn ratio_to_percent(part: i64, whole: i64) -> (r: Option<i32>)
    ensures
        whole <= 0 <==> r is None,
        r matches Some(p) ==> 0 <= p <= 100,
        r matches Some(p) ==> Some(p as int) == ratio_percent(part as int, whole as int),
{
    if whole <= 0 {
        None
    } else {
        let n: i128 = part as i128 * 100;
        let q = rounded_quotient(n, whole as i128);
        Some(clamp_to_percent(q))
    }
}

/// Charge level from the remaining and full-charge capacities
/// (both in one unit).
pub fn charge_percent(remaining: i64, full: i64) -> (r: Option<i32>)
    ensures
        full <= 0 <==> r is None,
        r matches Some(p) ==> 0 <= p <= 100,
        r matches Some(p) ==> Some(p as int) == ratio_percent(remaining as int, full as int),
{
    ratio_to_percent(remaining, full)
}

/// Battery health: the full-charge capacity as a share of the design
/// capacity. `None` when the design figure is not positive.
pub fn health_percent(full: i64, design: i64) -> (r: Option<i32>)
    ensures
        design <= 0 <==> r is None,
        r matches Some(h) ==> 0 <= h <= 100,
        r matches Some(h) ==> Some(h as int) == ratio_percent(full as int, design as int),
{
    ratio_to_percent(full, design)
}

/// Minutes to empty (discharging, negative `rate`) or to full (charging,
/// positive `rate`), truncated; neither when `rate` is zero. Capacities
/// are in a unit of energy or charge and `rate` in that unit per hour.
pub fn time_estimates(remaining: i64, full: i64, rate: i64) -> (r: (Option<i32>, Option<i32>))
    ensures
        r.0 matches Some(t) ==> Some(t as int) == time_estimates_spec(
            remaining as int,
            full as int,
            rate as int,
        ).0,
        r.1 matches Some(t) ==> Some(t as int) == time_estimates_spec(
            remaining as int,
            full as int,
            rate as int,
        ).1,
        r.0 is Some <==> rate < 0,
        r.1 is Some <==> rate > 0,
{
    if rate > 0 {
        let n: i128 = (full as i128 - remaining as i128) * 60;
        let t = truncated_quotient(n, rate as i128);
        (None, Some(saturate_to_i32(t)))
    } else if rate < 0 {
        let n: i128 = remaining as i128 * 60;
        let t = truncated_quotient(n, -(rate as i128));
        (Some(saturate_to_i32(t)), None)
    } else {
        (None, None)
    }
}

} // verus!
