//! Fixed-point helpers.
//!
//! Distances, speeds, angles and percentages are `i64` values counted in
//! thousandths: `4_000` is 4.0 metres, `65_000` is 65 km/h.

use vstd::prelude::*;

verus! {

/// `x` confined to the closed interval from `lo` to `hi`.
pub open spec fn clamp_int(x: int, lo: int, hi: int) -> int {
    if x < lo {
        lo
    } else if x > hi {
        hi
    } else {
        x
    }
}

/// Quotient rounded toward zero, for a positive divisor.
pub open spec fn trunc_div(a: int, b: int) -> int
    recommends
        b > 0,
{
    if a >= 0 {
        a / b
    } else {
        -((-a) / b)
    }
}

/// Distance between two values.
pub open spec fn gap(a: int, b: int) -> int {
    if a >= b {
        a - b
    } else {
        b - a
    }
}

/// Confines a fixed-point value to `[lo, hi]`.
pub fn clamp_milli(x: i64, lo: i64, hi: i64) -> (r: i64)
    requires
        lo <= hi,
    ensures
        r == clamp_int(x as int, lo as int, hi as int),
        lo <= r <= hi,
{
    if x < lo {
        lo
    } else if x > hi {
        hi
    } else {
        x
    }
}

/// Confines a wide intermediate result to `[lo, hi]`.
pub fn clamp_wide(x: i128, lo: i64, hi: i64) -> (r: i64)
    requires
        lo <= hi,
    ensures
        r == clamp_int(x as int, lo as int, hi as int),
        lo <= r <= hi,
{
    if x < lo as i128 {
        lo
    } else if x > hi as i128 {
        hi
    } else {
        x as i64
    }
}

/// `x` confined to what a fixed-point value can hold.
pub open spec fn spec_saturate(x: int) -> int {
    clamp_int(x, i64::MIN as int, i64::MAX as int)
}

/// Brings a wide intermediate result back to a fixed-point value, pinning
/// it to the nearest end where it does not fit.
pub fn saturate(x: i128) -> (r: i64)
    ensures
        r == spec_saturate(x as int),
        i64::MIN <= x <= i64::MAX ==> r == x,
{
    clamp_wide(x, i64::MIN, i64::MAX)
}

/// The larger of two fixed-point values.
pub fn max_milli(a: i64, b: i64) -> (r: i64)
    ensures
        r == if a >= b { a } else { b },
{
    if a >= b {
        a
    } else {
        b
    }
}

} // verus!
