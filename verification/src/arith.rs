//! Arithmetic that stays inside the machine's integers: a result that does
//! not fit is replaced by the nearest bound of its type.

use vstd::prelude::*;

verus! {

/// `v`, or the bound of `i64` nearest to it.
pub open spec fn clamp_i64(v: int) -> int {
    if v < i64::MIN {
        i64::MIN as int
    } else if v > i64::MAX {
        i64::MAX as int
    } else {
        v
    }
}

/// `v`, or the bound of `u64` nearest to it.
pub open spec fn clamp_u64(v: int) -> int {
    if v < 0 {
        0
    } else if v > u64::MAX {
        u64::MAX as int
    } else {
        v
    }
}

/// The larger of two integers.
pub open spec fn max_int(a: int, b: int) -> int {
    if a < b {
        b
    } else {
        a
    }
}

/// The quotient of `a` by a positive `b`, rounded towards zero.
pub open spec fn div_toward_zero(a: int, b: int) -> int
    recommends
        b > 0,
{
    if a < 0 {
        -((-a) / b)
    } else {
        a / b
    }
}

/// The sum of two signed integers, held to the range of `i64`.
pub fn add_i64(a: i64, b: i64) -> (r: i64)
    ensures
        r == clamp_i64(a + b),
{
    let wide: i128 = a as i128 + b as i128;
    if wide > i64::MAX as i128 {
        i64::MAX
    } else if wide < i64::MIN as i128 {
        i64::MIN
    } else {
        wide as i64
    }
}

/// The difference `a - b` of two unsigned integers as a signed one, held to
/// the range of `i64`.
pub fn diff_i64(a: u64, b: u64) -> (r: i64)
    ensures
        r == clamp_i64(a - b),
{
    let wide: i128 = a as i128 - b as i128;
    if wide > i64::MAX as i128 {
        i64::MAX
    } else if wide < i64::MIN as i128 {
        i64::MIN
    } else {
        wide as i64
    }
}

/// The magnitude of a signed integer.
pub fn magnitude(v: i64) -> (r: u64)
    ensures
        r == (if v < 0 { -v } else { v as int }),
{
    if v < 0 {
        let up: i128 = -(v as i128);
        up as u64
    } else {
        v as u64
    }
}

/// The quotient of a signed integer by a positive count, rounded towards
/// zero.
pub fn div_i64(a: i64, b: u64) -> (r: i64)
    requires
        b > 0,
    ensures
        r == div_toward_zero(a as int, b as int),
{
    let m: u64 = magnitude(a);
    let q: u64 = m / b;
    assert(q <= m) by (nonlinear_arith)
        requires
            q == m / b,
            b > 0,
    ;
    if a < 0 {
        let down: i128 = -(q as i128);
        down as i64
    } else {
        q as i64
    }
}

/// The quotient of `a` by a positive `b`, rounded to the nearest integer,
/// a half away from zero.
pub open spec fn div_nearest(a: int, b: int) -> int
    recommends
        b > 0,
{
    if a < 0 {
        -((2 * (-a) + b) / (2 * b))
    } else {
        (2 * a + b) / (2 * b)
    }
}

/// The quotient of a signed integer by a positive count, rounded to the
/// nearest integer, a half away from zero.
pub fn div_nearest_i64(a: i64, b: u64) -> (r: i64)
    requires
        b > 0,
    ensures
        r == div_nearest(a as int, b as int),
{
    let m: u64 = magnitude(a);
    let q: u128 = (2 * (m as u128) + b as u128) / (2 * (b as u128));
    assert(q <= m) by (nonlinear_arith)
        requires
            q == (2 * m + b) / (2 * b),
            b > 0,
            m >= 0,
    ;
    if a < 0 {
        let down: i128 = -(q as i128);
        down as i64
    } else {
        q as i64
    }
}

} // verus!
