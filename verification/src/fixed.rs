//! Saturating fixed-point scalar arithmetic.
//!
//! A scalar is an `i64` holding `SCALE` units per 1.0 of the modelled real
//! quantity (metres, or a unit-quaternion component). Every operation
//! saturates at the `i64` range instead of wrapping or panicking, and every
//! operation has a spec-level twin that states its value exactly.

use vstd::prelude::*;

verus! {

/// Fixed-point units per 1.0.
pub const SCALE: i64 = 1_000_000;

/// Fixed-point representation of 0.5.
pub const FX_HALF: i64 = 500_000;

/// Fixed-point representation of 2.0.
pub const FX_TWO: i64 = 2_000_000;

/// Clamp a mathematical integer into the `i64` range.
pub open spec fn spec_clamp_i64(v: int) -> int {
    if v > i64::MAX as int {
        i64::MAX as int
    } else if v < i64::MIN as int {
        i64::MIN as int
    } else {
        v
    }
}

pub open spec fn spec_abs(a: int) -> int {
    if a < 0 {
        -a
    } else {
        a
    }
}

pub open spec fn spec_sat_add(a: int, b: int) -> int {
    spec_clamp_i64(a + b)
}

pub open spec fn spec_sat_sub(a: int, b: int) -> int {
    spec_clamp_i64(a - b)
}

pub open spec fn spec_sat_neg(a: int) -> int {
    spec_clamp_i64(-a)
}

/// Fixed-point product, truncated toward zero, saturated at the `i64` range.
pub open spec fn spec_fmul(a: int, b: int) -> int {
    let m = (spec_abs(a) * spec_abs(b)) / (SCALE as int);
    if (a < 0) != (b < 0) {
        spec_clamp_i64(-m)
    } else {
        spec_clamp_i64(m)
    }
}

/// Fixed-point quotient, truncated toward zero, saturated; 0 when the divisor
/// is 0 (callers guard the divisor, the total definition keeps specs simple).
pub open spec fn spec_fdiv(a: int, b: int) -> int {
    if b == 0 {
        0
    } else {
        let m = (spec_abs(a) * (SCALE as int)) / spec_abs(b);
        if (a < 0) != (b < 0) {
            spec_clamp_i64(-m)
        } else {
            spec_clamp_i64(m)
        }
    }
}

pub open spec fn spec_min(a: int, b: int) -> int {
    if a <= b {
        a
    } else {
        b
    }
}

/// `r` is the integer square root of `n`.
pub open spec fn spec_is_isqrt(n: int, r: int) -> bool {
    0 <= r && r * r <= n && n < (r + 1) * (r + 1)
}

pub open spec fn spec_isqrt(n: int) -> int {
    choose|r: int| spec_is_isqrt(n, r)
}

/// Fixed-point square root: 0 for non-positive input.
pub open spec fn spec_fsqrt(v: int) -> int {
    if v <= 0 {
        0
    } else {
        spec_isqrt(v * (SCALE as int))
    }
}

pub proof fn lemma_isqrt_eq(n: int, r: int)
    requires
        spec_is_isqrt(n, r),
    ensures
        spec_isqrt(n) == r,
{
    assert(exists|x: int| spec_is_isqrt(n, x));
    let r2 = spec_isqrt(n);
    assert(spec_is_isqrt(n, r2));
    if r < r2 {
        assert((r + 1) * (r + 1) <= r2 * r2) by (nonlinear_arith)
            requires
                0 <= r,
                r + 1 <= r2,
        ;
        assert(false);
    }
    if r2 < r {
        assert((r2 + 1) * (r2 + 1) <= r * r) by (nonlinear_arith)
            requires
                0 <= r2,
                r2 + 1 <= r,
        ;
        assert(false);
    }
}

/// Saturating addition.
pub fn sat_add(a: i64, b: i64) -> (r: i64)
    ensures
        r as int == spec_sat_add(a as int, b as int),
{
    let s: i128 = a as i128 + b as i128;
    if s > i64::MAX as i128 {
        i64::MAX
    } else if s < i64::MIN as i128 {
        i64::MIN
    } else {
        s as i64
    }
}

/// Saturating subtraction.
pub fn sat_sub(a: i64, b: i64) -> (r: i64)
    ensures
        r as int == spec_sat_sub(a as int, b as int),
{
    let s: i128 = a as i128 - b as i128;
    if s > i64::MAX as i128 {
        i64::MAX
    } else if s < i64::MIN as i128 {
        i64::MIN
    } else {
        s as i64
    }
}

/// Saturating negation.
pub fn sat_neg(a: i64) -> (r: i64)
    ensures
        r as int == spec_sat_neg(a as int),
{
    if a == i64::MIN {
        i64::MAX
    } else {
        -a
    }
}

/// The smaller of two scalars.
pub fn fmin(a: i64, b: i64) -> (r: i64)
    ensures
        r as int == spec_min(a as int, b as int),
{
    if a <= b {
        a
    } else {
        b
    }
}

/// Magnitude of an `i64` as a `u128`.
fn abs_mag(a: i64) -> (r: u128)
    ensures
        r as int == spec_abs(a as int),
{
    if a < 0 {
        (-(a as i128)) as u128
    } else {
        a as u128
    }
}

/// Clamp a non-negative magnitude into `i64`, applying a sign.
fn clamp_signed(m: u128, neg: bool) -> (r: i64)
    ensures
        neg ==> r as int == spec_clamp_i64(-(m as int)),
        !neg ==> r as int == spec_clamp_i64(m as int),
{
    if neg {
        if m >= 9_223_372_036_854_775_808u128 {
            i64::MIN
        } else {
            -(m as i64)
        }
    } else {
        if m > 9_223_372_036_854_775_807u128 {
            i64::MAX
        } else {
            m as i64
        }
    }
}

/// Fixed-point multiplication.
pub fn fmul(a: i64, b: i64) -> (r: i64)
    ensures
        r as int == spec_fmul(a as int, b as int),
{
    let neg: bool = (a < 0) != (b < 0);
    let ua: u128 = abs_mag(a);
    let ub: u128 = abs_mag(b);
    proof {
        assert(ua <= 9_223_372_036_854_775_808u128);
        assert(ub <= 9_223_372_036_854_775_808u128);
        assert(ua as int * ub as int <= 9_223_372_036_854_775_808 * 9_223_372_036_854_775_808)
            by (nonlinear_arith)
            requires
                ua as int <= 9_223_372_036_854_775_808,
                ub as int <= 9_223_372_036_854_775_808,
                0 <= ua as int,
                0 <= ub as int,
        ;
    }
    let m: u128 = (ua * ub) / 1_000_000u128;
    clamp_signed(m, neg)
}

/// Fixed-point division; returns 0 for a zero divisor.
pub fn fdiv(a: i64, b: i64) -> (r: i64)
    ensures
        r as int == spec_fdiv(a as int, b as int),
{
    if b == 0 {
        return 0;
    }
    let neg: bool = (a < 0) != (b < 0);
    let ua: u128 = abs_mag(a);
    let ub: u128 = abs_mag(b);
    let m: u128 = (ua * 1_000_000u128) / ub;
    clamp_signed(m, neg)
}

/// Fixed-point square root of a fixed-point scalar; 0 for non-positive input.
pub fn fsqrt(v: i64) -> (r: i64)
    ensures
        r as int == spec_fsqrt(v as int),
        0 <= r,
{
    if v <= 0 {
        return 0;
    }
    let n: u128 = (v as u128) * 1_000_000u128;
    let mut lo: u128 = 0;
    let mut hi: u128 = 4_398_046_511_104u128;
    proof {
        assert((n as int) < (hi as int) * (hi as int));
    }
    while lo + 1 < hi
        invariant
            lo < hi,
            hi <= 4_398_046_511_104u128,
            (lo as int) * (lo as int) <= n as int,
            (n as int) < (hi as int) * (hi as int),
        decreases hi - lo,
    {
        let mid: u128 = lo + (hi - lo) / 2;
        proof {
            assert(mid as int * mid as int <= 4_398_046_511_104 * 4_398_046_511_104)
                by (nonlinear_arith)
                requires
                    0 <= mid as int,
                    mid as int <= 4_398_046_511_104,
            ;
        }
        if mid * mid <= n {
            lo = mid;
        } else {
            hi = mid;
        }
    }
    proof {
        assert(spec_is_isqrt(n as int, lo as int));
        lemma_isqrt_eq(n as int, lo as int);
    }
    lo as i64
}

} // verus!
