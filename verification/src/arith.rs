//! Integer arithmetic as the executable code performs it.
use vstd::prelude::*;

verus! {

/// Division truncated toward zero, as `/` on signed integers computes it
/// (for a positive divisor).
pub open spec fn tdiv(a: int, d: int) -> int {
    if a >= 0 { a / d } else { -((-a) / d) }
}

/// A truncated quotient never exceeds the dividend in magnitude.
pub proof fn lemma_tdiv_bounds(a: int, d: int)
    requires
        d != 0,
    ensures
        a >= 0 && d > 0 ==> 0 <= a / d <= a,
        a < 0 && d > 0 ==> a <= -((-a) / d) <= 0,
        a >= 0 && d < 0 ==> -a <= a / d <= 0,
        a < 0 && d < 0 ==> 0 <= -((-a) / d) <= -a,
        a < 0 && d == -1 ==> -((-a) / d) == -a,
        a < 0 && d <= -2 ==> -((-a) / d) <= (-a) / 2,
{
    if a >= 0 && d > 0 {
        assert(0 <= a / d <= a) by (nonlinear_arith)
            requires a >= 0, d > 0;
    } else if a < 0 && d > 0 {
        assert(0 <= (-a) / d <= -a) by (nonlinear_arith)
            requires -a > 0, d > 0;
    } else if a >= 0 && d < 0 {
        assert(-a <= a / d <= 0) by (nonlinear_arith)
            requires a >= 0, d < 0;
    } else {
        assert(a <= (-a) / d <= 0) by (nonlinear_arith)
            requires -a > 0, d < 0;
        if d <= -2 {
            assert(-((-a) / d) <= (-a) / 2) by (nonlinear_arith)
                requires -a > 0, d <= -2;
        }
    }
}

/// `a * bps / 10_000` with the division truncated toward zero.
pub open spec fn bps_of(a: int, bps: int) -> int {
    tdiv(a * bps, 10_000)
}

/// A product with a factor in `0..=cap` lies between 0 and the product with `cap`.
pub proof fn lemma_mul_within(a: int, f: int, cap: int)
    requires
        0 <= f <= cap,
    ensures
        a >= 0 ==> 0 <= a * f <= a * cap,
        a < 0 ==> a * cap <= a * f <= 0,
{
    if a >= 0 {
        assert(0 <= a * f <= a * cap) by (nonlinear_arith)
            requires a >= 0, 0 <= f <= cap;
    } else {
        assert(a * cap <= a * f <= 0) by (nonlinear_arith)
            requires a < 0, 0 <= f <= cap;
    }
}

/// `a + b` clamped to the `i128` range.
pub open spec fn sat_add(a: int, b: int) -> int {
    if a + b > i128::MAX { i128::MAX as int } else if a + b < i128::MIN { i128::MIN as int } else { a + b }
}

/// `a - b` clamped to the `i128` range.
pub open spec fn sat_sub(a: int, b: int) -> int {
    if a - b > i128::MAX { i128::MAX as int } else if a - b < i128::MIN { i128::MIN as int } else { a - b }
}

/// `a + b` clamped to the `i128` range.
pub fn saturating_add_i128(a: i128, b: i128) -> (r: i128)
    ensures
        r == sat_add(a as int, b as int),
{
    if b > 0 && a > i128::MAX - b {
        i128::MAX
    } else if b < 0 && a < i128::MIN - b {
        i128::MIN
    } else {
        a + b
    }
}

/// `a - b` clamped to the `i128` range.
pub fn saturating_sub_i128(a: i128, b: i128) -> (r: i128)
    ensures
        r == sat_sub(a as int, b as int),
{
    if b < 0 && a > i128::MAX + b {
        i128::MAX
    } else if b > 0 && a < i128::MIN + b {
        i128::MIN
    } else {
        a - b
    }
}

} // verus!
