//! Shared integer arithmetic: truncating division, clamping and saturation.

use vstd::prelude::*;

verus! {

/// Truncating (round-toward-zero) division: the value Rust's `/` computes on
/// signed integers, as a function on mathematical integers.
pub open spec fn div_t(a: int, b: int) -> int {
    if b >= 0 {
        if a >= 0 {
            a / b
        } else {
            -((-a) / b)
        }
    } else {
        if a >= 0 {
            -(a / (-b))
        } else {
            (-a) / (-b)
        }
    }
}

/// The smaller of two integers.
pub open spec fn min_i(a: int, b: int) -> int {
    if a <= b {
        a
    } else {
        b
    }
}

/// The larger of two integers.
pub open spec fn max_i(a: int, b: int) -> int {
    if a >= b {
        a
    } else {
        b
    }
}

/// The value `v` clamped to the closed interval `[lo, hi]` (for `lo <= hi`).
pub open spec fn clamp_i(v: int, lo: int, hi: int) -> int {
    if v < lo {
        lo
    } else if v > hi {
        hi
    } else {
        v
    }
}

/// The value `v` clamped into the range that an `i64` can represent.
pub open spec fn sat_i64(v: int) -> int {
    clamp_i(v, i64::MIN as int, i64::MAX as int)
}

/// Sum of two `i64`-held quantities whose extreme values stand for plus and
/// minus infinity: an infinite operand absorbs (plus infinity wins over minus
/// infinity), and a finite sum saturates into the `i64` range.
pub open spec fn sum_inf(a: int, b: int) -> int {
    if a == i64::MAX || b == i64::MAX {
        i64::MAX as int
    } else if a == i64::MIN || b == i64::MIN {
        i64::MIN as int
    } else {
        sat_i64(a + b)
    }
}

/// Difference of two `i64`-held quantities whose extreme values stand for
/// plus and minus infinity: an infinite operand drives the result to the
/// same-signed infinity (a subtracted infinity counts with the opposite
/// sign), and a finite difference saturates into the `i64` range.
pub open spec fn diff_inf(a: int, b: int) -> int {
    if a == i64::MAX || b == i64::MIN {
        i64::MAX as int
    } else if a == i64::MIN || b == i64::MAX {
        i64::MIN as int
    } else {
        sat_i64(a - b)
    }
}

/// Saturating conversion of a 128-bit value into an `i64`.
pub fn sat_cast_i64(v: i128) -> (r: i64)
    ensures
        r as int == sat_i64(v as int),
{
    if v > i64::MAX as i128 {
        i64::MAX
    } else if v < i64::MIN as i128 {
        i64::MIN
    } else {
        v as i64
    }
}

/// Truncating division of 128-bit values by a positive divisor.
pub fn div_trunc_i128(a: i128, b: i128) -> (r: i128)
    requires
        b > 0,
    ensures
        r as int == div_t(a as int, b as int),
{
    a / b
}

/// Truncating division by a positive divisor.
pub fn div_trunc_i64(a: i64, b: i64) -> (r: i64)
    requires
        b > 0,
    ensures
        r as int == div_t(a as int, b as int),
{
    a / b
}

/// The value `v` clamped to `[lo, hi]`.
pub fn clamp_i64(v: i64, lo: i64, hi: i64) -> (r: i64)
    requires
        lo <= hi,
    ensures
        r as int == clamp_i(v as int, lo as int, hi as int),
{
    if v < lo {
        lo
    } else if v > hi {
        hi
    } else {
        v
    }
}

/// The product of two `i64` values lies strictly within the `i128` range
/// (its magnitude is at most 2^126).
pub proof fn lemma_mul_i64_bound(a: int, b: int)
    requires
        i64::MIN <= a <= i64::MAX,
        i64::MIN <= b <= i64::MAX,
    ensures
        -0x40000000000000000000000000000000 <= a * b <= 0x40000000000000000000000000000000,
{
    assert(-0x40000000000000000000000000000000 <= a * b <= 0x40000000000000000000000000000000)
        by (nonlinear_arith)
        requires
            -0x8000000000000000 <= a <= 0x7fffffffffffffff,
            -0x8000000000000000 <= b <= 0x7fffffffffffffff,
    ;
}

/// The exact product of two `i64` values, in an `i128`.
pub fn mul_i64(a: i64, b: i64) -> (r: i128)
    ensures
        r as int == a as int * b as int,
        -0x40000000000000000000000000000000 <= r <= 0x40000000000000000000000000000000,
{
    proof {
        lemma_mul_i64_bound(a as int, b as int);
    }
    a as i128 * b as i128
}

/// Magnitude bound for a product: `|a| <= ma` and `|b| <= mb` give
/// `|a * b| <= ma * mb`.
pub proof fn lemma_mul_le(a: int, b: int, ma: int, mb: int)
    requires
        -ma <= a <= ma,
        -mb <= b <= mb,
        0 <= ma,
        0 <= mb,
    ensures
        -(ma * mb) <= a * b <= ma * mb,
{
    assert(-(ma * mb) <= a * b <= ma * mb) by (nonlinear_arith)
        requires
            -ma <= a <= ma,
            -mb <= b <= mb,
            0 <= ma,
            0 <= mb,
    ;
}

/// A square is never negative.
pub proof fn lemma_square_nonneg(a: int)
    ensures
        a * a >= 0,
{
    assert(a * a >= 0) by (nonlinear_arith);
}

/// Truncating division keeps sign and magnitude: for a positive divisor the
/// quotient of a value in `[-m, m]` stays in `[-m, m]`, and a nonnegative
/// dividend gives a nonnegative quotient.
pub proof fn lemma_div_t_bounds(a: int, b: int, m: int)
    requires
        b >= 1,
        -m <= a <= m,
        0 <= m,
    ensures
        -m <= div_t(a, b) <= m,
        a >= 0 ==> div_t(a, b) >= 0,
        a < 0 ==> div_t(a, b) <= 0,
{
    if a >= 0 {
        assert(0 <= a / b <= a) by (nonlinear_arith)
            requires
                a >= 0,
                b >= 1,
        ;
    } else {
        assert(0 <= (-a) / b <= -a) by (nonlinear_arith)
            requires
                a < 0,
                b >= 1,
        ;
    }
}

/// Truncating division by `b >= 1` of a value bounded by `m * b` gives a
/// quotient bounded by `m`.
pub proof fn lemma_div_t_quotient_bound(a: int, b: int, m: int)
    requires
        b >= 1,
        0 <= m,
        -(m * b) <= a <= m * b,
    ensures
        -m <= div_t(a, b) <= m,
{
    if a >= 0 {
        assert(0 <= a / b <= m) by (nonlinear_arith)
            requires
                b >= 1,
                0 <= m,
                0 <= a <= m * b,
        ;
    } else {
        assert(0 <= (-a) / b <= m) by (nonlinear_arith)
            requires
                b >= 1,
                0 <= m,
                0 <= -a <= m * b,
        ;
    }
}

/// Truncating division by a positive divisor is monotone in the dividend.
pub proof fn lemma_div_t_ordered(a: int, b: int, d: int)
    requires
        d >= 1,
        a <= b,
    ensures
        div_t(a, d) <= div_t(b, d),
{
    if a >= 0 {
        assert(a / d <= b / d) by (nonlinear_arith)
            requires
                d >= 1,
                0 <= a <= b,
        ;
    } else if b >= 0 {
        assert(0 <= b / d) by (nonlinear_arith)
            requires
                d >= 1,
                0 <= b,
        ;
        assert(0 <= (-a) / d) by (nonlinear_arith)
            requires
                d >= 1,
                0 <= -a,
        ;
    } else {
        assert((-b) / d <= (-a) / d) by (nonlinear_arith)
            requires
                d >= 1,
                0 <= -b <= -a,
        ;
    }
}

/// For a positive divisor the quotient's magnitude is at most the dividend's:
/// both truncating-division cases stay within `[-|a|, |a|]`.
pub proof fn lemma_div_t_magnitude(a: int, b: int)
    requires
        b >= 1,
    ensures
        a >= 0 ==> 0 <= a / b <= a,
        a < 0 ==> 0 <= (-a) / b <= -a,
{
    if a >= 0 {
        assert(0 <= a / b <= a) by (nonlinear_arith)
            requires
                a >= 0,
                b >= 1,
        ;
    } else {
        assert(0 <= (-a) / b <= -a) by (nonlinear_arith)
            requires
                a < 0,
                b >= 1,
        ;
    }
}

} // verus!
