//! Deterministic fixed-point arithmetic.
//!
//! Coordinates, scales and blend weights are signed fixed-point numbers with
//! twelve fractional bits; angles are unsigned millidegrees in `[0, 360000)`.
//! Every executable operation here is proved equal to a spec-level mirror, so
//! the whole transform pipeline is a pure function of its integer inputs.

use vstd::prelude::*;

verus! {

/// The fixed-point representation of one (twelve fractional bits).
pub const FP_ONE: i64 = 4096;

/// Largest magnitude a fixed-point value may take; products saturate here.
pub const FP_MAX: i64 = 0x100_0000_0000;

/// A full turn, in millidegrees.
pub const TURN_MDEG: u32 = 360_000;

/// Half a turn, in millidegrees.
pub const HALF_TURN_MDEG: u32 = 180_000;

/// A quarter turn, in millidegrees.
pub const QUARTER_TURN_MDEG: u32 = 90_000;

/// Truncating division (rounds toward zero), defined for positive divisors.
pub open spec fn tdiv(a: int, d: int) -> int
    recommends
        d > 0,
{
    if a >= 0 {
        a / d
    } else {
        -((-a) / d)
    }
}

/// Saturates a mathematical integer into the fixed-point range.
pub open spec fn clamp_fp(x: int) -> int {
    if x > FP_MAX {
        FP_MAX as int
    } else if x < -(FP_MAX as int) {
        -(FP_MAX as int)
    } else {
        x
    }
}

/// Whether a value lies within the fixed-point range.
pub open spec fn fp_in_range(x: int) -> bool {
    -(FP_MAX as int) <= x <= FP_MAX as int
}

/// Fixed-point product: scaled down by `FP_ONE` and saturated.
pub open spec fn fp_mul_spec(a: int, b: int) -> int {
    clamp_fp(tdiv(a * b, FP_ONE as int))
}

/// Saturating fixed-point sum.
pub open spec fn fp_add_spec(a: int, b: int) -> int {
    clamp_fp(a + b)
}

/// Fixed-point product of two in-range values.
pub fn fp_mul(a: i64, b: i64) -> (r: i64)
    requires
        fp_in_range(a as int),
        fp_in_range(b as int),
    ensures
        r == fp_mul_spec(a as int, b as int),
        fp_in_range(r as int),
{
    proof {
        assert(-(0x1_0000_0000_0000_0000_0000i128 as int) <= a as int * b as int
            <= 0x1_0000_0000_0000_0000_0000i128 as int) by (nonlinear_arith)
            requires
                fp_in_range(a as int),
                fp_in_range(b as int),
        ;
    }
    let p: i128 = (a as i128) * (b as i128);
    if p >= 0 {
        let q: u128 = (p as u128) / (FP_ONE as u128);
        if q > FP_MAX as u128 {
            FP_MAX
        } else {
            q as i64
        }
    } else {
        let q: u128 = ((-p) as u128) / (FP_ONE as u128);
        if q > FP_MAX as u128 {
            -FP_MAX
        } else {
            -(q as i64)
        }
    }
}

/// Saturating fixed-point sum; operands may exceed the range by one
/// doubling, as intermediate deltas do, and the result is pulled back in.
pub fn fp_add(a: i64, b: i64) -> (r: i64)
    requires
        -(0x200_0000_0000i64 as int) <= a as int <= 0x200_0000_0000i64 as int,
        -(0x200_0000_0000i64 as int) <= b as int <= 0x200_0000_0000i64 as int,
    ensures
        r == fp_add_spec(a as int, b as int),
        fp_in_range(r as int),
{
    let s: i64 = a + b;
    if s > FP_MAX {
        FP_MAX
    } else if s < -FP_MAX {
        -FP_MAX
    } else {
        s
    }
}

/// Scales `a` by the ratio `num / den` (truncating), for `num <= den`.
pub open spec fn scale_ratio_spec(a: int, num: int, den: int) -> int
    recommends
        den > 0,
{
    tdiv(a * num, den)
}

/// A ratio no greater than one cannot grow a value's magnitude; the division
/// rewrites to a quotient of non-negative numbers in either case.
pub proof fn lemma_ratio_bound(a: int, num: int, den: int)
    requires
        0 < den,
        0 <= num <= den,
    ensures
        a >= 0 ==> 0 <= tdiv(a * num, den) <= a,
        a < 0 ==> a <= tdiv(a * num, den) <= 0,
        a >= 0 ==> tdiv(a * num, den) == (a * num) / den,
        a < 0 ==> tdiv(a * num, den) == -(((-a) * num) / den),
{
    if a >= 0 {
        lemma_nonneg_ratio(a, num, den);
    } else {
        lemma_nonneg_ratio(-a, num, den);
        assert((-a) * num == -(a * num)) by (nonlinear_arith);
        if num > 0 {
            assert(a * num < 0) by (nonlinear_arith)
                requires
                    a < 0,
                    num > 0,
            ;
        } else {
            assert(a * num == 0) by (nonlinear_arith)
                requires
                    num == 0,
            ;
            assert((-a) * num == 0) by (nonlinear_arith)
                requires
                    num == 0,
            ;
        }
    }
}

/// Dividing `m * num` by `den` with `num <= den` stays within `[0, m]`
/// for non-negative `m`.
pub proof fn lemma_nonneg_ratio(m: int, num: int, den: int)
    requires
        m >= 0,
        0 < den,
        0 <= num <= den,
    ensures
        0 <= (m * num) / den <= m,
{
    assert(0 <= m * num <= m * den) by (nonlinear_arith)
        requires
            m >= 0,
            0 <= num <= den,
    ;
    assert(m * den == den * m) by (nonlinear_arith);
    vstd::arithmetic::div_mod::lemma_div_is_ordered(m * num, m * den, den);
    vstd::arithmetic::div_mod::lemma_div_multiples_vanish(m, den);
    vstd::arithmetic::div_mod::lemma_div_pos_is_pos(m * num, den);
}

/// Truncating multiply-then-divide for magnitudes up to twice the
/// fixed-point range, with the ratio at most one.
pub fn ratio_trunc(a: i64, num: u64, den: u64) -> (r: i64)
    requires
        0 < den,
        num <= den,
        -(0x200_0000_0000i64 as int) <= a as int <= 0x200_0000_0000i64 as int,
    ensures
        r == tdiv(a as int * num as int, den as int),
        a >= 0 ==> 0 <= r <= a,
        a < 0 ==> a <= r <= 0,
{
    proof {
        lemma_ratio_bound(a as int, num as int, den as int);
        assert(0 <= (if a as int >= 0 { a as int } else { -(a as int) }) * (num as int)
            <= 0x2000_0000_0000_0000_0000_0000_0000i128 as int) by (nonlinear_arith)
            requires
                -(0x200_0000_0000i64 as int) <= a as int <= 0x200_0000_0000i64 as int,
                0 <= num as int <= 0xffff_ffff_ffff_ffffu64 as int,
        ;
    }
    if a >= 0 {
        let p: u128 = (a as u128) * (num as u128);
        let q: u128 = p / (den as u128);
        q as i64
    } else {
        let p: u128 = ((-a) as u128) * (num as u128);
        let q: u128 = p / (den as u128);
        -(q as i64)
    }
}

/// Scales an in-range value by a ratio no greater than one; the result keeps
/// the magnitude bound of `a`.
pub fn scale_ratio(a: i64, num: u64, den: u64) -> (r: i64)
    requires
        0 < den,
        num <= den,
        fp_in_range(a as int),
    ensures
        r == scale_ratio_spec(a as int, num as int, den as int),
        a >= 0 ==> 0 <= r <= a,
        a < 0 ==> a <= r <= 0,
{
    ratio_trunc(a, num, den)
}

/// Linear interpolation from `a` to `b` at the ratio `num / den`.
pub open spec fn lerp_spec(a: int, b: int, num: int, den: int) -> int
    recommends
        den > 0,
{
    a + tdiv((b - a) * num, den)
}

/// Linear interpolation of in-range values; the result stays between them.
pub fn lerp_fp(a: i64, b: i64, num: u64, den: u64) -> (r: i64)
    requires
        0 < den,
        num <= den,
        fp_in_range(a as int),
        fp_in_range(b as int),
    ensures
        r == lerp_spec(a as int, b as int, num as int, den as int),
        fp_in_range(r as int),
{
    let d: i64 = b - a;
    let step: i64 = ratio_trunc(d, num, den);
    a + step
}

/// Normalizes an angle in millidegrees into `[0, 360000)`.
pub open spec fn norm_mdeg_spec(a: int) -> int {
    if a >= 0 {
        a % (TURN_MDEG as int)
    } else {
        let m = (-a) % (TURN_MDEG as int);
        if m == 0 {
            0
        } else {
            TURN_MDEG as int - m
        }
    }
}

/// Normalizes a signed millidegree angle into `[0, 360000)`.
pub fn norm_mdeg(a: i64) -> (r: u32)
    requires
        -(0x300_0000_0000i64 as int) <= a as int <= 0x300_0000_0000i64 as int,
    ensures
        r == norm_mdeg_spec(a as int),
        r < TURN_MDEG,
{
    if a >= 0 {
        ((a as u64) % (TURN_MDEG as u64)) as u32
    } else {
        let m: u32 = (((-a) as u64) % (TURN_MDEG as u64)) as u32;
        if m == 0 {
            0
        } else {
            TURN_MDEG - m
        }
    }
}

/// Sum of two normalized angles, normalized.
pub fn add_mdeg(a: u32, b: u32) -> (r: u32)
    requires
        a < TURN_MDEG,
        b < TURN_MDEG,
    ensures
        r == (a + b) % (TURN_MDEG as int),
        r < TURN_MDEG,
{
    (a + b) % TURN_MDEG
}

/// Rational sine approximation on a half turn: for `t` in millidegrees in
/// `[0, 180000]`, the value `4 p / (40.5e9 - p)` with `p = t (180000 - t)`,
/// scaled to fixed point.  Exact at 0, 90 and 180 degrees.
pub open spec fn sin_half_spec(t: int) -> int
    recommends
        0 <= t <= HALF_TURN_MDEG as int,
{
    let p = t * (HALF_TURN_MDEG as int - t);
    (4 * p * (FP_ONE as int)) / (40_500_000_000 - p)
}

/// Sine of a normalized millidegree angle, in fixed point.
pub open spec fn sin_mdeg_spec(a: int) -> int
    recommends
        0 <= a < TURN_MDEG as int,
{
    if a <= HALF_TURN_MDEG as int {
        sin_half_spec(a)
    } else {
        -sin_half_spec(a - HALF_TURN_MDEG as int)
    }
}

/// Cosine of a normalized millidegree angle, in fixed point.
pub open spec fn cos_mdeg_spec(a: int) -> int
    recommends
        0 <= a < TURN_MDEG as int,
{
    sin_mdeg_spec((a + QUARTER_TURN_MDEG as int) % (TURN_MDEG as int))
}

/// The product `t (180000 - t)` is at most `90000^2` on the half turn.
proof fn lemma_sin_product_bound(t: int)
    requires
        0 <= t <= HALF_TURN_MDEG as int,
    ensures
        0 <= t * (HALF_TURN_MDEG as int - t) <= 8_100_000_000,
{
    assert(0 <= t * (180_000 - t) <= 8_100_000_000) by (nonlinear_arith)
        requires
            0 <= t <= 180_000,
    ;
}

fn sin_half(t: u32) -> (r: i64)
    requires
        t <= HALF_TURN_MDEG,
    ensures
        r == sin_half_spec(t as int),
        0 <= r <= FP_ONE,
{
    proof {
        lemma_sin_product_bound(t as int);
    }
    let p: u64 = (t as u64) * ((HALF_TURN_MDEG - t) as u64);
    let num: u64 = 4 * p * (FP_ONE as u64);
    let den: u64 = 40_500_000_000 - p;
    let q: u64 = num / den;
    proof {
        assert(4 * p * (FP_ONE as int) <= (FP_ONE as int) * (40_500_000_000 - p)) by (nonlinear_arith)
            requires
                0 <= p <= 8_100_000_000,
        ;
        vstd::arithmetic::div_mod::lemma_div_is_ordered(
            4 * p * (FP_ONE as int),
            (FP_ONE as int) * (40_500_000_000 - p),
            40_500_000_000 - p,
        );
        vstd::arithmetic::div_mod::lemma_div_multiples_vanish(
            FP_ONE as int,
            40_500_000_000 - p,
        );
    }
    q as i64
}

/// Sine of a normalized angle; the result lies in `[-FP_ONE, FP_ONE]`.
pub fn sin_mdeg(a: u32) -> (r: i64)
    requires
        a < TURN_MDEG,
    ensures
        r == sin_mdeg_spec(a as int),
        -FP_ONE <= r <= FP_ONE,
{
    if a <= HALF_TURN_MDEG {
        sin_half(a)
    } else {
        -sin_half(a - HALF_TURN_MDEG)
    }
}

/// Cosine of a normalized angle; the result lies in `[-FP_ONE, FP_ONE]`.
pub fn cos_mdeg(a: u32) -> (r: i64)
    requires
        a < TURN_MDEG,
    ensures
        r == cos_mdeg_spec(a as int),
        -FP_ONE <= r <= FP_ONE,
{
    let shifted: u32 = (a + QUARTER_TURN_MDEG) % TURN_MDEG;
    sin_mdeg(shifted)
}

} // verus!
