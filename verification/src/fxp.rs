//! Fixed-point scalar arithmetic.
//!
//! A scalar is an `i64` holding the real value multiplied by [`SCALE`]
//! (one billion), so `1.0` is stored as `1_000_000_000`. All operations
//! saturate at the `i64` range instead of overflowing; products and
//! quotients truncate toward zero, exactly as the spec functions state.

use vstd::prelude::*;

verus! {

/// Number of fixed-point units in one real unit.
pub const SCALE: i64 = 1_000_000_000;

/// Absolute value, in specifications.
pub open spec fn sabs(a: int) -> int {
    if a < 0 { -a } else { a }
}

/// Saturation to the `i64` range, in specifications.
pub open spec fn clip(x: int) -> int {
    if x > i64::MAX { i64::MAX as int } else if x < i64::MIN { i64::MIN as int } else { x }
}

/// Saturating addition.
pub open spec fn fx_add_s(a: int, b: int) -> int {
    clip(a + b)
}

/// Saturating subtraction.
pub open spec fn fx_sub_s(a: int, b: int) -> int {
    clip(a - b)
}

/// Fixed-point product: `a * b / SCALE`, truncated toward zero, saturated.
pub open spec fn fx_mul_s(a: int, b: int) -> int {
    let q = (sabs(a) * sabs(b)) / (SCALE as int);
    clip(if (a < 0) != (b < 0) { -q } else { q })
}

/// Fixed-point quotient: `a * SCALE / b`, truncated toward zero, saturated.
pub open spec fn fx_div_s(a: int, b: int) -> int
    recommends
        b != 0,
{
    let q = (sabs(a) * (SCALE as int)) / sabs(b);
    clip(if (a < 0) != (b < 0) { -q } else { q })
}

/// Saturating negation (the negation of `i64::MIN` is `i64::MAX`).
pub open spec fn fx_neg_s(a: int) -> int {
    clip(-a)
}

/// The magnitude of a scalar as an unsigned value.
fn abs_mag(a: i64) -> (r: u64)
    ensures
        r == sabs(a as int),
{
    if a >= 0 {
        a as u64
    } else {
        let wide: i128 = -(a as i128);
        wide as u64
    }
}

/// Saturate a signed magnitude back into the `i64` range.
fn clip_signed(mag: u128, neg: bool) -> (r: i64)
    ensures
        r == clip(if neg { -(mag as int) } else { mag as int }),
{
    if neg {
        if mag >= 9223372036854775808u128 {
            i64::MIN
        } else {
            -(mag as i64)
        }
    } else {
        if mag > i64::MAX as u128 {
            i64::MAX
        } else {
            mag as i64
        }
    }
}

/// Saturating addition of two scalars.
pub fn fx_add(a: i64, b: i64) -> (r: i64)
    ensures
        r == fx_add_s(a as int, b as int),
{
    let s: i128 = a as i128 + b as i128;
    if s > i64::MAX as i128 {
        i64::MAX
    } else if s < i64::MIN as i128 {
        i64::MIN
    } else {
        s as i64
    }
}

/// Saturating subtraction of two scalars.
pub fn fx_sub(a: i64, b: i64) -> (r: i64)
    ensures
        r == fx_sub_s(a as int, b as int),
{
    let s: i128 = a as i128 - b as i128;
    if s > i64::MAX as i128 {
        i64::MAX
    } else if s < i64::MIN as i128 {
        i64::MIN
    } else {
        s as i64
    }
}

/// Fixed-point multiplication.
pub fn fx_mul(a: i64, b: i64) -> (r: i64)
    ensures
        r == fx_mul_s(a as int, b as int),
{
    let neg: bool = (a < 0) != (b < 0);
    let ua: u128 = abs_mag(a) as u128;
    let ub: u128 = abs_mag(b) as u128;
    assert(ua * ub <= u128::MAX) by (nonlinear_arith)
        requires
            ua < 0x10000000000000000,
            ub < 0x10000000000000000,
    ;
    let q: u128 = (ua * ub) / (SCALE as u128);
    clip_signed(q, neg)
}

/// Fixed-point division. The divisor must be nonzero.
pub fn fx_div(a: i64, b: i64) -> (r: i64)
    requires
        b != 0,
    ensures
        r == fx_div_s(a as int, b as int),
{
    let neg: bool = (a < 0) != (b < 0);
    let ua: u128 = abs_mag(a) as u128;
    let ub: u128 = abs_mag(b) as u128;
    assert(ua * (SCALE as u128) <= u128::MAX) by (nonlinear_arith)
        requires
            ua < 0x10000000000000000,
    ;
    let q: u128 = (ua * (SCALE as u128)) / ub;
    clip_signed(q, neg)
}

/// Saturating negation.
pub fn fx_neg(a: i64) -> (r: i64)
    ensures
        r == fx_neg_s(a as int),
{
    if a == i64::MIN {
        i64::MAX
    } else {
        -a
    }
}

/// Absolute value, saturated (the magnitude of `i64::MIN` is `i64::MAX`).
pub fn fx_abs(a: i64) -> (r: i64)
    ensures
        r == clip(sabs(a as int)),
{
    if a >= 0 {
        a
    } else {
        fx_neg(a)
    }
}

/// The smaller of two scalars.
pub fn fx_min(a: i64, b: i64) -> (r: i64)
    ensures
        r == if a <= b { a as int } else { b as int },
{
    if a <= b {
        a
    } else {
        b
    }
}

/// The larger of two scalars.
pub fn fx_max(a: i64, b: i64) -> (r: i64)
    ensures
        r == if a >= b { a as int } else { b as int },
{
    if a >= b {
        a
    } else {
        b
    }
}

/// Flooring division: rounds toward negative infinity, as cell indexing
/// needs for coordinates below the origin.
pub fn floor_div(a: i64, b: i64) -> (r: i64)
    requires
        b > 0,
    ensures
        r == (a as int) / (b as int),
{
    if a >= 0 {
        let q: u64 = (a as u64) / (b as u64);
        q as i64
    } else {
        let m: u64 = abs_mag(a);
        let ub: u64 = b as u64;
        let q: u64 = m / ub;
        let rem: u64 = m % ub;
        proof {
            vstd::arithmetic::div_mod::lemma_fundamental_div_mod(m as int, ub as int);
            assert((a as int) == -(m as int));
            if rem == 0 {
                assert((a as int) == (b as int) * (-(q as int)) + 0) by (nonlinear_arith)
                    requires
                        m == (ub as int) * (q as int) + (rem as int),
                        rem == 0,
                        a as int == -(m as int),
                        b == ub,
                ;
                vstd::arithmetic::div_mod::lemma_fundamental_div_mod_converse(
                    a as int, b as int, -(q as int), 0);
            } else {
                assert((a as int) == (b as int) * (-(q as int) - 1) + ((b as int) - (rem as int)))
                by (nonlinear_arith)
                    requires
                        m == (ub as int) * (q as int) + (rem as int),
                        a as int == -(m as int),
                        b == ub,
                ;
                assert(q < 0x8000000000000000) by (nonlinear_arith)
                    requires
                        m == (ub as int) * (q as int) + (rem as int),
                        0 < rem < ub,
                        m < 0x10000000000000000,
                ;
                vstd::arithmetic::div_mod::lemma_fundamental_div_mod_converse(
                    a as int, b as int, -(q as int) - 1, (b as int) - (rem as int));
            }
        }
        if rem == 0 {
            let neg: i128 = -(q as i128);
            neg as i64
        } else {
            let neg: i128 = -(q as i128) - 1;
            neg as i64
        }
    }
}

/// Euclidean remainder: the result lies in `[0, m)` for `m > 0`.
pub fn floor_mod(a: i64, m: i64) -> (r: i64)
    requires
        m > 0,
    ensures
        r == (a as int) % (m as int),
{
    let q: i64 = floor_div(a, m);
    proof {
        vstd::arithmetic::div_mod::lemma_fundamental_div_mod(a as int, m as int);
        vstd::arithmetic::div_mod::lemma_mod_bound(a as int, m as int);
        assert((a as int) - (m as int) * (q as int) == (a as int) % (m as int));
    }
    let wide: i128 = (a as i128) - (m as i128) * (q as i128);
    wide as i64
}

/// `r` is the integer square root of `n`.
pub open spec fn is_sqrt(n: int, r: int) -> bool {
    0 <= r && r * r <= n && n < (r + 1) * (r + 1)
}

/// The integer square root, as a specification-level function.
pub open spec fn isqrt_s(n: int) -> int
    recommends
        n >= 0,
{
    choose|r: int| is_sqrt(n, r)
}

/// Two integer square roots of the same number are equal.
pub proof fn lemma_sqrt_unique(n: int, r1: int, r2: int)
    by (nonlinear_arith)
    requires
        is_sqrt(n, r1),
        is_sqrt(n, r2),
    ensures
        r1 == r2,
{
}

/// Every nonnegative number has an integer square root, so the
/// specification-level root satisfies its defining property.
pub proof fn lemma_sqrt_exists(n: int)
    requires
        n >= 0,
    ensures
        is_sqrt(n, isqrt_s(n)),
        isqrt_s(n) >= 0,
    decreases n,
{
    if n == 0 {
        assert(is_sqrt(0, 0));
    } else {
        lemma_sqrt_exists(n - 1);
        let r = isqrt_s(n - 1);
        if (r + 1) * (r + 1) <= n {
            assert(is_sqrt(n, r + 1)) by (nonlinear_arith)
                requires
                    is_sqrt(n - 1, r),
                    (r + 1) * (r + 1) <= n,
            ;
        } else {
            assert(is_sqrt(n, r));
        }
    }
}

/// Integer square root by bisection.
pub fn isqrt(n: u128) -> (r: u64)
    ensures
        is_sqrt(n as int, r as int),
        r == isqrt_s(n as int),
{
    let mut lo: u128 = 0;
    let mut hi: u128 = 0x10000000000000000;
    proof {
        assert((hi as int) * (hi as int) > n) by (nonlinear_arith)
            requires
                hi == 0x10000000000000000u128,
                n < 0x100000000000000000000000000000000,
        ;
    }
    while hi - lo > 1
        invariant
            lo < hi <= 0x10000000000000000,
            (lo as int) * (lo as int) <= n,
            n < (hi as int) * (hi as int),
        decreases hi - lo,
    {
        let mid: u128 = lo + (hi - lo) / 2;
        proof {
            assert((mid as int) * (mid as int) < 0x100000000000000000000000000000000)
            by (nonlinear_arith)
                requires
                    mid < 0x10000000000000000u128,
            ;
        }
        if mid * mid <= n {
            lo = mid;
        } else {
            hi = mid;
        }
    }
    proof {
        assert(is_sqrt(n as int, lo as int));
        assert(lo < 0x10000000000000000);
        lemma_sqrt_unique(n as int, lo as int, isqrt_s(n as int));
    }
    lo as u64
}

/// Fixed-point square root: the root of `x` as a fixed-point value is the
/// integer root of `x * SCALE`.
pub open spec fn fx_sqrt_s(x: int) -> int
    recommends
        x >= 0,
{
    isqrt_s(x * (SCALE as int))
}

/// Fixed-point square root of a nonnegative scalar.
pub fn fx_sqrt(x: i64) -> (r: i64)
    requires
        x >= 0,
    ensures
        r == fx_sqrt_s(x as int),
        0 <= r < 0x100000000000000,
{
    proof {
        assert((x as int) * (SCALE as int) < 0x10000000000000000000000000000) by (nonlinear_arith)
            requires
                0 <= x < 0x8000000000000000,
                SCALE == 1_000_000_000i64,
        ;
    }
    let n: u128 = (x as u128) * (SCALE as u128);
    let r64: u64 = isqrt(n);
    proof {
        assert(r64 < 0x100000000000000) by (nonlinear_arith)
            requires
                is_sqrt(n as int, r64 as int),
                n < 0x10000000000000000000000000000,
        ;
    }
    r64 as i64
}

/// Restrict a scalar to `[lo, hi]` (`lo <= hi`), in specifications.
pub open spec fn clamp_s(v: int, lo: int, hi: int) -> int {
    if v < lo { lo } else if v > hi { hi } else { v }
}

/// Restrict a scalar to a range, rejecting an inverted range.
/// Mirrors the checked clamp of the rigid engine: a range whose minimum
/// exceeds its maximum is an error, never silently reordered.
pub fn clamp(v: i64, min: i64, max: i64) -> (r: Result<i64, String>)
    ensures
        min <= max ==> r == Result::<i64, String>::Ok(clamp_s(v as int, min as int, max as int) as i64),
        min > max ==> r is Err,
{
    if min == max {
        return Ok(min);
    }
    if min > max {
        return Err("minimum value cannot be greater than maximum value".to_owned());
    }
    if v < min {
        return Ok(min);
    }
    if v > max {
        return Ok(max);
    }
    Ok(v)
}

/// The checked clamp over machine integers, used for substep counts.
pub fn clamp_for_int(v: i32, min: i32, max: i32) -> (r: Result<i32, String>)
    ensures
        min <= max ==> r == Result::<i32, String>::Ok(
            clamp_s(v as int, min as int, max as int) as i32),
        min > max ==> r is Err,
{
    if min == max {
        return Ok(min);
    }
    if min > max {
        return Err("minimum value cannot be greater than maximum value".to_owned());
    }
    if v < min {
        return Ok(min);
    }
    if v > max {
        return Ok(max);
    }
    Ok(v)
}


/// A product of nonnegative scalars is nonnegative.
pub proof fn lemma_fx_mul_nonneg(a: int, b: int)
    requires
        a >= 0,
        b >= 0,
    ensures
        fx_mul_s(a, b) >= 0,
{
    assert(sabs(a) * sabs(b) >= 0) by (nonlinear_arith)
        requires
            a >= 0,
            b >= 0,
    ;
    vstd::arithmetic::div_mod::lemma_div_is_ordered(0, sabs(a) * sabs(b), SCALE as int);
}

/// The product is monotone in both operands over nonnegative scalars.
pub proof fn lemma_fx_mul_mono_nonneg(a1: int, a2: int, b1: int, b2: int)
    requires
        0 <= a1 <= a2,
        0 <= b1 <= b2,
    ensures
        0 <= fx_mul_s(a1, b1) <= fx_mul_s(a2, b2),
{
    assert(0 <= sabs(a1) * sabs(b1) <= sabs(a2) * sabs(b2)) by (nonlinear_arith)
        requires
            0 <= a1 <= a2,
            0 <= b1 <= b2,
    ;
    vstd::arithmetic::div_mod::lemma_div_is_ordered(
        sabs(a1) * sabs(b1), sabs(a2) * sabs(b2), SCALE as int);
    vstd::arithmetic::div_mod::lemma_div_is_ordered(0, sabs(a1) * sabs(b1), SCALE as int);
}

/// A quotient of a nonnegative scalar by a positive one is nonnegative.
pub proof fn lemma_fx_div_nonneg(a: int, b: int)
    requires
        a >= 0,
        b > 0,
    ensures
        fx_div_s(a, b) >= 0,
{
    assert(sabs(a) * (SCALE as int) >= 0) by (nonlinear_arith)
        requires
            a >= 0,
    ;
    vstd::arithmetic::div_mod::lemma_div_is_ordered(0, sabs(a) * (SCALE as int), sabs(b));
}

/// One pi, in fixed-point units.
pub const PI_FX: i64 = 3_141_592_654;

/// Two pi, in fixed-point units.
pub const TWO_PI_FX: i64 = 6_283_185_307;

/// Half pi, in fixed-point units.
pub const HALF_PI_FX: i64 = 1_570_796_327;

/// Five pi squared, in fixed-point units.
pub const FIVE_PI_SQ_FX: i64 = 49_348_022_005;

/// Sixteen, in fixed-point units.
pub const SIXTEEN_FX: i64 = 16 * SCALE;

/// Four, in fixed-point units.
pub const FOUR_FX: i64 = 4 * SCALE;

/// The rational sine approximation on `[0, pi]`, in specifications:
/// `16 x (pi - x) / (5 pi^2 - 4 x (pi - x))`, capped at one.
pub open spec fn half_wave_sine_s(x: int) -> int {
    let t = fx_mul_s(x, (PI_FX as int) - x);
    let num = fx_mul_s(SIXTEEN_FX as int, t);
    let den = fx_sub_s(FIVE_PI_SQ_FX as int, fx_mul_s(FOUR_FX as int, t));
    let s = fx_div_s(num, den);
    if s > SCALE { SCALE as int } else { s }
}

/// The fixed-point sine: the argument reduced into `[0, 2 pi)`, then the
/// half-wave approximation with the sign of the half-wave.
pub open spec fn fx_sin_s(a: int) -> int {
    let u = a % (TWO_PI_FX as int);
    if u <= PI_FX { half_wave_sine_s(u) } else { fx_neg_s(half_wave_sine_s(u - PI_FX)) }
}

/// The fixed-point cosine, as the sine shifted a quarter turn.
pub open spec fn fx_cos_s(a: int) -> int {
    fx_sin_s(fx_add_s(a, HALF_PI_FX as int))
}

/// The product `x * (pi - x)` is at most `(pi / 2)^2` on `[0, pi]`.
proof fn lemma_half_wave_product_bound(x: int)
    requires
        0 <= x <= PI_FX,
    ensures
        0 <= x * ((PI_FX as int) - x),
        x * ((PI_FX as int) - x) <= 2_467_401_101_000_000_000,
{
    let p = PI_FX as int;
    assert(0 <= x * (p - x) && 4 * (x * (p - x)) <= p * p) by (nonlinear_arith)
        requires
            0 <= x <= p,
    {
        assert((2 * x - p) * (2 * x - p) >= 0);
        assert(4 * (x * (p - x)) + (2 * x - p) * (2 * x - p) == p * p);
    }
}

/// The rational sine approximation on `[0, pi]`.
fn half_wave_sine(x: i64) -> (r: i64)
    requires
        0 <= x <= PI_FX,
    ensures
        r == half_wave_sine_s(x as int),
        0 <= r <= SCALE,
{
    let t: i64 = fx_mul(x, PI_FX - x);
    proof {
        lemma_half_wave_product_bound(x as int);
        assert(fx_mul_s(x as int, (PI_FX as int) - (x as int)) <= 2_467_401_101) by {
            assert((x as int) * ((PI_FX as int) - (x as int)) / (SCALE as int)
                <= 2_467_401_101_000_000_000int / (SCALE as int)) by {
                vstd::arithmetic::div_mod::lemma_div_is_ordered(
                    (x as int) * ((PI_FX as int) - (x as int)),
                    2_467_401_101_000_000_000,
                    SCALE as int);
            }
        }
    }
    let num: i64 = fx_mul(SIXTEEN_FX, t);
    let den: i64 = fx_sub(FIVE_PI_SQ_FX, fx_mul(FOUR_FX, t));
    proof {
        assert(fx_mul_s(FOUR_FX as int, t as int) <= 4 * 2_467_401_101) by (nonlinear_arith)
            requires
                0 <= t <= 2_467_401_101,
                FOUR_FX == 4_000_000_000i64,
                SCALE == 1_000_000_000i64,
        ;
        assert(fx_mul_s(FOUR_FX as int, t as int) >= 0);
    }
    let s: i64 = fx_div(num, den);
    proof {
        assert(s >= 0);
    }
    if s > SCALE {
        SCALE
    } else {
        s
    }
}

/// The fixed-point sine of an angle in fixed-point radians.
/// The result always lies in `[-1, 1]` in fixed-point units.
pub fn fx_sin(a: i64) -> (r: i64)
    ensures
        r == fx_sin_s(a as int),
        -SCALE <= r <= SCALE,
{
    let u: i64 = floor_mod(a, TWO_PI_FX);
    if u <= PI_FX {
        half_wave_sine(u)
    } else {
        fx_neg(half_wave_sine(u - PI_FX))
    }
}

/// The fixed-point cosine of an angle in fixed-point radians.
/// The result always lies in `[-1, 1]` in fixed-point units.
pub fn fx_cos(a: i64) -> (r: i64)
    ensures
        r == fx_cos_s(a as int),
        -SCALE <= r <= SCALE,
{
    fx_sin(fx_add(a, HALF_PI_FX))
}


/// The fixed-point cosine, under the transform helper's name.
pub fn cos_me(i: i64) -> (r: i64)
    ensures
        r == fx_cos_s(i as int),
{
    fx_cos(i)
}

/// The fixed-point sine, under the transform helper's name.
pub fn sin_me(i: i64) -> (r: i64)
    ensures
        r == fx_sin_s(i as int),
{
    fx_sin(i)
}

} // verus!
