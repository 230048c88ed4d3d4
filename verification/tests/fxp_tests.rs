//! Tests of the fixed-point scalar core and the vector algebra.

use phys2d::fxp::{
    fx_add, fx_sub, fx_mul, fx_div, fx_neg, fx_abs, fx_min, fx_max, fx_sqrt, fx_sin, fx_cos,
    floor_div, floor_mod, clamp, clamp_for_int, SCALE, PI_FX, HALF_PI_FX, TWO_PI_FX,
};
use phys2d::vec2::{Vector2D, c_vect, vec_zero, sm, mn, dot_s, div_s, nearly_eq, transform_v};
use phys2d::vec2::FlatTransform;
use phys2d::vec2::init_tf_zero;
use phys2d::vec2::random_unit_vector;
use phys2d::aabb::{AABB, init_hard_aabb, intersect_aabbs};

#[test]
fn fx_add_exact_and_saturating() {
    assert_eq!(fx_add(2 * SCALE, 3 * SCALE), 5 * SCALE);
    assert_eq!(fx_add(i64::MAX, 1), i64::MAX);
    assert_eq!(fx_add(i64::MIN, -1), i64::MIN);
    assert_eq!(fx_sub(2 * SCALE, 5 * SCALE), -3 * SCALE);
    assert_eq!(fx_sub(i64::MIN, 1), i64::MIN);
}

#[test]
fn fx_mul_exact_values() {
    // 2.5 * 4.0 == 10.0
    assert_eq!(fx_mul(2_500_000_000, 4 * SCALE), 10 * SCALE);
    // signs carry through, truncating toward zero
    assert_eq!(fx_mul(-2_500_000_000, 4 * SCALE), -10 * SCALE);
    assert_eq!(fx_mul(1, 1), 0);
    assert_eq!(fx_mul(0, i64::MAX), 0);
}

#[test]
fn fx_div_truncates_toward_zero() {
    assert_eq!(fx_div(SCALE, 3 * SCALE), 333_333_333);
    assert_eq!(fx_div(-SCALE, 3 * SCALE), -333_333_333);
    assert_eq!(fx_div(10 * SCALE, 4 * SCALE), 2_500_000_000);
}

#[test]
fn fx_abs_and_neg() {
    assert_eq!(fx_neg(5), -5);
    assert_eq!(fx_neg(i64::MIN), i64::MAX);
    assert_eq!(fx_abs(-7 * SCALE), 7 * SCALE);
    assert_eq!(fx_min(3, 9), 3);
    assert_eq!(fx_max(3, 9), 9);
}

#[test]
fn floor_division_rounds_down() {
    assert_eq!(floor_div(7, 2), 3);
    assert_eq!(floor_div(-7, 2), -4);
    assert_eq!(floor_div(-8, 2), -4);
    assert_eq!(floor_mod(-1, 5), 4);
    assert_eq!(floor_mod(11, 5), 1);
}

#[test]
fn sqrt_exact_squares() {
    assert_eq!(fx_sqrt(4 * SCALE), 2 * SCALE);
    assert_eq!(fx_sqrt(0), 0);
    assert_eq!(fx_sqrt(225 * SCALE), 15 * SCALE);
    // sqrt(2) to fixed-point precision
    assert_eq!(fx_sqrt(2 * SCALE), 1_414_213_562);
}

#[test]
fn trig_reference_points() {
    assert_eq!(fx_sin(0), 0);
    assert_eq!(fx_sin(PI_FX), 0);
    assert_eq!(fx_sin(HALF_PI_FX), 999_999_999);
    assert_eq!(fx_cos(0), 999_999_999);
    // periodicity: one full turn comes back to the same value
    assert_eq!(fx_sin(TWO_PI_FX + HALF_PI_FX), fx_sin(HALF_PI_FX));
    // bounds hold everywhere sampled
    for k in -20..20 {
        let v = fx_sin(k * 500_000_000);
        assert!(-SCALE <= v && v <= SCALE);
    }
}

#[test]
fn clamp_accepts_and_rejects() {
    assert_eq!(clamp(5, 0, 10), Ok(5));
    assert_eq!(clamp(-5, 0, 10), Ok(0));
    assert_eq!(clamp(15, 0, 10), Ok(10));
    assert_eq!(clamp(3, 3, 3), Ok(3));
    assert!(clamp(5, 10, 0).is_err());
    assert_eq!(clamp_for_int(7, 1, 128), Ok(7));
    assert_eq!(clamp_for_int(500, 1, 128), Ok(128));
    assert_eq!(clamp_for_int(0, 1, 128), Ok(1));
    assert!(clamp_for_int(5, 10, 2).is_err());
}

#[test]
fn vector_algebra_exact() {
    let a = c_vect(3 * SCALE, 4 * SCALE);
    let b = c_vect(SCALE, 2 * SCALE);
    assert_eq!(sm(a, b), c_vect(4 * SCALE, 6 * SCALE));
    assert_eq!(mn(a, b), c_vect(2 * SCALE, 2 * SCALE));
    assert_eq!(dot_s(a, 2 * SCALE), c_vect(6 * SCALE, 8 * SCALE));
    assert_eq!(div_s(a, 2 * SCALE), c_vect(1_500_000_000, 2 * SCALE));
    assert_eq!(a.dot(b), 11 * SCALE);
    assert_eq!(a.cross(b), 2 * SCALE);
    assert_eq!(a.len_sq(), 25 * SCALE);
    assert_eq!(a.len(), 5 * SCALE);
    assert_eq!(a.dist(b), vec_zero().dist(c_vect(2 * SCALE, 2 * SCALE)));
}

#[test]
fn normalize_unit_and_zero() {
    let a = c_vect(3 * SCALE, 4 * SCALE);
    let n = a.normalize();
    assert_eq!(n, c_vect(600_000_000, 800_000_000));
    assert_eq!(vec_zero().normalize(), vec_zero());
}

#[test]
fn nearly_equal_tolerance() {
    assert!(nearly_eq(0, 499_999));
    assert!(!nearly_eq(0, 500_000));
    let a = c_vect(0, 0);
    let b = c_vect(499_999, -499_999);
    assert!(a.nearly_equal(b));
}

#[test]
fn transform_rotates_and_translates() {
    let mut tf: FlatTransform = init_tf_zero();
    tf.transform(10 * SCALE, 20 * SCALE, 0);
    let v = c_vect(SCALE, 0);
    let t = transform_v(v, tf);
    // cos(0) is one ulp under one, so the rotated x is one ulp under one
    assert_eq!(t.x, 10 * SCALE + 999_999_999);
    assert_eq!(t.y, 20 * SCALE);
}

#[test]
fn random_direction_is_bounded() {
    for _ in 0..50 {
        let v = random_unit_vector();
        assert!(-SCALE <= v.x && v.x <= SCALE);
        assert!(-SCALE <= v.y && v.y <= SCALE);
        // the direction is near the unit circle
        let lsq = v.len_sq();
        assert!(lsq > SCALE / 2 && lsq < 2 * SCALE);
    }
}

#[test]
fn aabb_overlap_is_symmetric_and_strict() {
    let a = init_hard_aabb(0, 0, 10 * SCALE, 10 * SCALE);
    let b = init_hard_aabb(5 * SCALE, 5 * SCALE, 15 * SCALE, 15 * SCALE);
    let c = init_hard_aabb(10 * SCALE, 0, 20 * SCALE, 10 * SCALE);
    let d = init_hard_aabb(11 * SCALE, 0, 20 * SCALE, 10 * SCALE);
    assert!(intersect_aabbs(a, b));
    assert_eq!(intersect_aabbs(a, b), intersect_aabbs(b, a));
    // touching edges do not count as overlap, in both orders
    assert!(!intersect_aabbs(a, c));
    assert!(!intersect_aabbs(c, a));
    assert!(!intersect_aabbs(a, d));
    assert_eq!(intersect_aabbs(a, d), intersect_aabbs(d, a));
}
