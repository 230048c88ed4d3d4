//! Two-dimensional vector algebra over fixed-point scalars.

use vstd::prelude::*;
use crate::fxp::{
    fx_add, fx_add_s, fx_sub, fx_sub_s, fx_mul, fx_mul_s, fx_div, fx_div_s, fx_neg, fx_neg_s,
    fx_abs, fx_sqrt, fx_sqrt_s, fx_sin, fx_cos, fx_sin_s, fx_cos_s, sabs, SCALE,
};
use crate::rng::random_angle;

verus! {

/// A 2D vector of fixed-point scalars. An immutable value type: all
/// arithmetic returns fresh vectors.
#[derive(Clone, Copy, PartialEq, Eq, Structural, Debug)]
pub struct Vector2D {
    pub x: i64,
    pub y: i64,
}

/// The fluid engine's vector is the same fixed-point type.
pub type Vector2 = Vector2D;

/// Half a thousandth of a unit: the tolerance under which two scalars
/// count as nearly equal when deduplicating contact points.
pub const VERY_SMALL_AMOUNT: i64 = 500_000;

/// Vector construction, in specifications.
pub open spec fn spec_vec(x: int, y: int) -> Vector2D {
    Vector2D { x: x as i64, y: y as i64 }
}

/// Component-wise sum, in specifications.
pub open spec fn spec_sm(a: Vector2D, b: Vector2D) -> Vector2D {
    spec_vec(fx_add_s(a.x as int, b.x as int), fx_add_s(a.y as int, b.y as int))
}

/// Component-wise difference, in specifications.
pub open spec fn spec_mn(a: Vector2D, b: Vector2D) -> Vector2D {
    spec_vec(fx_sub_s(a.x as int, b.x as int), fx_sub_s(a.y as int, b.y as int))
}

/// Scaling by a scalar, in specifications.
pub open spec fn spec_scale(a: Vector2D, s: int) -> Vector2D {
    spec_vec(fx_mul_s(a.x as int, s), fx_mul_s(a.y as int, s))
}

/// Division by a scalar, in specifications.
pub open spec fn spec_div_s(a: Vector2D, s: int) -> Vector2D
    recommends
        s != 0,
{
    spec_vec(fx_div_s(a.x as int, s), fx_div_s(a.y as int, s))
}

/// The dot product, in specifications.
pub open spec fn spec_dot(a: Vector2D, b: Vector2D) -> int {
    fx_add_s(fx_mul_s(a.x as int, b.x as int), fx_mul_s(a.y as int, b.y as int))
}

/// The 2D cross product, in specifications.
pub open spec fn spec_cross(a: Vector2D, b: Vector2D) -> int {
    fx_sub_s(fx_mul_s(a.x as int, b.y as int), fx_mul_s(a.y as int, b.x as int))
}

/// The squared length, in specifications.
pub open spec fn spec_len_sq(a: Vector2D) -> int {
    spec_dot(a, a)
}

/// The length, in specifications.
pub open spec fn spec_len(a: Vector2D) -> int {
    fx_sqrt_s(spec_len_sq(a))
}

/// The squared distance between two points, in specifications.
pub open spec fn spec_dist_sq(a: Vector2D, b: Vector2D) -> int {
    spec_len_sq(spec_mn(a, b))
}

/// The distance between two points, in specifications.
pub open spec fn spec_dist(a: Vector2D, b: Vector2D) -> int {
    spec_len(spec_mn(a, b))
}

/// Normalization, in specifications: a zero-length vector stays zero.
pub open spec fn spec_normalize(a: Vector2D) -> Vector2D {
    let l = spec_len(a);
    if l == 0 {
        Vector2D { x: 0, y: 0 }
    } else {
        spec_div_s(a, l)
    }
}

/// A squared fixed-point product is never negative.
pub proof fn lemma_fx_square_nonneg(a: int)
    ensures
        fx_mul_s(a, a) >= 0,
{
    assert(sabs(a) * sabs(a) >= 0) by (nonlinear_arith);
    assert(sabs(a) * sabs(a) / (SCALE as int) >= 0) by {
        vstd::arithmetic::div_mod::lemma_div_is_ordered(0, sabs(a) * sabs(a), SCALE as int);
    }
}

/// A squared length is never negative.
pub proof fn lemma_len_sq_nonneg(a: Vector2D)
    ensures
        spec_len_sq(a) >= 0,
{
    lemma_fx_square_nonneg(a.x as int);
    lemma_fx_square_nonneg(a.y as int);
}

/// Builds a vector from its components.
pub fn c_vect(xx: i64, yy: i64) -> (r: Vector2D)
    ensures
        r == (Vector2D { x: xx, y: yy }),
{
    Vector2D { x: xx, y: yy }
}

/// The zero vector.
pub fn vec_zero() -> (r: Vector2D)
    ensures
        r == (Vector2D { x: 0i64, y: 0i64 }),
{
    Vector2D { x: 0, y: 0 }
}

/// Component-wise sum.
pub fn sm(v1: Vector2D, v2: Vector2D) -> (r: Vector2D)
    ensures
        r == spec_sm(v1, v2),
{
    Vector2D { x: fx_add(v1.x, v2.x), y: fx_add(v1.y, v2.y) }
}

/// Component-wise difference.
pub fn mn(v1: Vector2D, v2: Vector2D) -> (r: Vector2D)
    ensures
        r == spec_mn(v1, v2),
{
    Vector2D { x: fx_sub(v1.x, v2.x), y: fx_sub(v1.y, v2.y) }
}

/// Scales a vector by a scalar.
pub fn dot_s(v1: Vector2D, s: i64) -> (r: Vector2D)
    ensures
        r == spec_scale(v1, s as int),
{
    Vector2D { x: fx_mul(v1.x, s), y: fx_mul(v1.y, s) }
}

/// Divides a vector by a nonzero scalar, component-wise.
pub fn div_s(v1: Vector2D, s: i64) -> (r: Vector2D)
    requires
        s != 0,
    ensures
        r == spec_div_s(v1, s as int),
{
    Vector2D { x: fx_div(v1.x, s), y: fx_div(v1.y, s) }
}

impl Vector2D {
    /// Builds a vector from its components.
    pub fn new(x: i64, y: i64) -> (r: Vector2D)
        ensures
            r == (Vector2D { x, y }),
    {
        Vector2D { x, y }
    }

    /// The zero vector.
    pub fn zero() -> (r: Vector2D)
        ensures
            r == (Vector2D { x: 0i64, y: 0i64 }),
    {
        Vector2D { x: 0, y: 0 }
    }

    /// The unit vector pointing down in canvas coordinates.
    pub fn down() -> (r: Vector2D)
        ensures
            r == (Vector2D { x: 0i64, y: SCALE }),
    {
        Vector2D { x: 0, y: SCALE }
    }

    /// The unit vector pointing up in canvas coordinates.
    pub fn up() -> (r: Vector2D)
        ensures
            r == (Vector2D { x: 0i64, y: (-1 * SCALE) as i64 }),
    {
        Vector2D { x: 0, y: -SCALE }
    }

    /// The dot product with another vector.
    pub fn dot(&self, v: Vector2D) -> (r: i64)
        ensures
            r == spec_dot(*self, v),
    {
        fx_add(fx_mul(self.x, v.x), fx_mul(self.y, v.y))
    }

    /// The 2D cross product with another vector.
    pub fn cross(&self, v: Vector2D) -> (r: i64)
        ensures
            r == spec_cross(*self, v),
    {
        fx_sub(fx_mul(self.x, v.y), fx_mul(self.y, v.x))
    }

    /// The squared length.
    pub fn len_sq(&self) -> (r: i64)
        ensures
            r == spec_len_sq(*self),
            r >= 0,
    {
        proof {
            lemma_len_sq_nonneg(*self);
        }
        self.dot(*self)
    }

    /// The squared distance to another point.
    pub fn dist_sq(&self, v: Vector2D) -> (r: i64)
        ensures
            r == spec_dist_sq(*self, v),
            r >= 0,
    {
        let d: Vector2D = mn(*self, v);
        d.len_sq()
    }

    /// The length.
    pub fn len(&self) -> (r: i64)
        ensures
            r == spec_len(*self),
            r >= 0,
    {
        let sq: i64 = self.len_sq();
        fx_sqrt(sq)
    }

    /// The distance to another point.
    pub fn dist(&self, v: Vector2D) -> (r: i64)
        ensures
            r == spec_dist(*self, v),
            r >= 0,
    {
        let d: Vector2D = mn(*self, v);
        d.len()
    }

    /// The opposite vector.
    pub fn opposite(&self) -> (r: Vector2D)
        ensures
            r == spec_vec(fx_neg_s(self.x as int), fx_neg_s(self.y as int)),
    {
        Vector2D { x: fx_neg(self.x), y: fx_neg(self.y) }
    }

    /// Normalizes the vector; a zero-length vector stays zero.
    pub fn normalize(&self) -> (r: Vector2D)
        ensures
            r == spec_normalize(*self),
    {
        let l: i64 = self.len();
        if l > 0 {
            div_s(*self, l)
        } else {
            Vector2D { x: 0, y: 0 }
        }
    }

    /// Whether both components agree within the dedup tolerance.
    pub fn nearly_equal(&self, b: Vector2D) -> (r: bool)
        ensures
            r == (sabs(fx_sub_s(self.x as int, b.x as int)) < VERY_SMALL_AMOUNT
                && sabs(fx_sub_s(self.y as int, b.y as int)) < VERY_SMALL_AMOUNT),
    {
        nearly_eq(self.x, b.x) && nearly_eq(self.y, b.y)
    }

    /// Whether both components are exactly equal.
    pub fn isequal(&self, v: Vector2D) -> (r: bool)
        ensures
            r == (self.x == v.x && self.y == v.y),
    {
        self.x == v.x && self.y == v.y
    }
}

/// Whether two scalars differ by less than the dedup tolerance.
pub fn nearly_eq(a: i64, b: i64) -> (r: bool)
    ensures
        r == (sabs(fx_sub_s(a as int, b as int)) < VERY_SMALL_AMOUNT),
{
    let d: i64 = fx_abs(fx_sub(a, b));
    d < VERY_SMALL_AMOUNT
}

/// A unit vector in a uniformly random direction, used where degenerate
/// geometry leaves no meaningful direction. Every outcome has components
/// within one unit, at least one component of at least half a unit, and a
/// squared length within a band around one: never the zero vector.
pub fn random_unit_vector() -> (r: Vector2D)
    ensures
        -SCALE <= r.x <= SCALE,
        -SCALE <= r.y <= SCALE,
        sabs(r.x as int) >= SCALE / 2 || sabs(r.y as int) >= SCALE / 2,
        SCALE / 4 <= spec_len_sq(r) <= 2 * SCALE,
{
    let a: i64 = random_angle();
    let c: i64 = fx_cos(a);
    let si: i64 = fx_sin(a);
    // a defensive floor: the sine approximation keeps the pair near the
    // unit circle, so this branch is never drawn in practice
    let r: Vector2D = if fx_abs(c) < SCALE / 2 && fx_abs(si) < SCALE / 2 {
        Vector2D { x: SCALE, y: 0 }
    } else {
        Vector2D { x: c, y: si }
    };
    proof {
        lemma_unit_band(r);
    }
    r
}

/// A vector with components within one unit, one of them at least half a
/// unit, has a squared length within a band around one.
proof fn lemma_unit_band(r: Vector2D)
    requires
        -SCALE <= r.x <= SCALE,
        -SCALE <= r.y <= SCALE,
        sabs(r.x as int) >= SCALE / 2 || sabs(r.y as int) >= SCALE / 2,
    ensures
        SCALE / 4 <= spec_len_sq(r) <= 2 * SCALE,
{
    let mx = fx_mul_s(r.x as int, r.x as int);
    let my = fx_mul_s(r.y as int, r.y as int);
    crate::fxp::lemma_fx_mul_mono_nonneg(sabs(r.x as int), SCALE as int, sabs(r.x as int), SCALE as int);
    crate::fxp::lemma_fx_mul_mono_nonneg(sabs(r.y as int), SCALE as int, sabs(r.y as int), SCALE as int);
    assert(fx_mul_s(SCALE as int, SCALE as int) == SCALE) by (nonlinear_arith);
    assert(mx == fx_mul_s(sabs(r.x as int), sabs(r.x as int)));
    assert(my == fx_mul_s(sabs(r.y as int), sabs(r.y as int)));
    assert(fx_mul_s((SCALE / 2) as int, (SCALE / 2) as int) == SCALE / 4) by (nonlinear_arith);
    if sabs(r.x as int) >= SCALE / 2 {
        crate::fxp::lemma_fx_mul_mono_nonneg(
            (SCALE / 2) as int, sabs(r.x as int), (SCALE / 2) as int, sabs(r.x as int));
    } else {
        crate::fxp::lemma_fx_mul_mono_nonneg(
            (SCALE / 2) as int, sabs(r.y as int), (SCALE / 2) as int, sabs(r.y as int));
    }
    crate::vec2::lemma_fx_square_nonneg(r.x as int);
    crate::vec2::lemma_fx_square_nonneg(r.y as int);
}

/// A rigid transform: a translation and the sine and cosine of a rotation.
#[derive(Clone, Copy, PartialEq, Eq, Structural, Debug)]
pub struct FlatTransform {
    pub pos_x: i64,
    pub pos_y: i64,
    pub sin: i64,
    pub cos: i64,
}

/// The identity-free zero transform, as the engines build before filling it.
pub fn init_tf_zero() -> (r: FlatTransform)
    ensures
        r == (FlatTransform { pos_x: 0i64, pos_y: 0i64, sin: 0i64, cos: 0i64 }),
{
    FlatTransform { pos_x: 0, pos_y: 0, sin: 0, cos: 0 }
}

impl FlatTransform {
    /// Points the transform at a position and a rotation angle.
    pub fn transform(&mut self, x: i64, y: i64, angle: i64)
        ensures
            final(self).pos_x == x,
            final(self).pos_y == y,
            final(self).sin == fx_sin_s(angle as int),
            final(self).cos == fx_cos_s(angle as int),
    {
        self.pos_x = x;
        self.pos_y = y;
        self.sin = fx_sin(angle);
        self.cos = fx_cos(angle);
    }
}

/// Application of a rigid transform to a point, in specifications:
/// rotate, then translate.
pub open spec fn spec_transform_v(v: Vector2D, tf: FlatTransform) -> Vector2D {
    let rx = fx_sub_s(fx_mul_s(tf.cos as int, v.x as int), fx_mul_s(tf.sin as int, v.y as int));
    let ry = fx_add_s(fx_mul_s(tf.sin as int, v.x as int), fx_mul_s(tf.cos as int, v.y as int));
    spec_vec(fx_add_s(rx, tf.pos_x as int), fx_add_s(ry, tf.pos_y as int))
}

/// Applies a rigid transform to a point: rotate, then translate.
pub fn transform_v(v: Vector2D, tf: FlatTransform) -> (r: Vector2D)
    ensures
        r == spec_transform_v(v, tf),
{
    let rx: i64 = fx_sub(fx_mul(tf.cos, v.x), fx_mul(tf.sin, v.y));
    let ry: i64 = fx_add(fx_mul(tf.sin, v.x), fx_mul(tf.cos, v.y));
    Vector2D { x: fx_add(rx, tf.pos_x), y: fx_add(ry, tf.pos_y) }
}

impl Vector2D {
    /// The x component.
    pub fn get_x(&self) -> (r: i64)
        ensures
            r == self.x,
    {
        self.x
    }

    /// The y component.
    pub fn get_y(&self) -> (r: i64)
        ensures
            r == self.y,
    {
        self.y
    }

    /// Overwrites the x component.
    pub fn set_x(&mut self, x: i64)
        ensures
            *final(self) == (Vector2D { x, ..*old(self) }),
    {
        self.x = x;
    }

    /// Overwrites the y component.
    pub fn set_y(&mut self, y: i64)
        ensures
            *final(self) == (Vector2D { y, ..*old(self) }),
    {
        self.y = y;
    }
}

impl FlatTransform {
    /// The translation's x component.
    pub fn get_pos_x(&self) -> (r: i64)
        ensures
            r == self.pos_x,
    {
        self.pos_x
    }

    /// Overwrites the translation's x component.
    pub fn set_pos_x(&mut self, pos_x: i64)
        ensures
            *final(self) == (FlatTransform { pos_x, ..*old(self) }),
    {
        self.pos_x = pos_x;
    }

    /// The translation's y component.
    pub fn get_pos_y(&self) -> (r: i64)
        ensures
            r == self.pos_y,
    {
        self.pos_y
    }

    /// Overwrites the translation's y component.
    pub fn set_pos_y(&mut self, pos_y: i64)
        ensures
            *final(self) == (FlatTransform { pos_y, ..*old(self) }),
    {
        self.pos_y = pos_y;
    }

    /// The rotation's sine.
    pub fn get_sin(&self) -> (r: i64)
        ensures
            r == self.sin,
    {
        self.sin
    }

    /// Overwrites the rotation's sine.
    pub fn set_sin(&mut self, sin: i64)
        ensures
            *final(self) == (FlatTransform { sin, ..*old(self) }),
    {
        self.sin = sin;
    }

    /// The rotation's cosine.
    pub fn get_cos(&self) -> (r: i64)
        ensures
            r == self.cos,
    {
        self.cos
    }

    /// Overwrites the rotation's cosine.
    pub fn set_cos(&mut self, cos: i64)
        ensures
            *final(self) == (FlatTransform { cos, ..*old(self) }),
    {
        self.cos = cos;
    }
}


impl Vector2D {
    /// The vector of ones.
    pub fn one() -> (r: Vector2D)
        ensures
            r == (Vector2D { x: SCALE, y: SCALE }),
    {
        Vector2D { x: SCALE, y: SCALE }
    }

    /// The unit vector pointing right.
    pub fn right() -> (r: Vector2D)
        ensures
            r == (Vector2D { x: SCALE, y: 0i64 }),
    {
        Vector2D { x: SCALE, y: 0 }
    }

    /// The unit vector pointing left.
    pub fn left() -> (r: Vector2D)
        ensures
            r == (Vector2D { x: (-1 * SCALE) as i64, y: 0i64 }),
    {
        Vector2D { x: -SCALE, y: 0 }
    }

    /// The distance between two points.
    pub fn distance(v1: Vector2D, v2: Vector2D) -> (r: i64)
        ensures
            r == spec_dist(v1, v2),
    {
        v1.dist(v2)
    }

    /// The distance to another point, under the fluid vector's name.
    pub fn distance_to(&self, other: Vector2D) -> (r: i64)
        ensures
            r == spec_dist(*self, other),
    {
        self.dist(other)
    }

    /// The length, under the fluid vector's name.
    pub fn magnitude(&self) -> (r: i64)
        ensures
            r == spec_len(*self),
    {
        self.len()
    }

    /// The unit direction from another point toward this one, or an error
    /// for coincident points.
    pub fn direction_to(&self, other: Vector2D) -> (r: Result<Vector2D, String>)
        ensures
            spec_len(spec_mn(*self, other)) == 0 ==> r is Err,
            spec_len(spec_mn(*self, other)) != 0
                ==> r == Result::<Vector2D, String>::Ok(spec_normalize(spec_mn(*self, other))),
    {
        let d: Vector2D = mn(*self, other);
        let l: i64 = d.len();
        if l == 0 {
            Err("the distance between the two points is zero".to_owned())
        } else {
            Ok(div_s(d, l))
        }
    }

    /// Flips the vector in place.
    pub fn negate(&mut self)
        ensures
            final(self).x == fx_neg_s(old(self).x as int),
            final(self).y == fx_neg_s(old(self).y as int),
    {
        let o: Vector2D = self.opposite();
        self.x = o.x;
        self.y = o.y;
    }
}

} // verus!
