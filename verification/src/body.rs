//! The rigid-body record: transform, velocity state, mass properties,
//! shape, and lazily cached world-space vertices and bounding box.

use vstd::prelude::*;
use crate::fxp::{
    fx_add, fx_add_s, fx_sub_s, fx_mul, fx_mul_s, fx_div, fx_div_s, fx_neg, fx_neg_s,
    fx_sin_s, fx_cos_s, clamp, clamp_s, SCALE, PI_FX,
};
use crate::vec2::{
    Vector2D, FlatTransform, init_tf_zero, transform_v, spec_transform_v, spec_sm, spec_scale,
    sm, dot_s, vec_zero,
};
use crate::aabb::AABB;

verus! {

/// Two, in fixed-point units.
pub const TWO_FX: i64 = 2 * SCALE;

/// Twelve, in fixed-point units.
pub const TWELVE_FX: i64 = 12 * SCALE;

/// The shape of a rigid body: a circle or an axis-aligned-at-rest box.
#[derive(Clone, Copy, PartialEq, Eq, Structural, Debug)]
pub enum ShapeType {
    Circle,
    Box,
}

/// The numeric tag of a shape: zero for a circle, one for a box.
pub fn which_shape(x: ShapeType) -> (r: u8)
    ensures
        r == 0 <==> x is Circle,
        r == 1 <==> x is Box,
{
    match x {
        ShapeType::Circle => 0,
        ShapeType::Box => 1,
    }
}

/// The two triangles covering a four-vertex box, as vertex indices.
pub fn triangulate_box() -> (r: Vec<i32>)
    ensures
        r@ == seq![0i32, 1i32, 2i32, 0i32, 2i32, 3i32],
{
    let mut triangles: Vec<i32> = Vec::new();
    triangles.push(0);
    triangles.push(1);
    triangles.push(2);
    triangles.push(0);
    triangles.push(2);
    triangles.push(3);
    proof {
        assert(triangles@ =~= seq![0i32, 1i32, 2i32, 0i32, 2i32, 3i32]);
    }
    triangles
}

/// The local vertices of a `w` by `h` box centered on the origin, in
/// specification form.
pub open spec fn spec_box_vertices(w: int, h: int) -> Seq<Vector2D> {
    let right = fx_div_s(w, TWO_FX as int);
    let top = fx_div_s(h, TWO_FX as int);
    let left = fx_neg_s(right);
    let bottom = fx_neg_s(top);
    seq![
        Vector2D { x: left as i64, y: top as i64 },
        Vector2D { x: right as i64, y: top as i64 },
        Vector2D { x: right as i64, y: bottom as i64 },
        Vector2D { x: left as i64, y: bottom as i64 },
    ]
}

/// The local vertices of a box centered on the origin, walked from the
/// top-left corner clockwise.
pub fn creat_vertices_box(w: i64, h: i64) -> (r: Vec<Vector2D>)
    ensures
        r@ == spec_box_vertices(w as int, h as int),
{
    let right: i64 = fx_div(w, TWO_FX);
    let top: i64 = fx_div(h, TWO_FX);
    let left: i64 = fx_neg(right);
    let bottom: i64 = fx_neg(top);
    let mut fv: Vec<Vector2D> = Vec::new();
    fv.push(Vector2D { x: left, y: top });
    fv.push(Vector2D { x: right, y: top });
    fv.push(Vector2D { x: right, y: bottom });
    fv.push(Vector2D { x: left, y: bottom });
    proof {
        assert(fv@ =~= spec_box_vertices(w as int, h as int));
    }
    fv
}

/// A rigid body. Cross-references from manifolds use the `index` field
/// (the body's stable position in the owning arena) rather than borrows.
#[derive(Clone, Debug)]
pub struct RigidBody {
    pub position: Vector2D,
    pub linear_velocity: Vector2D,
    pub angle: i64,
    pub angular_velocity: i64,
    pub force: Vector2D,
    pub mass: i64,
    pub inv_mass: i64,
    pub inertia: i64,
    pub inv_inertia: i64,
    pub density: i64,
    pub area: i64,
    pub restitution: i64,
    pub is_static: bool,
    pub radius: i64,
    pub width: i64,
    pub height: i64,
    pub shape: ShapeType,
    pub triangles: Vec<i32>,
    pub vertices: Vec<Vector2D>,
    pub transformed_vertices: Vec<Vector2D>,
    pub aabb: AABB,
    pub tfv_required: bool,
    pub aabb_update: bool,
    pub index: i32,
}

/// The rigid transform placing a body's local vertices in the world.
pub open spec fn spec_body_transform(pos: Vector2D, angle: int) -> FlatTransform {
    FlatTransform {
        pos_x: pos.x,
        pos_y: pos.y,
        sin: fx_sin_s(angle) as i64,
        cos: fx_cos_s(angle) as i64,
    }
}

/// The world-space vertices of a body, in specifications.
pub open spec fn spec_tfv(vertices: Seq<Vector2D>, pos: Vector2D, angle: int) -> Seq<Vector2D> {
    vertices.map(|i: int, v: Vector2D| spec_transform_v(v, spec_body_transform(pos, angle)))
}

impl RigidBody {
    /// Well-formedness: a static body has no inverse mass properties; a
    /// dynamic body's inverse mass and inertia are the fixed-point
    /// reciprocals of its mass and inertia; the vertex caches agree in
    /// length, a box has four vertices, and a clean vertex cache holds
    /// exactly the transformed local vertices.
    pub open spec fn wf(self) -> bool {
        &&& self.is_static ==> self.inv_mass == 0 && self.inv_inertia == 0
        &&& !self.is_static ==> {
            &&& self.mass > 0
            &&& self.inv_mass == fx_div_s(SCALE as int, self.mass as int)
            &&& self.inertia >= 0
            &&& self.inv_inertia == if self.inertia > 0 {
                fx_div_s(SCALE as int, self.inertia as int)
            } else {
                0
            }
        }
        &&& self.transformed_vertices.len() == self.vertices.len()
        &&& self.shape is Box ==> self.vertices.len() == 4
        &&& !self.tfv_required ==> self.transformed_vertices@ == spec_tfv(
            self.vertices@, self.position, self.angle as int)
        &&& !self.aabb_update ==> self.aabb == spec_body_aabb(self)
    }

    /// Moves the body by an offset and marks its caches stale.
    pub fn moves(&mut self, v: Vector2D)
        requires
            old(self).wf(),
        ensures
            final(self).wf(),
            *final(self) == (RigidBody {
                position: spec_sm(old(self).position, v),
                tfv_required: true,
                aabb_update: true,
                ..*old(self)
            }),
    {
        self.position = sm(self.position, v);
        self.tfv_required = true;
        self.aabb_update = true;
    }

    /// Places the body at a position and marks its caches stale.
    pub fn moves_to(&mut self, pos: Vector2D)
        requires
            old(self).wf(),
        ensures
            final(self).wf(),
            *final(self) == (RigidBody {
                position: pos,
                tfv_required: true,
                aabb_update: true,
                ..*old(self)
            }),
    {
        self.position = pos;
        self.tfv_required = true;
        self.aabb_update = true;
    }

    /// Turns the body by an angle and marks its caches stale.
    pub fn rotate_box(&mut self, amount: i64)
        requires
            old(self).wf(),
        ensures
            final(self).wf(),
            *final(self) == (RigidBody {
                angle: fx_add_s(old(self).angle as int, amount as int) as i64,
                tfv_required: true,
                aabb_update: true,
                ..*old(self)
            }),
    {
        self.angle = fx_add(self.angle, amount);
        self.tfv_required = true;
        self.aabb_update = true;
    }

    /// Adds an external force to apply on the next integration.
    pub fn add_force(&mut self, amount: Vector2D)
        ensures
            *final(self) == (RigidBody { force: amount, ..*old(self) }),
    {
        self.force = amount;
    }

    /// The world-space vertices, recomputing the cache when it is stale.
    pub fn get_tfv(&mut self) -> (r: Vec<Vector2D>)
        requires
            old(self).wf(),
        ensures
            final(self).wf(),
            r@ == spec_tfv(old(self).vertices@, old(self).position, old(self).angle as int),
            *final(self) == (RigidBody {
                transformed_vertices: final(self).transformed_vertices,
                tfv_required: false,
                ..*old(self)
            }),
            final(self).transformed_vertices@ == r@,
    {
        if self.tfv_required {
            let mut tf: FlatTransform = init_tf_zero();
            tf.transform(self.position.x, self.position.y, self.angle);
            let n: usize = self.vertices.len();
            let mut i: usize = 0;
            while i < n
                invariant
                    i <= n,
                    n == old(self).vertices.len(),
                    old(self).wf(),
                    tf == spec_body_transform(old(self).position, old(self).angle as int),
                    *self == (RigidBody {
                        transformed_vertices: self.transformed_vertices,
                        ..*old(self)
                    }),
                    self.transformed_vertices.len() == n,
                    forall|j: int| 0 <= j < i ==> self.transformed_vertices@[j]
                        == spec_tfv(old(self).vertices@, old(self).position,
                            old(self).angle as int)[j],
                decreases n - i,
            {
                let v: Vector2D = self.vertices[i];
                let tv: Vector2D = transform_v(v, tf);
                self.transformed_vertices.set(i, tv);
                i += 1;
            }
            proof {
                assert(self.transformed_vertices@ =~= spec_tfv(
                    old(self).vertices@, old(self).position, old(self).angle as int));
            }
        }
        self.tfv_required = false;
        copy_vertices(&self.transformed_vertices)
    }
}

/// The least x coordinate among the first `n` points, starting from the
/// largest scalar so that any point lowers it.
pub open spec fn spec_min_x(s: Seq<Vector2D>, n: int) -> int
    decreases n,
{
    if n <= 0 {
        i64::MAX as int
    } else {
        let m = spec_min_x(s, n - 1);
        if (s[n - 1].x as int) < m { s[n - 1].x as int } else { m }
    }
}

/// The least y coordinate among the first `n` points.
pub open spec fn spec_min_y(s: Seq<Vector2D>, n: int) -> int
    decreases n,
{
    if n <= 0 {
        i64::MAX as int
    } else {
        let m = spec_min_y(s, n - 1);
        if (s[n - 1].y as int) < m { s[n - 1].y as int } else { m }
    }
}

/// The greatest x coordinate among the first `n` points.
pub open spec fn spec_max_x(s: Seq<Vector2D>, n: int) -> int
    decreases n,
{
    if n <= 0 {
        i64::MIN as int
    } else {
        let m = spec_max_x(s, n - 1);
        if (s[n - 1].x as int) > m { s[n - 1].x as int } else { m }
    }
}

/// The greatest y coordinate among the first `n` points.
pub open spec fn spec_max_y(s: Seq<Vector2D>, n: int) -> int
    decreases n,
{
    if n <= 0 {
        i64::MIN as int
    } else {
        let m = spec_max_y(s, n - 1);
        if (s[n - 1].y as int) > m { s[n - 1].y as int } else { m }
    }
}

/// The bounding box of a body, in specifications: a circle's box spans its
/// radius each way; a polygon's box spans its world-space vertices.
pub open spec fn spec_body_aabb(b: RigidBody) -> AABB {
    if b.shape is Circle {
        AABB {
            min: Vector2D {
                x: fx_sub_s(b.position.x as int, b.radius as int) as i64,
                y: fx_sub_s(b.position.y as int, b.radius as int) as i64,
            },
            max: Vector2D {
                x: fx_add_s(b.position.x as int, b.radius as int) as i64,
                y: fx_add_s(b.position.y as int, b.radius as int) as i64,
            },
        }
    } else {
        let tfv = spec_tfv(b.vertices@, b.position, b.angle as int);
        let n = tfv.len() as int;
        AABB {
            min: Vector2D { x: spec_min_x(tfv, n) as i64, y: spec_min_y(tfv, n) as i64 },
            max: Vector2D { x: spec_max_x(tfv, n) as i64, y: spec_max_y(tfv, n) as i64 },
        }
    }
}

impl RigidBody {
    /// The bounding box, recomputing the cache when it is stale.
    pub fn get_aabb(&mut self) -> (r: AABB)
        requires
            old(self).wf(),
        ensures
            final(self).wf(),
            r == spec_body_aabb(*old(self)),
            final(self).aabb == r,
            !final(self).aabb_update,
            *final(self) == (RigidBody {
                transformed_vertices: final(self).transformed_vertices,
                tfv_required: final(self).tfv_required,
                aabb: r,
                aabb_update: false,
                ..*old(self)
            }),
    {
        if self.aabb_update {
            let computed: AABB = match self.shape {
                ShapeType::Circle => {
                    let min_x: i64 = crate::fxp::fx_sub(self.position.x, self.radius);
                    let min_y: i64 = crate::fxp::fx_sub(self.position.y, self.radius);
                    let max_x: i64 = fx_add(self.position.x, self.radius);
                    let max_y: i64 = fx_add(self.position.y, self.radius);
                    crate::aabb::init_hard_aabb(min_x, min_y, max_x, max_y)
                },
                ShapeType::Box => {
                    let vertices: Vec<Vector2D> = self.get_tfv();
                    let ghost tfv = spec_tfv(
                        old(self).vertices@, old(self).position, old(self).angle as int);
                    let mut min_x: i64 = i64::MAX;
                    let mut min_y: i64 = i64::MAX;
                    let mut max_x: i64 = i64::MIN;
                    let mut max_y: i64 = i64::MIN;
                    let n: usize = vertices.len();
                    let mut i: usize = 0;
                    while i < n
                        invariant
                            i <= n,
                            n == vertices.len(),
                            vertices@ == tfv,
                            min_x == spec_min_x(tfv, i as int),
                            min_y == spec_min_y(tfv, i as int),
                            max_x == spec_max_x(tfv, i as int),
                            max_y == spec_max_y(tfv, i as int),
                        decreases n - i,
                    {
                        let v: Vector2D = vertices[i];
                        if v.x < min_x {
                            min_x = v.x;
                        }
                        if v.x > max_x {
                            max_x = v.x;
                        }
                        if v.y < min_y {
                            min_y = v.y;
                        }
                        if v.y > max_y {
                            max_y = v.y;
                        }
                        i += 1;
                    }
                    crate::aabb::init_hard_aabb(min_x, min_y, max_x, max_y)
                },
            };
            self.aabb = computed;
        }
        self.aabb_update = false;
        self.aabb
    }

    /// The body after one substep of integration, in specifications:
    /// gravity into velocity, the new velocity into position, angular
    /// velocity into angle, over `time / iterations`. A static body does
    /// not move.
    pub open spec fn stepped(self, time: int, iterations: int, gravity: Vector2D) -> RigidBody {
        if self.is_static {
            self
        } else {
            let sub_dt = fx_div_s(time, iterations * (SCALE as int));
            let new_velocity = spec_sm(self.linear_velocity, spec_scale(gravity, sub_dt));
            RigidBody {
                linear_velocity: new_velocity,
                position: spec_sm(self.position, spec_scale(new_velocity, sub_dt)),
                angle: fx_add_s(
                    self.angle as int,
                    fx_mul_s(self.angular_velocity as int, sub_dt)) as i64,
                force: Vector2D { x: 0i64, y: 0i64 },
                tfv_required: true,
                aabb_update: true,
                ..self
            }
        }
    }

    /// One substep of integration: gravity into velocity, velocity into
    /// position, angular velocity into angle, over `time / iterations`.
    /// A static body does not move.
    pub fn step_body(&mut self, time: i64, iterations: i32, gravity: Vector2D)
        requires
            old(self).wf(),
            iterations > 0,
        ensures
            final(self).wf(),
            *final(self) == old(self).stepped(time as int, iterations as int, gravity),
            old(self).is_static ==> *final(self) == *old(self),
    {
        if self.is_static {
            return;
        }
        let sub_dt: i64 = fx_div(time, (iterations as i64) * SCALE);
        self.linear_velocity = sm(self.linear_velocity, dot_s(gravity, sub_dt));
        self.position = sm(self.position, dot_s(self.linear_velocity, sub_dt));
        self.angle = fx_add(self.angle, fx_mul(self.angular_velocity, sub_dt));
        self.force = vec_zero();
        self.tfv_required = true;
        self.aabb_update = true;
    }
}

/// Builds a body from its physical parameters. A dynamic body must have
/// positive mass; inertia is never negative.
pub fn initializer_r(
    pos: Vector2D,
    d: i64,
    mas: i64,
    rest: i64,
    are: i64,
    b: bool,
    rad: i64,
    w: i64,
    h: i64,
    sh: ShapeType,
    inertia_val: i64,
) -> (r: RigidBody)
    requires
        !b ==> mas > 0,
        inertia_val >= 0,
    ensures
        r.wf(),
        r.position == pos,
        r.density == d,
        r.mass == mas,
        r.restitution == rest,
        r.area == are,
        r.is_static == b,
        r.radius == rad,
        r.width == w,
        r.height == h,
        r.shape == sh,
        r.inertia == inertia_val,
        r.linear_velocity == (Vector2D { x: 0i64, y: 0i64 }),
        r.angle == 0,
        r.angular_velocity == 0,
        r.force == (Vector2D { x: 0i64, y: 0i64 }),
        r.index == -1,
        r.inv_mass == if b { 0int } else { fx_div_s(SCALE as int, mas as int) },
        r.inv_inertia == if b || inertia_val == 0 {
            0int
        } else {
            fx_div_s(SCALE as int, inertia_val as int)
        },
        sh is Box ==> r.vertices@ == spec_box_vertices(w as int, h as int),
{
    let inv_mass: i64 = if b { 0 } else { fx_div(SCALE, mas) };
    let inv_inertia: i64 = if b || inertia_val == 0 { 0 } else { fx_div(SCALE, inertia_val) };
    let vertices: Vec<Vector2D> = match sh {
        ShapeType::Box => creat_vertices_box(w, h),
        ShapeType::Circle => Vec::new(),
    };
    let transformed_vertices: Vec<Vector2D> = copy_vertices(&vertices);
    let triangles: Vec<i32> = match sh {
        ShapeType::Box => triangulate_box(),
        ShapeType::Circle => Vec::new(),
    };
    RigidBody {
        position: pos,
        linear_velocity: Vector2D { x: 0, y: 0 },
        angle: 0,
        angular_velocity: 0,
        force: Vector2D { x: 0, y: 0 },
        density: d,
        mass: mas,
        inv_mass,
        inertia: inertia_val,
        inv_inertia,
        restitution: rest,
        area: are,
        is_static: b,
        radius: rad,
        width: w,
        height: h,
        shape: sh,
        triangles,
        vertices,
        transformed_vertices,
        aabb: AABB {
            min: Vector2D { x: 0, y: 0 },
            max: Vector2D { x: 0, y: 0 },
        },
        tfv_required: true,
        aabb_update: true,
        index: -1,
    }
}

impl RigidBody {
    /// A default static five-by-five box at the origin.
    pub fn new_box() -> (r: RigidBody)
        ensures
            r.wf(),
            r.shape is Box,
            r.is_static,
            r.position == (Vector2D { x: 0i64, y: 0i64 }),
            r.density == SCALE,
            r.mass == 5 * SCALE,
            r.restitution == SCALE / 2,
            r.area == 25 * SCALE,
            r.radius == 0,
            r.width == 5 * SCALE,
            r.height == 5 * SCALE,
            r.inertia == 0,
            r.linear_velocity == (Vector2D { x: 0i64, y: 0i64 }),
            r.angle == 0,
            r.angular_velocity == 0,
    {
        initializer_r(
            Vector2D { x: 0, y: 0 },
            SCALE,
            5 * SCALE,
            SCALE / 2,
            25 * SCALE,
            true,
            0,
            5 * SCALE,
            5 * SCALE,
            ShapeType::Box,
            0,
        )
    }

    /// A default static ball of radius five at the origin.
    pub fn new_ball() -> (r: RigidBody)
        ensures
            r.wf(),
            r.shape is Circle,
            r.is_static,
            r.radius == 5 * SCALE,
            r.position == (Vector2D { x: 0i64, y: 0i64 }),
            r.density == SCALE,
            r.mass == 5 * SCALE,
            r.restitution == SCALE / 2,
            r.area == fx_mul_s(PI_FX as int, 25 * SCALE),
            r.width == 0,
            r.height == 0,
            r.inertia == 0,
            r.linear_velocity == (Vector2D { x: 0i64, y: 0i64 }),
            r.angle == 0,
            r.angular_velocity == 0,
    {
        initializer_r(
            Vector2D { x: 0, y: 0 },
            SCALE,
            5 * SCALE,
            SCALE / 2,
            fx_mul(PI_FX, 25 * SCALE),
            true,
            5 * SCALE,
            0,
            0,
            ShapeType::Circle,
            0,
        )
    }
}

/// Whether a circle of the given radius and density is admissible in a
/// world: its area and density must lie inside the world's bounds and it
/// must end up with positive mass.
pub open spec fn spec_circle_admissible(rad: int, d: int, world: crate::world::WorkSpace) -> bool {
    let area = fx_mul_s(fx_mul_s(rad, rad), PI_FX as int);
    let mass = fx_mul_s(area, d);
    &&& world.mn_bs <= area <= world.mx_bs
    &&& world.mn_d <= d <= world.mx_d
    &&& mass > 0
}

/// Builds a circle body when the world's bounds admit it. The mass is the
/// area times the density; the inertia is half the mass times the squared
/// radius; the restitution is clamped into `[0, 1]`.
pub fn create_circle_body_check(
    rad: i64,
    pos: Vector2D,
    d: i64,
    b: bool,
    rest: i64,
    world: &crate::world::WorkSpace,
) -> (r: Option<RigidBody>)
    ensures
        r is Some <==> spec_circle_admissible(rad as int, d as int, *world),
        r is Some ==> {
            let body = r->0;
            &&& body.wf()
            &&& body.shape is Circle
            &&& body.radius == rad
            &&& body.position == pos
            &&& body.density == d
            &&& body.is_static == b
            &&& body.area == fx_mul_s(fx_mul_s(rad as int, rad as int), PI_FX as int)
            &&& body.mass == fx_mul_s(body.area as int, d as int)
            &&& body.restitution == clamp_s(rest as int, 0, SCALE as int)
        },
{
    let area_a: i64 = fx_mul(fx_mul(rad, rad), PI_FX);
    if area_a < world.mn_bs {
        return None;
    }
    if area_a > world.mx_bs {
        return None;
    }
    if d < world.mn_d {
        return None;
    }
    if d > world.mx_d {
        return None;
    }
    let mass: i64 = fx_mul(area_a, d);
    if mass <= 0 {
        return None;
    }
    let restit: i64 = match clamp(rest, 0, SCALE) {
        Ok(v) => v,
        Err(_) => 0,
    };
    proof {
        crate::vec2::lemma_fx_square_nonneg(rad as int);
        crate::fxp::lemma_fx_mul_nonneg(
            fx_mul_s(mass as int, fx_mul_s(rad as int, rad as int)), 0);
        crate::fxp::lemma_fx_mul_nonneg(fx_mul_s(rad as int, rad as int), PI_FX as int);
        crate::fxp::lemma_fx_mul_nonneg(mass as int, fx_mul_s(rad as int, rad as int));
        crate::fxp::lemma_fx_div_nonneg(
            fx_mul_s(mass as int, fx_mul_s(rad as int, rad as int)), TWO_FX as int);
    }
    let inertia: i64 = fx_div(fx_mul(mass, fx_mul(rad, rad)), TWO_FX);
    let body: RigidBody = initializer_r(
        pos, d, mass, restit, area_a, b, rad, 0, 0, ShapeType::Circle, inertia);
    Some(body)
}

/// Builds a circle body; the caller must know the world admits it. The
/// body carries the same fields as the checked variant's successful case.
pub fn create_circle_body(
    rad: i64,
    pos: Vector2D,
    d: i64,
    b: bool,
    rest: i64,
    world: &crate::world::WorkSpace,
) -> (r: RigidBody)
    requires
        spec_circle_admissible(rad as int, d as int, *world),
    ensures
        r.wf(),
        r.shape is Circle,
        r.radius == rad,
        r.position == pos,
        r.density == d,
        r.is_static == b,
        r.area == fx_mul_s(fx_mul_s(rad as int, rad as int), PI_FX as int),
        r.mass == fx_mul_s(r.area as int, d as int),
        r.restitution == clamp_s(rest as int, 0, SCALE as int),
{
    let j: Option<RigidBody> = create_circle_body_check(rad, pos, d, b, rest, world);
    match j {
        Some(body) => body,
        None => RigidBody::new_ball(),
    }
}

/// Whether a box of the given width, height and density is admissible in
/// a world.
pub open spec fn spec_box_admissible(w: int, h: int, d: int, world: crate::world::WorkSpace) -> bool {
    let area = fx_mul_s(w, h);
    let mass = fx_mul_s(area, d);
    &&& world.mn_bs <= area <= world.mx_bs
    &&& world.mn_d <= d <= world.mx_d
    &&& mass > 0
}

/// Builds a box body when the world's bounds admit it. The mass is the
/// area times the density; the inertia is the mass times the sum of the
/// squared sides over twelve; the restitution is clamped into `[0, 1]`.
pub fn create_box_body_check(
    width: i64,
    height: i64,
    pos: Vector2D,
    d: i64,
    b: bool,
    rest: i64,
    world: &crate::world::WorkSpace,
) -> (r: Option<RigidBody>)
    ensures
        r is Some <==> spec_box_admissible(width as int, height as int, d as int, *world),
        r is Some ==> {
            let body = r->0;
            &&& body.wf()
            &&& body.shape is Box
            &&& body.width == width
            &&& body.height == height
            &&& body.position == pos
            &&& body.density == d
            &&& body.is_static == b
            &&& body.area == fx_mul_s(width as int, height as int)
            &&& body.mass == fx_mul_s(body.area as int, d as int)
            &&& body.restitution == clamp_s(rest as int, 0, SCALE as int)
            &&& body.vertices@ == spec_box_vertices(width as int, height as int)
        },
{
    let area_a: i64 = fx_mul(width, height);
    if area_a < world.mn_bs {
        return None;
    }
    if area_a > world.mx_bs {
        return None;
    }
    if d < world.mn_d {
        return None;
    }
    if d > world.mx_d {
        return None;
    }
    let mass: i64 = fx_mul(area_a, d);
    if mass <= 0 {
        return None;
    }
    let restit: i64 = match clamp(rest, 0, SCALE) {
        Ok(v) => v,
        Err(_) => 0,
    };
    let w_sq: i64 = fx_mul(width, width);
    let h_sq: i64 = fx_mul(height, height);
    proof {
        crate::vec2::lemma_fx_square_nonneg(width as int);
        crate::vec2::lemma_fx_square_nonneg(height as int);
        crate::fxp::lemma_fx_mul_nonneg(
            mass as int, fx_add_s(w_sq as int, h_sq as int));
        crate::fxp::lemma_fx_div_nonneg(
            fx_mul_s(mass as int, fx_add_s(w_sq as int, h_sq as int)), TWELVE_FX as int);
    }
    let inertia: i64 = fx_div(fx_mul(mass, fx_add(w_sq, h_sq)), TWELVE_FX);
    let body: RigidBody = initializer_r(
        pos, d, mass, restit, area_a, b, 0, width, height, ShapeType::Box, inertia);
    Some(body)
}

/// Builds a box body; the caller must know the world admits it. The body
/// carries the same fields as the checked variant's successful case.
pub fn create_box_body(
    width: i64,
    height: i64,
    pos: Vector2D,
    d: i64,
    b: bool,
    rest: i64,
    world: &crate::world::WorkSpace,
) -> (r: RigidBody)
    requires
        spec_box_admissible(width as int, height as int, d as int, *world),
    ensures
        r.wf(),
        r.shape is Box,
        r.width == width,
        r.height == height,
        r.position == pos,
        r.density == d,
        r.is_static == b,
        r.area == fx_mul_s(width as int, height as int),
        r.mass == fx_mul_s(r.area as int, d as int),
        r.restitution == clamp_s(rest as int, 0, SCALE as int),
        r.vertices@ == spec_box_vertices(width as int, height as int),
{
    let j: Option<RigidBody> = create_box_body_check(width, height, pos, d, b, rest, world);
    match j {
        Some(body) => body,
        None => RigidBody::new_box(),
    }
}

/// Copies a vertex list element by element.
fn copy_vertices(v: &Vec<Vector2D>) -> (r: Vec<Vector2D>)
    ensures
        r@ == v@,
{
    let mut out: Vec<Vector2D> = Vec::new();
    let n: usize = v.len();
    let mut i: usize = 0;
    while i < n
        invariant
            i <= n,
            n == v.len(),
            out@ == v@.take(i as int),
        decreases n - i,
    {
        out.push(v[i]);
        proof {
            assert(out@ =~= v@.take(i + 1 as int));
        }
        i += 1;
    }
    proof {
        assert(out@ =~= v@);
    }
    out
}

impl RigidBody {
    /// The `position` field.
    pub fn get_position(&self) -> (r: Vector2D)
        ensures
            r == self.position,
    {
        self.position
    }

    /// Overwrites the `position` field.
    pub fn set_position(&mut self, position: Vector2D)
        ensures
            *final(self) == (RigidBody { position, ..*old(self) }),
    {
        self.position = position;
    }

    /// The `linear_velocity` field.
    pub fn get_linear_velocity(&self) -> (r: &Vector2D)
        ensures
            *r == self.linear_velocity,
    {
        &self.linear_velocity
    }

    /// Overwrites the `linear_velocity` field.
    pub fn set_linear_velocity(&mut self, linear_velocity: Vector2D)
        ensures
            *final(self) == (RigidBody { linear_velocity, ..*old(self) }),
    {
        self.linear_velocity = linear_velocity;
    }

    /// The `angle` field.
    pub fn get_angle(&self) -> (r: i64)
        ensures
            r == self.angle,
    {
        self.angle
    }

    /// Overwrites the `angle` field.
    pub fn set_angle(&mut self, angle: i64)
        ensures
            *final(self) == (RigidBody { angle, ..*old(self) }),
    {
        self.angle = angle;
    }

    /// The `angular_velocity` field.
    pub fn get_angular_velocity(&self) -> (r: i64)
        ensures
            r == self.angular_velocity,
    {
        self.angular_velocity
    }

    /// Overwrites the `angular_velocity` field.
    pub fn set_angular_velocity(&mut self, angular_velocity: i64)
        ensures
            *final(self) == (RigidBody { angular_velocity, ..*old(self) }),
    {
        self.angular_velocity = angular_velocity;
    }

    /// The `force` field.
    pub fn get_force(&self) -> (r: &Vector2D)
        ensures
            *r == self.force,
    {
        &self.force
    }

    /// Overwrites the `force` field.
    pub fn set_force(&mut self, force: Vector2D)
        ensures
            *final(self) == (RigidBody { force, ..*old(self) }),
    {
        self.force = force;
    }

    /// The `mass` field.
    pub fn get_mass(&self) -> (r: i64)
        ensures
            r == self.mass,
    {
        self.mass
    }

    /// Overwrites the `mass` field.
    pub fn set_mass(&mut self, mass: i64)
        ensures
            *final(self) == (RigidBody { mass, ..*old(self) }),
    {
        self.mass = mass;
    }

    /// The `inv_mass` field.
    pub fn get_inv_mass(&self) -> (r: i64)
        ensures
            r == self.inv_mass,
    {
        self.inv_mass
    }

    /// Overwrites the `inv_mass` field.
    pub fn set_inv_mass(&mut self, inv_mass: i64)
        ensures
            *final(self) == (RigidBody { inv_mass, ..*old(self) }),
    {
        self.inv_mass = inv_mass;
    }

    /// The `inv_inertia` field.
    pub fn get_inv_inertia(&self) -> (r: i64)
        ensures
            r == self.inv_inertia,
    {
        self.inv_inertia
    }

    /// Overwrites the `inv_inertia` field.
    pub fn set_inv_inertia(&mut self, inv_inertia: i64)
        ensures
            *final(self) == (RigidBody { inv_inertia, ..*old(self) }),
    {
        self.inv_inertia = inv_inertia;
    }

    /// The `density` field.
    pub fn get_density(&self) -> (r: i64)
        ensures
            r == self.density,
    {
        self.density
    }

    /// Overwrites the `density` field.
    pub fn set_density(&mut self, density: i64)
        ensures
            *final(self) == (RigidBody { density, ..*old(self) }),
    {
        self.density = density;
    }

    /// The `area` field.
    pub fn get_area(&self) -> (r: i64)
        ensures
            r == self.area,
    {
        self.area
    }

    /// Overwrites the `area` field.
    pub fn set_area(&mut self, area: i64)
        ensures
            *final(self) == (RigidBody { area, ..*old(self) }),
    {
        self.area = area;
    }

    /// The `restitution` field.
    pub fn get_restitution(&self) -> (r: i64)
        ensures
            r == self.restitution,
    {
        self.restitution
    }

    /// Overwrites the `restitution` field.
    pub fn set_restitution(&mut self, restitution: i64)
        ensures
            *final(self) == (RigidBody { restitution, ..*old(self) }),
    {
        self.restitution = restitution;
    }

    /// The `is_static` field.
    pub fn get_is_static(&self) -> (r: bool)
        ensures
            r == self.is_static,
    {
        self.is_static
    }

    /// Overwrites the `is_static` field.
    pub fn set_is_static(&mut self, is_static: bool)
        ensures
            *final(self) == (RigidBody { is_static, ..*old(self) }),
    {
        self.is_static = is_static;
    }

    /// The `radius` field.
    pub fn get_radius(&self) -> (r: i64)
        ensures
            r == self.radius,
    {
        self.radius
    }

    /// Overwrites the `radius` field.
    pub fn set_radius(&mut self, radius: i64)
        ensures
            *final(self) == (RigidBody { radius, ..*old(self) }),
    {
        self.radius = radius;
    }

    /// The `width` field.
    pub fn get_width(&self) -> (r: i64)
        ensures
            r == self.width,
    {
        self.width
    }

    /// Overwrites the `width` field.
    pub fn set_width(&mut self, width: i64)
        ensures
            *final(self) == (RigidBody { width, ..*old(self) }),
    {
        self.width = width;
    }

    /// The `height` field.
    pub fn get_height(&self) -> (r: i64)
        ensures
            r == self.height,
    {
        self.height
    }

    /// Overwrites the `height` field.
    pub fn set_height(&mut self, height: i64)
        ensures
            *final(self) == (RigidBody { height, ..*old(self) }),
    {
        self.height = height;
    }

    /// The `shape` field.
    pub fn get_shape(&self) -> (r: &ShapeType)
        ensures
            *r == self.shape,
    {
        &self.shape
    }

    /// Overwrites the `shape` field.
    pub fn set_shape(&mut self, shape: ShapeType)
        ensures
            *final(self) == (RigidBody { shape, ..*old(self) }),
    {
        self.shape = shape;
    }

    /// The `triangles` field.
    pub fn get_triangles(&self) -> (r: &Vec<i32>)
        ensures
            *r == self.triangles,
    {
        &self.triangles
    }

    /// Overwrites the `triangles` field.
    pub fn set_triangles(&mut self, triangles: Vec<i32>)
        ensures
            *final(self) == (RigidBody { triangles, ..*old(self) }),
    {
        self.triangles = triangles;
    }

    /// The `vertices` field.
    pub fn get_vertices(&self) -> (r: &Vec<Vector2D>)
        ensures
            *r == self.vertices,
    {
        &self.vertices
    }

    /// Overwrites the `vertices` field.
    pub fn set_vertices(&mut self, vertices: Vec<Vector2D>)
        ensures
            *final(self) == (RigidBody { vertices, ..*old(self) }),
    {
        self.vertices = vertices;
    }

    /// The `transformed_vertices` field.
    pub fn get_transformed_vertices(&self) -> (r: &Vec<Vector2D>)
        ensures
            *r == self.transformed_vertices,
    {
        &self.transformed_vertices
    }

    /// Overwrites the `transformed_vertices` field.
    pub fn set_transformed_vertices(&mut self, transformed_vertices: Vec<Vector2D>)
        ensures
            *final(self) == (RigidBody { transformed_vertices, ..*old(self) }),
    {
        self.transformed_vertices = transformed_vertices;
    }

    /// The `tfv_required` field.
    pub fn get_tfv_required(&self) -> (r: bool)
        ensures
            r == self.tfv_required,
    {
        self.tfv_required
    }

    /// Overwrites the `tfv_required` field.
    pub fn set_tfv_required(&mut self, tfv_required: bool)
        ensures
            *final(self) == (RigidBody { tfv_required, ..*old(self) }),
    {
        self.tfv_required = tfv_required;
    }

    /// The `aabb_update` field.
    pub fn get_aabb_update(&self) -> (r: bool)
        ensures
            r == self.aabb_update,
    {
        self.aabb_update
    }

    /// Overwrites the `aabb_update` field.
    pub fn set_aabb_update(&mut self, aabb_update: bool)
        ensures
            *final(self) == (RigidBody { aabb_update, ..*old(self) }),
    {
        self.aabb_update = aabb_update;
    }

    /// The `index` field.
    pub fn get_index(&self) -> (r: i32)
        ensures
            r == self.index,
    {
        self.index
    }

    /// Overwrites the `index` field.
    pub fn set_index(&mut self, index: i32)
        ensures
            *final(self) == (RigidBody { index, ..*old(self) }),
    {
        self.index = index;
    }

    /// Overwrites the cached bounding box.
    pub fn set_aabb(&mut self, aabb: AABB)
        ensures
            *final(self) == (RigidBody { aabb, ..*old(self) }),
    {
        self.aabb = aabb;
    }
}

} // verus!
