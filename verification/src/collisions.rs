//! Narrow-phase collision detection: the separating axis theorem for
//! circles and convex polygons.

use vstd::prelude::*;
use crate::fxp::{fx_add, fx_add_s, fx_sub, fx_sub_s, fx_div_s, fx_neg_s, SCALE};
use crate::vec2::{
    Vector2D, mn, dot_s, vec_zero, random_unit_vector, spec_mn, spec_scale,
    spec_dot, spec_dist, spec_dist_sq, spec_normalize, spec_vec,
};

verus! {

/// The smaller of two scalars.
pub fn min(a: i64, b: i64) -> (r: i64)
    ensures
        r == if a < b { a as int } else { b as int },
{
    if a < b {
        return a;
    }
    b
}

/// Whether two circles collide, in specifications: exactly when the
/// distance between the centers is under the sum of the radii.
pub open spec fn spec_circles_collide(ca: Vector2D, ra: int, cb: Vector2D, rb: int) -> bool {
    spec_dist(ca, cb) < fx_add_s(ra, rb)
}

/// The penetration depth of two colliding circles, in specifications: the
/// sum of the radii less the distance between the centers.
pub open spec fn spec_circles_depth(ca: Vector2D, ra: int, cb: Vector2D, rb: int) -> int {
    fx_sub_s(fx_add_s(ra, rb), spec_dist(ca, cb))
}

/// The circle-circle test: whether they collide and, if so, the normal
/// from the first center toward the second and the penetration depth.
/// When the centers coincide the normal direction is drawn at random.
pub fn intersect_circles(center_a: Vector2D, radia_a: i64, center_b: Vector2D, radia_b: i64)
    -> (r: (bool, Vector2D, i64))
    ensures
        r.0 == spec_circles_collide(center_a, radia_a as int, center_b, radia_b as int),
        !r.0 ==> r.1 == (Vector2D { x: 0i64, y: 0i64 }) && r.2 == 0,
        r.0 ==> r.2 == spec_circles_depth(center_a, radia_a as int, center_b, radia_b as int),
        r.0 && spec_dist(center_a, center_b) > 0
            ==> r.1 == spec_normalize(spec_mn(center_b, center_a)),
        r.0 && spec_dist(center_a, center_b) == 0
            ==> -SCALE <= r.1.x <= SCALE && -SCALE <= r.1.y <= SCALE
                && SCALE / 4 <= crate::vec2::spec_len_sq(r.1) <= 2 * SCALE,
{
    let distance: i64 = center_a.dist(center_b);
    let radii: i64 = fx_add(radia_a, radia_b);
    if distance >= radii {
        return (false, vec_zero(), 0);
    }
    let normal: Vector2D = if distance > 0 {
        mn(center_b, center_a).normalize()
    } else {
        random_unit_vector()
    };
    let depth: i64 = fx_sub(radii, distance);
    (true, normal, depth)
}

/// The least projection of the first `n` points onto an axis, starting
/// from the largest scalar so that any point lowers it.
pub open spec fn spec_proj_min(s: Seq<Vector2D>, axis: Vector2D, n: int) -> int
    decreases n,
{
    if n <= 0 {
        i64::MAX as int
    } else {
        let p = spec_dot(s[n - 1], axis);
        let m = spec_proj_min(s, axis, n - 1);
        if p < m { p } else { m }
    }
}

/// The greatest projection of the first `n` points onto an axis.
pub open spec fn spec_proj_max(s: Seq<Vector2D>, axis: Vector2D, n: int) -> int
    decreases n,
{
    if n <= 0 {
        i64::MIN as int
    } else {
        let p = spec_dot(s[n - 1], axis);
        let m = spec_proj_max(s, axis, n - 1);
        if p > m { p } else { m }
    }
}

/// Projects a vertex set onto an axis, returning the scalar range covered.
pub fn project_vertices(vertices: &Vec<Vector2D>, axis: Vector2D) -> (r: (i64, i64))
    ensures
        r.0 == spec_proj_min(vertices@, axis, vertices@.len() as int),
        r.1 == spec_proj_max(vertices@, axis, vertices@.len() as int),
{
    let mut lo: i64 = i64::MAX;
    let mut hi: i64 = i64::MIN;
    let n: usize = vertices.len();
    let mut i: usize = 0;
    while i < n
        invariant
            i <= n,
            n == vertices@.len(),
            lo == spec_proj_min(vertices@, axis, i as int),
            hi == spec_proj_max(vertices@, axis, i as int),
        decreases n - i,
    {
        let v: Vector2D = vertices[i];
        let proj: i64 = v.dot(axis);
        if proj < lo {
            lo = proj;
        }
        if proj > hi {
            hi = proj;
        }
        i += 1;
    }
    (lo, hi)
}

/// The projection of a circle onto a unit axis, in specifications: the
/// center's projection spread by the radius, order-normalized.
pub open spec fn spec_project_circle(center: Vector2D, rad: int, axis: Vector2D) -> (int, int) {
    let c = spec_dot(center, axis);
    let lo = fx_sub_s(c, rad);
    let hi = fx_add_s(c, rad);
    if lo > hi { (hi, lo) } else { (lo, hi) }
}

/// Projects a circle onto a unit axis, returning the scalar range covered.
pub fn project_circle(center: Vector2D, rad: i64, axis: Vector2D) -> (r: (i64, i64))
    ensures
        r.0 == spec_project_circle(center, rad as int, axis).0,
        r.1 == spec_project_circle(center, rad as int, axis).1,
{
    let c: i64 = center.dot(axis);
    let lo: i64 = fx_sub(c, rad);
    let hi: i64 = fx_add(c, rad);
    if lo > hi {
        (hi, lo)
    } else {
        (lo, hi)
    }
}

/// The index of the point nearest a center among the first `n`, earliest
/// winning ties.
pub open spec fn spec_closest(s: Seq<Vector2D>, c: Vector2D, n: int) -> int
    decreases n,
{
    if n <= 1 {
        0
    } else {
        let prev = spec_closest(s, c, n - 1);
        if spec_dist(s[n - 1], c) < spec_dist(s[prev], c) { n - 1 } else { prev }
    }
}

/// The index of the vertex nearest a center.
pub fn closest_point(center_c: Vector2D, vertices: &Vec<Vector2D>) -> (r: i32)
    requires
        0 < vertices@.len() < 0x7fffffff,
    ensures
        0 <= r < vertices@.len(),
        r == spec_closest(vertices@, center_c, vertices@.len() as int),
{
    let mut result: usize = 0;
    let mut min_dist: i64 = vertices[0].dist(center_c);
    let n: usize = vertices.len();
    let mut i: usize = 1;
    while i < n
        invariant
            1 <= i <= n,
            n == vertices@.len() < 0x7fffffff,
            0 <= result < i,
            result == spec_closest(vertices@, center_c, i as int),
            min_dist == spec_dist(vertices@[result as int], center_c),
        decreases n - i,
    {
        let dist: i64 = vertices[i].dist(center_c);
        if dist < min_dist {
            min_dist = dist;
            result = i;
        }
        i += 1;
    }
    result as i32
}

/// The arithmetic mean of a vertex set, in specifications: the sums of
/// the coordinates divided by the count.
pub open spec fn spec_sum_x(s: Seq<Vector2D>, n: int) -> int
    decreases n,
{
    if n <= 0 { 0 } else { fx_add_s(spec_sum_x(s, n - 1), s[n - 1].x as int) }
}

/// The running saturated sum of the y coordinates of the first `n` points.
pub open spec fn spec_sum_y(s: Seq<Vector2D>, n: int) -> int
    decreases n,
{
    if n <= 0 { 0 } else { fx_add_s(spec_sum_y(s, n - 1), s[n - 1].y as int) }
}

/// The centroid of a vertex set, in specifications.
pub open spec fn spec_mean(s: Seq<Vector2D>) -> Vector2D {
    let n = s.len() as int;
    spec_vec(
        fx_div_s(spec_sum_x(s, n), n * (SCALE as int)),
        fx_div_s(spec_sum_y(s, n), n * (SCALE as int)),
    )
}

/// The centroid of a vertex set: the independent means of the x and y
/// coordinates.
pub fn find_arithmetic_mean(vertices: &Vec<Vector2D>) -> (r: Vector2D)
    requires
        0 < vertices@.len() <= 1_000_000_000,
    ensures
        r == spec_mean(vertices@),
{
    let mut sum_x: i64 = 0;
    let mut sum_y: i64 = 0;
    let n: usize = vertices.len();
    let mut i: usize = 0;
    while i < n
        invariant
            i <= n,
            n == vertices@.len(),
            sum_x == spec_sum_x(vertices@, i as int),
            sum_y == spec_sum_y(vertices@, i as int),
        decreases n - i,
    {
        let v: Vector2D = vertices[i];
        sum_x = fx_add(sum_x, v.x);
        sum_y = fx_add(sum_y, v.y);
        i += 1;
    }
    let count: i64 = (n as i64) * SCALE;
    Vector2D { x: crate::fxp::fx_div(sum_x, count), y: crate::fxp::fx_div(sum_y, count) }
}

/// The unit outward-ish normal of a polygon's edge `i`, in specifications.
pub open spec fn spec_edge_axis(poly: Seq<Vector2D>, i: int) -> Vector2D {
    let va = poly[i];
    let vb = poly[(i + 1) % (poly.len() as int)];
    let edge = spec_mn(vb, va);
    spec_normalize(spec_vec(fx_neg_s(edge.y as int), edge.x as int))
}

/// The `k`-th test axis for a polygon pair: the edge normals of the first
/// polygon, then those of the second.
pub open spec fn spec_pp_axis(va: Seq<Vector2D>, vb: Seq<Vector2D>, k: int) -> Vector2D {
    if k < va.len() { spec_edge_axis(va, k) } else { spec_edge_axis(vb, k - va.len()) }
}

/// Whether an axis separates two projected vertex sets (touching counts
/// as separated).
pub open spec fn spec_separated(axis: Vector2D, va: Seq<Vector2D>, vb: Seq<Vector2D>) -> bool {
    ||| spec_proj_min(va, axis, va.len() as int) >= spec_proj_max(vb, axis, vb.len() as int)
    ||| spec_proj_min(vb, axis, vb.len() as int) >= spec_proj_max(va, axis, va.len() as int)
}

/// The overlap of the two projected ranges along an axis: the smaller of
/// the two mutual overhangs.
pub open spec fn spec_axis_depth(axis: Vector2D, va: Seq<Vector2D>, vb: Seq<Vector2D>) -> int {
    let d1 = fx_sub_s(
        spec_proj_max(vb, axis, vb.len() as int), spec_proj_min(va, axis, va.len() as int));
    let d2 = fx_sub_s(
        spec_proj_max(va, axis, va.len() as int), spec_proj_min(vb, axis, vb.len() as int));
    if d1 < d2 { d1 } else { d2 }
}

/// An axis oriented to point from the first centroid toward the second.
pub open spec fn spec_oriented(axis: Vector2D, ca: Vector2D, cb: Vector2D) -> Vector2D {
    if spec_dot(spec_mn(cb, ca), axis) < 0 {
        spec_scale(axis, -(SCALE as int))
    } else {
        axis
    }
}

/// The exact polygon-polygon contract: a collision is reported exactly
/// when no tested axis separates the vertex sets, and then the depth is
/// the least overlap over all tested axes, along an axis achieving it,
/// oriented from the first center toward the second.
pub open spec fn spec_pp_result(
    ca: Vector2D, va: Seq<Vector2D>, cb: Vector2D, vb: Seq<Vector2D>, r: (bool, Vector2D, i64),
) -> bool {
    let total = va.len() + vb.len();
    &&& r.0 == (forall|k: int| 0 <= k < total
        ==> !spec_separated(#[trigger] spec_pp_axis(va, vb, k), va, vb))
    &&& r.0 ==> (exists|k: int| 0 <= k < total
        && r.2 == spec_axis_depth(#[trigger] spec_pp_axis(va, vb, k), va, vb)
        && r.1 == spec_oriented(spec_pp_axis(va, vb, k), ca, cb))
    &&& r.0 ==> (forall|k: int| 0 <= k < total
        ==> spec_axis_depth(#[trigger] spec_pp_axis(va, vb, k), va, vb) >= r.2)
}

/// The separating-axis test for two convex polygons given their centers
/// and world-space vertices.
pub fn intersect_polygon2(
    center_a: Vector2D,
    vec_a: &Vec<Vector2D>,
    center_b: Vector2D,
    vec_b: &Vec<Vector2D>,
) -> (r: (bool, Vector2D, i64))
    requires
        vec_a@.len() >= 1,
        vec_b@.len() >= 1,
    ensures
        spec_pp_result(center_a, vec_a@, center_b, vec_b@, r),
{
    let la: usize = vec_a.len();
    let lb: usize = vec_b.len();
    let mut normal: Vector2D = vec_zero();
    let mut depth: i64 = 0;
    let ghost mut best_k: int = 0;
    let mut i: usize = 0;
    while i < la
        invariant
            0 <= i <= la,
            la == vec_a@.len(),
            lb == vec_b@.len(),
            forall|k: int| 0 <= k < i
                ==> !spec_separated(#[trigger] spec_pp_axis(vec_a@, vec_b@, k), vec_a@, vec_b@),
            i > 0 ==> {
                &&& 0 <= best_k < i
                &&& depth == spec_axis_depth(spec_pp_axis(vec_a@, vec_b@, best_k), vec_a@, vec_b@)
                &&& normal == spec_pp_axis(vec_a@, vec_b@, best_k)
                &&& forall|k: int| 0 <= k < i
                    ==> spec_axis_depth(
                        #[trigger] spec_pp_axis(vec_a@, vec_b@, k), vec_a@, vec_b@) >= depth
            },
        decreases la - i,
    {
        let va: Vector2D = vec_a[i];
        let vb: Vector2D = vec_a[(i + 1) % la];
        let edge: Vector2D = mn(vb, va);
        let axis: Vector2D = Vector2D { x: crate::fxp::fx_neg(edge.y), y: edge.x }.normalize();
        proof {
            assert(axis == spec_pp_axis(vec_a@, vec_b@, i as int));
        }
        let range_a: (i64, i64) = project_vertices(vec_a, axis);
        let range_b: (i64, i64) = project_vertices(vec_b, axis);
        if range_a.0 >= range_b.1 || range_b.0 >= range_a.1 {
            return (false, normal, depth);
        }
        let axis_depth: i64 = min(fx_sub(range_b.1, range_a.0), fx_sub(range_a.1, range_b.0));
        if i == 0 || axis_depth < depth {
            depth = axis_depth;
            normal = axis;
            proof {
                best_k = i as int;
            }
        }
        i += 1;
    }
    let mut j: usize = 0;
    while j < lb
        invariant
            0 <= j <= lb,
            la == vec_a@.len() >= 1,
            lb == vec_b@.len() >= 1,
            forall|k: int| 0 <= k < la + j
                ==> !spec_separated(#[trigger] spec_pp_axis(vec_a@, vec_b@, k), vec_a@, vec_b@),
            0 <= best_k < la + j,
            depth == spec_axis_depth(spec_pp_axis(vec_a@, vec_b@, best_k), vec_a@, vec_b@),
            normal == spec_pp_axis(vec_a@, vec_b@, best_k),
            forall|k: int| 0 <= k < la + j
                ==> spec_axis_depth(
                    #[trigger] spec_pp_axis(vec_a@, vec_b@, k), vec_a@, vec_b@) >= depth,
        decreases lb - j,
    {
        let va: Vector2D = vec_b[j];
        let vb: Vector2D = vec_b[(j + 1) % lb];
        let edge: Vector2D = mn(vb, va);
        let axis: Vector2D = Vector2D { x: crate::fxp::fx_neg(edge.y), y: edge.x }.normalize();
        proof {
            assert(axis == spec_pp_axis(vec_a@, vec_b@, la + j));
        }
        let range_a: (i64, i64) = project_vertices(vec_a, axis);
        let range_b: (i64, i64) = project_vertices(vec_b, axis);
        if range_a.0 >= range_b.1 || range_b.0 >= range_a.1 {
            return (false, normal, depth);
        }
        let axis_depth: i64 = min(fx_sub(range_b.1, range_a.0), fx_sub(range_a.1, range_b.0));
        if axis_depth < depth {
            depth = axis_depth;
            normal = axis;
            proof {
                best_k = la + j;
            }
        }
        j += 1;
    }
    let direction: Vector2D = mn(center_b, center_a);
    if direction.dot(normal) < 0 {
        normal = dot_s(normal, -SCALE);
    }
    (true, normal, depth)
}

/// The separating-axis test for two convex polygons, with the centers
/// taken as the vertex means.
pub fn intersect_polygon(vec_a: &Vec<Vector2D>, vec_b: &Vec<Vector2D>)
    -> (r: (bool, Vector2D, i64))
    requires
        1 <= vec_a@.len() <= 1_000_000_000,
        1 <= vec_b@.len() <= 1_000_000_000,
    ensures
        spec_pp_result(spec_mean(vec_a@), vec_a@, spec_mean(vec_b@), vec_b@, r),
{
    let center_a: Vector2D = find_arithmetic_mean(vec_a);
    let center_b: Vector2D = find_arithmetic_mean(vec_b);
    intersect_polygon2(center_a, vec_a, center_b, vec_b)
}

/// The `k`-th test axis for a circle against a polygon: the polygon's
/// edge normals, then the direction from the circle center to the
/// polygon's nearest vertex.
pub open spec fn spec_pc_axis(vs: Seq<Vector2D>, center: Vector2D, k: int) -> Vector2D {
    if k < vs.len() {
        spec_edge_axis(vs, k)
    } else {
        spec_normalize(spec_mn(vs[spec_closest(vs, center, vs.len() as int)], center))
    }
}

/// Whether an axis separates a polygon from a circle (touching counts as
/// separated).
pub open spec fn spec_separated_pc(
    axis: Vector2D, vs: Seq<Vector2D>, center: Vector2D, rad: int,
) -> bool {
    let c = spec_project_circle(center, rad, axis);
    ||| spec_proj_min(vs, axis, vs.len() as int) >= c.1
    ||| c.0 >= spec_proj_max(vs, axis, vs.len() as int)
}

/// The overlap of a polygon's and a circle's projections along an axis.
pub open spec fn spec_axis_depth_pc(
    axis: Vector2D, vs: Seq<Vector2D>, center: Vector2D, rad: int,
) -> int {
    let c = spec_project_circle(center, rad, axis);
    let d1 = fx_sub_s(c.1, spec_proj_min(vs, axis, vs.len() as int));
    let d2 = fx_sub_s(spec_proj_max(vs, axis, vs.len() as int), c.0);
    if d1 < d2 { d1 } else { d2 }
}

/// The exact circle-polygon contract: a collision is reported exactly
/// when no tested axis separates the shapes, and then the depth is the
/// least overlap over all tested axes, along an axis achieving it. The
/// normal points from the circle toward the polygon center, or its
/// opposite when `flip` is set.
pub open spec fn spec_pc_result(
    center_c: Vector2D,
    rad: int,
    pc: Vector2D,
    vs: Seq<Vector2D>,
    flip: bool,
    r: (bool, Vector2D, i64),
) -> bool {
    let total = vs.len() + 1;
    &&& r.0 == (forall|k: int| 0 <= k < total
        ==> !spec_separated_pc(#[trigger] spec_pc_axis(vs, center_c, k), vs, center_c, rad))
    &&& r.0 ==> (exists|k: int| 0 <= k < total
        && r.2 == spec_axis_depth_pc(#[trigger] spec_pc_axis(vs, center_c, k), vs, center_c, rad)
        && r.1 == (if flip {
            spec_scale(spec_oriented(spec_pc_axis(vs, center_c, k), center_c, pc), -(SCALE as int))
        } else {
            spec_oriented(spec_pc_axis(vs, center_c, k), center_c, pc)
        }))
    &&& r.0 ==> (forall|k: int| 0 <= k < total
        ==> spec_axis_depth_pc(
            #[trigger] spec_pc_axis(vs, center_c, k), vs, center_c, rad) >= r.2)
}

/// The separating-axis test for a circle against a convex polygon, given
/// the polygon's center and world-space vertices.
pub fn intersect_polygon_circles2(
    center_c: Vector2D,
    c_rad: i64,
    polygon_center: Vector2D,
    vertices: &Vec<Vector2D>,
) -> (r: (bool, Vector2D, i64))
    requires
        1 <= vertices@.len() < 0x7fffffff,
    ensures
        spec_pc_result(center_c, c_rad as int, polygon_center, vertices@, false, r),
{
    let lv: usize = vertices.len();
    let mut normal: Vector2D = vec_zero();
    let mut depth: i64 = 0;
    let ghost mut best_k: int = 0;
    let mut i: usize = 0;
    while i < lv
        invariant
            0 <= i <= lv,
            lv == vertices@.len(),
            forall|k: int| 0 <= k < i
                ==> !spec_separated_pc(#[trigger] spec_pc_axis(vertices@, center_c, k),
                    vertices@, center_c, c_rad as int),
            i > 0 ==> {
                &&& 0 <= best_k < i
                &&& depth == spec_axis_depth_pc(
                    spec_pc_axis(vertices@, center_c, best_k), vertices@, center_c, c_rad as int)
                &&& normal == spec_pc_axis(vertices@, center_c, best_k)
                &&& forall|k: int| 0 <= k < i
                    ==> spec_axis_depth_pc(#[trigger] spec_pc_axis(vertices@, center_c, k),
                        vertices@, center_c, c_rad as int) >= depth
            },
        decreases lv - i,
    {
        let va: Vector2D = vertices[i];
        let vb: Vector2D = vertices[(i + 1) % lv];
        let edge: Vector2D = mn(vb, va);
        let axis: Vector2D = Vector2D { x: crate::fxp::fx_neg(edge.y), y: edge.x }.normalize();
        proof {
            assert(axis == spec_pc_axis(vertices@, center_c, i as int));
        }
        let range_a: (i64, i64) = project_vertices(vertices, axis);
        let range_b: (i64, i64) = project_circle(center_c, c_rad, axis);
        if range_a.0 >= range_b.1 || range_b.0 >= range_a.1 {
            return (false, normal, depth);
        }
        let axis_depth: i64 = min(fx_sub(range_b.1, range_a.0), fx_sub(range_a.1, range_b.0));
        if i == 0 || axis_depth < depth {
            depth = axis_depth;
            normal = axis;
            proof {
                best_k = i as int;
            }
        }
        i += 1;
    }
    let cp_index: i32 = closest_point(center_c, vertices);
    let cp: Vector2D = vertices[cp_index as usize];
    let axis: Vector2D = mn(cp, center_c).normalize();
    proof {
        assert(axis == spec_pc_axis(vertices@, center_c, lv as int));
    }
    let range_a: (i64, i64) = project_vertices(vertices, axis);
    let range_b: (i64, i64) = project_circle(center_c, c_rad, axis);
    if range_a.0 >= range_b.1 || range_b.0 >= range_a.1 {
        return (false, normal, depth);
    }
    let axis_depth: i64 = min(fx_sub(range_b.1, range_a.0), fx_sub(range_a.1, range_b.0));
    if axis_depth < depth {
        depth = axis_depth;
        normal = axis;
        proof {
            best_k = lv as int;
        }
    }
    let direction: Vector2D = mn(polygon_center, center_c);
    if direction.dot(normal) < 0 {
        normal = dot_s(normal, -SCALE);
    }
    (true, normal, depth)
}

/// The separating-axis test for a circle against a convex polygon, with
/// the polygon's center taken as its vertex mean.
pub fn intersect_polygon_circles(center_c: Vector2D, c_rad: i64, vertices: &Vec<Vector2D>)
    -> (r: (bool, Vector2D, i64))
    requires
        1 <= vertices@.len() <= 1_000_000_000,
    ensures
        spec_pc_result(center_c, c_rad as int, spec_mean(vertices@), vertices@, false, r),
{
    let polygon_center: Vector2D = find_arithmetic_mean(vertices);
    intersect_polygon_circles2(center_c, c_rad, polygon_center, vertices)
}

/// Two bodies equal except for the world-vertex cache and its flag.
pub open spec fn body_eq_mod_tfv(a: crate::body::RigidBody, b: crate::body::RigidBody) -> bool {
    b == crate::body::RigidBody {
        transformed_vertices: b.transformed_vertices,
        tfv_required: b.tfv_required,
        ..a
    }
}

/// The exact contract of the shape dispatch: each shape pairing hands the
/// pair to its separating-axis test, with the normal always oriented from
/// the first body toward the second.
pub open spec fn spec_collide_result(
    a: crate::body::RigidBody, b: crate::body::RigidBody, r: (bool, Vector2D, i64),
) -> bool {
    let tfv_a = crate::body::spec_tfv(a.vertices@, a.position, a.angle as int);
    let tfv_b = crate::body::spec_tfv(b.vertices@, b.position, b.angle as int);
    if a.shape is Box && b.shape is Box {
        spec_pp_result(a.position, tfv_a, b.position, tfv_b, r)
    } else if a.shape is Box && b.shape is Circle {
        spec_pc_result(b.position, b.radius as int, a.position, tfv_a, true, r)
    } else if a.shape is Circle && b.shape is Box {
        spec_pc_result(a.position, a.radius as int, b.position, tfv_b, false, r)
    } else {
        &&& r.0 == spec_circles_collide(a.position, a.radius as int, b.position, b.radius as int)
        &&& !r.0 ==> r.1 == (Vector2D { x: 0i64, y: 0i64 }) && r.2 == 0
        &&& r.0 ==> r.2 == spec_circles_depth(a.position, a.radius as int, b.position,
            b.radius as int)
        &&& r.0 && spec_dist(a.position, b.position) > 0
            ==> r.1 == spec_normalize(spec_mn(b.position, a.position))
        &&& r.0 && spec_dist(a.position, b.position) == 0
            ==> -SCALE <= r.1.x <= SCALE && -SCALE <= r.1.y <= SCALE
                && SCALE / 4 <= crate::vec2::spec_len_sq(r.1) <= 2 * SCALE
    }
}

/// Detects a collision between two bodies of the arena, refreshing their
/// world-vertex caches, and answers whether they collide with the normal
/// from the first toward the second and the penetration depth.
pub fn collide(bodylist: &mut Vec<crate::body::RigidBody>, idx_a: usize, idx_b: usize)
    -> (r: (bool, Vector2D, i64))
    requires
        idx_a < old(bodylist)@.len(),
        idx_b < old(bodylist)@.len(),
        idx_a != idx_b,
        old(bodylist)@[idx_a as int].wf(),
        old(bodylist)@[idx_b as int].wf(),
    ensures
        final(bodylist)@.len() == old(bodylist)@.len(),
        forall|i: int| 0 <= i < old(bodylist)@.len() && i != idx_a && i != idx_b
            ==> final(bodylist)@[i] == old(bodylist)@[i],
        body_eq_mod_tfv(old(bodylist)@[idx_a as int], final(bodylist)@[idx_a as int]),
        body_eq_mod_tfv(old(bodylist)@[idx_b as int], final(bodylist)@[idx_b as int]),
        final(bodylist)@[idx_a as int].wf(),
        final(bodylist)@[idx_b as int].wf(),
        spec_collide_result(old(bodylist)@[idx_a as int], old(bodylist)@[idx_b as int], r),
{
    let mut body_a: crate::body::RigidBody = bodylist.remove(idx_a);
    let body_a_tfv: Vec<Vector2D> = body_a.get_tfv();
    let body_a_p: Vector2D = body_a.position;
    let shape_a: crate::body::ShapeType = body_a.shape;
    let rad_a: i64 = body_a.radius;
    bodylist.insert(idx_a, body_a);

    let mut body_b: crate::body::RigidBody = bodylist.remove(idx_b);
    let body_b_tfv: Vec<Vector2D> = body_b.get_tfv();
    let body_b_p: Vector2D = body_b.position;
    let shape_b: crate::body::ShapeType = body_b.shape;
    let rad_b: i64 = body_b.radius;
    bodylist.insert(idx_b, body_b);

    match shape_a {
        crate::body::ShapeType::Box => {
            match shape_b {
                crate::body::ShapeType::Box => {
                    intersect_polygon2(body_a_p, &body_a_tfv, body_b_p, &body_b_tfv)
                },
                crate::body::ShapeType::Circle => {
                    let res: (bool, Vector2D, i64) =
                        intersect_polygon_circles2(body_b_p, rad_b, body_a_p, &body_a_tfv);
                    (res.0, dot_s(res.1, -SCALE), res.2)
                },
            }
        },
        crate::body::ShapeType::Circle => {
            match shape_b {
                crate::body::ShapeType::Box => {
                    intersect_polygon_circles2(body_a_p, rad_a, body_b_p, &body_b_tfv)
                },
                crate::body::ShapeType::Circle => {
                    intersect_circles(body_a_p, rad_a, body_b_p, rad_b)
                },
            }
        },
    }
}

/// Law: two circles collide exactly when the distance between their
/// centers is under the sum of their radii, and the penetration depth of
/// a collision is exactly that sum less the distance, never negative.
pub proof fn lemma_circle_collision_exact(ca: Vector2D, ra: int, cb: Vector2D, rb: int)
    ensures
        spec_circles_collide(ca, ra, cb, rb) <==> spec_dist(ca, cb) < fx_add_s(ra, rb),
        spec_circles_collide(ca, ra, cb, rb)
            ==> spec_circles_depth(ca, ra, cb, rb)
                == fx_add_s(ra, rb) - spec_dist(ca, cb)
                && spec_circles_depth(ca, ra, cb, rb) > 0,
{
    crate::vec2::lemma_len_sq_nonneg(spec_mn(ca, cb));
    crate::fxp::lemma_sqrt_exists(spec_dist_sq(ca, cb) * (SCALE as int));
    if spec_circles_collide(ca, ra, cb, rb) {
        let d = spec_dist(ca, cb);
        let radii = fx_add_s(ra, rb);
        assert(d >= 0);
        assert(i64::MIN <= radii - d <= i64::MAX);
    }
}

} // verus!
