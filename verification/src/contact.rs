//! Contact manifolds and contact-point generation.

use vstd::prelude::*;
use crate::fxp::{fx_sub_s, fx_div_s, sabs};
use crate::vec2::{
    Vector2D, mn, sm, dot_s, vec_zero, nearly_eq, spec_mn, spec_sm, spec_scale, spec_dot,
    spec_dist_sq, spec_len_sq, spec_normalize, VERY_SMALL_AMOUNT,
};

verus! {

/// One resolved collision: the pair of body indices, the unit-ish normal
/// pointing from the first body to the second, the penetration depth, and
/// up to two world-space contact points. Built fresh every substep.
#[derive(Clone, Copy, PartialEq, Eq, Structural, Debug)]
pub struct ManiFold {
    pub body_a: usize,
    pub body_b: usize,
    pub normal: Vector2D,
    pub depth: i64,
    pub contact1: Vector2D,
    pub contact2: Vector2D,
    pub contact_count: i32,
}

/// Builds a manifold from its parts.
pub fn init_manifold(
    body_1: usize,
    body_2: usize,
    norm: Vector2D,
    depths: i64,
    contact_a: Vector2D,
    contact_b: Vector2D,
    nb_contact: i32,
) -> (r: ManiFold)
    ensures
        r == (ManiFold {
            body_a: body_1,
            body_b: body_2,
            normal: norm,
            depth: depths,
            contact1: contact_a,
            contact2: contact_b,
            contact_count: nb_contact,
        }),
{
    ManiFold {
        body_a: body_1,
        body_b: body_2,
        normal: norm,
        depth: depths,
        contact1: contact_a,
        contact2: contact_b,
        contact_count: nb_contact,
    }
}

/// Whether two scalars are within the dedup tolerance of each other.
pub open spec fn spec_nearly(a: int, b: int) -> bool {
    sabs(fx_sub_s(a, b)) < VERY_SMALL_AMOUNT
}

/// Whether two points are within the dedup tolerance of each other.
pub open spec fn spec_nearly_vec(a: Vector2D, b: Vector2D) -> bool {
    spec_nearly(a.x as int, b.x as int) && spec_nearly(a.y as int, b.y as int)
}

/// The point of a segment nearest a point, in specifications: the
/// projection parameter clamped to the segment; a degenerate segment
/// answers its first endpoint.
pub open spec fn spec_closest_on_segment(p: Vector2D, a: Vector2D, b: Vector2D) -> Vector2D {
    let ab = spec_mn(b, a);
    let lsq = spec_len_sq(ab);
    if lsq == 0 {
        a
    } else {
        let d = fx_div_s(spec_dot(spec_mn(p, a), ab), lsq);
        if d <= 0 {
            a
        } else if d >= crate::fxp::SCALE {
            b
        } else {
            spec_sm(a, spec_scale(ab, d))
        }
    }
}

/// The squared distance from a point to a segment together with the
/// nearest point, in specifications.
pub open spec fn spec_point_segment(p: Vector2D, a: Vector2D, b: Vector2D) -> (int, Vector2D) {
    let cp = spec_closest_on_segment(p, a, b);
    (spec_dist_sq(p, cp), cp)
}

/// The squared distance from a point to a segment, and the point of the
/// segment nearest it.
pub fn point_segment_distance(p: Vector2D, a: Vector2D, b: Vector2D) -> (r: (i64, Vector2D))
    ensures
        r.0 == spec_point_segment(p, a, b).0,
        r.1 == spec_point_segment(p, a, b).1,
{
    let ab: Vector2D = mn(b, a);
    let ap: Vector2D = mn(p, a);
    let lsq: i64 = ab.len_sq();
    let cp: Vector2D = if lsq == 0 {
        a
    } else {
        let proj: i64 = ap.dot(ab);
        let d: i64 = crate::fxp::fx_div(proj, lsq);
        if d <= 0 {
            a
        } else if d >= crate::fxp::SCALE {
            b
        } else {
            sm(a, dot_s(ab, d))
        }
    };
    (p.dist_sq(cp), cp)
}

/// The single contact point of two colliding circles, in specifications:
/// the point of the first circle's boundary toward the second center.
pub open spec fn spec_contact_cc(ca: Vector2D, ra: int, cb: Vector2D) -> Vector2D {
    spec_sm(ca, spec_scale(spec_normalize(spec_mn(cb, ca)), ra))
}

/// The contact point of two colliding circles.
pub fn find_contact_point_cc(center_a: Vector2D, rad_a: i64, center_b: Vector2D)
    -> (r: Vector2D)
    ensures
        r == spec_contact_cc(center_a, rad_a as int, center_b),
{
    let dir: Vector2D = mn(center_b, center_a).normalize();
    sm(center_a, dot_s(dir, rad_a))
}

/// The running nearest point over the polygon's first `n` edges to a
/// center, in specifications: the squared distance and the point.
pub open spec fn spec_contact_cb_scan(center: Vector2D, vs: Seq<Vector2D>, n: int)
    -> (int, Vector2D)
    decreases n,
{
    if n <= 0 {
        (i64::MAX as int, Vector2D { x: 0i64, y: 0i64 })
    } else {
        let prev = spec_contact_cb_scan(center, vs, n - 1);
        let cand = spec_point_segment(center, vs[n - 1], vs[n % (vs.len() as int)]);
        if cand.0 < prev.0 { cand } else { prev }
    }
}

/// The contact point of a circle against a polygon: the point of the
/// polygon's boundary nearest the circle center.
pub fn find_contact_point_cb(
    center_c: Vector2D,
    rad_c: i64,
    center_b: Vector2D,
    vertices: &Vec<Vector2D>,
) -> (r: Vector2D)
    requires
        vertices@.len() >= 1,
    ensures
        r == spec_contact_cb_scan(center_c, vertices@, vertices@.len() as int).1,
{
    let l: usize = vertices.len();
    let mut cp: Vector2D = vec_zero();
    let mut min_dsq: i64 = i64::MAX;
    let mut i: usize = 0;
    while i < l
        invariant
            i <= l,
            l == vertices@.len(),
            min_dsq == spec_contact_cb_scan(center_c, vertices@, i as int).0,
            cp == spec_contact_cb_scan(center_c, vertices@, i as int).1,
        decreases l - i,
    {
        let va: Vector2D = vertices[i];
        let vb: Vector2D = vertices[(i + 1) % l];
        let cand: (i64, Vector2D) = point_segment_distance(center_c, va, vb);
        if cand.0 < min_dsq {
            min_dsq = cand.0;
            cp = cand.1;
        }
        i += 1;
    }
    cp
}

/// The accumulator of the polygon-polygon contact scan: the running least
/// squared distance, the two contact points kept so far, and their count.
pub struct BbScanState {
    /// The least squared distance seen so far.
    pub min_dsq: int,
    /// The contact point achieving it.
    pub c1: Vector2D,
    /// A second point at nearly the same distance, when one was kept.
    pub c2: Vector2D,
    /// How many contact points are held: zero, one or two.
    pub cn: int,
}

/// One step of the contact scan: a candidate at nearly the least distance
/// that is not a duplicate becomes the second point; a strictly nearer
/// candidate restarts the manifold with itself alone.
pub open spec fn bb_step(st: BbScanState, cand: (int, Vector2D)) -> BbScanState {
    if spec_nearly(cand.0, st.min_dsq) {
        if !spec_nearly_vec(cand.1, st.c1) {
            BbScanState { c2: cand.1, cn: 2, ..st }
        } else {
            st
        }
    } else if cand.0 < st.min_dsq {
        BbScanState { min_dsq: cand.0, c1: cand.1, c2: st.c2, cn: 1 }
    } else {
        st
    }
}

/// The scan of one point against the polygon's first `j` edges.
pub open spec fn bb_scan_row(st: BbScanState, p: Vector2D, edges: Seq<Vector2D>, j: int)
    -> BbScanState
    decreases j,
{
    if j <= 0 {
        st
    } else {
        bb_step(
            bb_scan_row(st, p, edges, j - 1),
            spec_point_segment(p, edges[j - 1], edges[j % (edges.len() as int)]),
        )
    }
}

/// The scan of the first `i` points against all of the polygon's edges.
pub open spec fn bb_scan_pts(st: BbScanState, pts: Seq<Vector2D>, edges: Seq<Vector2D>, i: int)
    -> BbScanState
    decreases i,
{
    if i <= 0 {
        st
    } else {
        bb_scan_row(bb_scan_pts(st, pts, edges, i - 1), pts[i - 1], edges, edges.len() as int)
    }
}

/// The start state of the contact scan.
pub open spec fn bb_scan_init() -> BbScanState {
    BbScanState {
        min_dsq: i64::MAX as int,
        c1: Vector2D { x: 0i64, y: 0i64 },
        c2: Vector2D { x: 0i64, y: 0i64 },
        cn: 0,
    }
}

/// The full contact scan of two polygons, in specifications: every vertex
/// of the first against every edge of the second, then the reverse.
pub open spec fn spec_contact_bb(va: Seq<Vector2D>, vb: Seq<Vector2D>) -> BbScanState {
    bb_scan_pts(bb_scan_pts(bb_scan_init(), va, vb, va.len() as int), vb, va, vb.len() as int)
}

/// The one or two contact points of two colliding polygons: the nearest
/// vertex-to-edge points over both polygons, a second kept only when its
/// distance nearly equals the first and it is not a duplicate point.
pub fn find_contact_point_bb(vertices_a: &Vec<Vector2D>, vertices_b: &Vec<Vector2D>)
    -> (r: (Vector2D, Vector2D, i32))
    requires
        vertices_a@.len() >= 1,
        vertices_b@.len() >= 1,
    ensures
        ({
            let st = spec_contact_bb(vertices_a@, vertices_b@);
            r.0 == st.c1 && r.1 == st.c2 && r.2 == st.cn
        }),
{
    let mut min_dsq: i64 = i64::MAX;
    let mut c1: Vector2D = vec_zero();
    let mut c2: Vector2D = vec_zero();
    let mut cn: i32 = 0;
    let l_a: usize = vertices_a.len();
    let l_b: usize = vertices_b.len();
    let ghost st0 = bb_scan_init();
    let mut i: usize = 0;
    while i < l_a
        invariant
            i <= l_a,
            l_a == vertices_a@.len() >= 1,
            l_b == vertices_b@.len() >= 1,
            ({
                let st = bb_scan_pts(st0, vertices_a@, vertices_b@, i as int);
                min_dsq == st.min_dsq && c1 == st.c1 && c2 == st.c2 && cn == st.cn
            }),
            st0 == bb_scan_init(),
        decreases l_a - i,
    {
        let p: Vector2D = vertices_a[i];
        let ghost row0 = bb_scan_pts(st0, vertices_a@, vertices_b@, i as int);
        let mut j: usize = 0;
        while j < l_b
            invariant
                j <= l_b,
                i < l_a,
                l_a == vertices_a@.len() >= 1,
                l_b == vertices_b@.len() >= 1,
                p == vertices_a@[i as int],
                ({
                    let st = bb_scan_row(row0, p, vertices_b@, j as int);
                    min_dsq == st.min_dsq && c1 == st.c1 && c2 == st.c2 && cn == st.cn
                }),
            decreases l_b - j,
        {
            let va: Vector2D = vertices_b[j];
            let vb: Vector2D = vertices_b[(j + 1) % l_b];
            let cand: (i64, Vector2D) = point_segment_distance(p, va, vb);
            if nearly_eq(cand.0, min_dsq) {
                if !cand.1.nearly_equal(c1) {
                    c2 = cand.1;
                    cn = 2;
                }
            } else if cand.0 < min_dsq {
                min_dsq = cand.0;
                cn = 1;
                c1 = cand.1;
            }
            j += 1;
        }
        i += 1;
    }
    let ghost phase1 = bb_scan_pts(st0, vertices_a@, vertices_b@, l_a as int);
    let mut i2: usize = 0;
    while i2 < l_b
        invariant
            i2 <= l_b,
            l_a == vertices_a@.len() >= 1,
            l_b == vertices_b@.len() >= 1,
            phase1 == bb_scan_pts(bb_scan_init(), vertices_a@, vertices_b@, l_a as int),
            ({
                let st = bb_scan_pts(phase1, vertices_b@, vertices_a@, i2 as int);
                min_dsq == st.min_dsq && c1 == st.c1 && c2 == st.c2 && cn == st.cn
            }),
        decreases l_b - i2,
    {
        let p: Vector2D = vertices_b[i2];
        let ghost row0 = bb_scan_pts(phase1, vertices_b@, vertices_a@, i2 as int);
        let mut j: usize = 0;
        while j < l_a
            invariant
                j <= l_a,
                i2 < l_b,
                l_a == vertices_a@.len() >= 1,
                l_b == vertices_b@.len() >= 1,
                p == vertices_b@[i2 as int],
                ({
                    let st = bb_scan_row(row0, p, vertices_a@, j as int);
                    min_dsq == st.min_dsq && c1 == st.c1 && c2 == st.c2 && cn == st.cn
                }),
            decreases l_a - j,
        {
            let va: Vector2D = vertices_a[j];
            let vb: Vector2D = vertices_a[(j + 1) % l_a];
            let cand: (i64, Vector2D) = point_segment_distance(p, va, vb);
            if nearly_eq(cand.0, min_dsq) {
                if !cand.1.nearly_equal(c1) {
                    c2 = cand.1;
                    cn = 2;
                }
            } else if cand.0 < min_dsq {
                min_dsq = cand.0;
                cn = 1;
                c1 = cand.1;
            }
            j += 1;
        }
        i2 += 1;
    }
    (c1, c2, cn)
}

/// The exact contract of the contact dispatch: the polygon pair takes the
/// two-point scan; every pairing with a circle takes a single contact
/// point on the circle's side of the other shape.
pub open spec fn spec_contacts_result(
    a: crate::body::RigidBody, b: crate::body::RigidBody, r: (Vector2D, Vector2D, i32),
) -> bool {
    let tfv_a = crate::body::spec_tfv(a.vertices@, a.position, a.angle as int);
    let tfv_b = crate::body::spec_tfv(b.vertices@, b.position, b.angle as int);
    if a.shape is Box && b.shape is Box {
        let st = spec_contact_bb(tfv_a, tfv_b);
        r.0 == st.c1 && r.1 == st.c2 && r.2 == st.cn
    } else if a.shape is Box && b.shape is Circle {
        r.0 == spec_contact_cb_scan(b.position, tfv_a, tfv_a.len() as int).1 && r.2 == 1
    } else if a.shape is Circle && b.shape is Box {
        r.0 == spec_contact_cb_scan(a.position, tfv_b, tfv_b.len() as int).1 && r.2 == 1
    } else {
        r.0 == spec_contact_cc(a.position, a.radius as int, b.position) && r.2 == 1
    }
}

/// Computes the contact points of a colliding pair of the arena,
/// refreshing their world-vertex caches.
pub fn find_contact_points(body_s: &mut Vec<crate::body::RigidBody>, idx_a: usize, idx_b: usize)
    -> (r: (Vector2D, Vector2D, i32))
    requires
        idx_a < old(body_s)@.len(),
        idx_b < old(body_s)@.len(),
        idx_a != idx_b,
        old(body_s)@[idx_a as int].wf(),
        old(body_s)@[idx_b as int].wf(),
    ensures
        final(body_s)@.len() == old(body_s)@.len(),
        forall|i: int| 0 <= i < old(body_s)@.len() && i != idx_a && i != idx_b
            ==> final(body_s)@[i] == old(body_s)@[i],
        crate::collisions::body_eq_mod_tfv(
            old(body_s)@[idx_a as int], final(body_s)@[idx_a as int]),
        crate::collisions::body_eq_mod_tfv(
            old(body_s)@[idx_b as int], final(body_s)@[idx_b as int]),
        final(body_s)@[idx_a as int].wf(),
        final(body_s)@[idx_b as int].wf(),
        spec_contacts_result(old(body_s)@[idx_a as int], old(body_s)@[idx_b as int], r),
{
    let mut body_a: crate::body::RigidBody = body_s.remove(idx_a);
    let body_a_tfv: Vec<Vector2D> = body_a.get_tfv();
    let body_a_p: Vector2D = body_a.position;
    let shape_a: crate::body::ShapeType = body_a.shape;
    let rad_a: i64 = body_a.radius;
    body_s.insert(idx_a, body_a);

    let mut body_b: crate::body::RigidBody = body_s.remove(idx_b);
    let body_b_tfv: Vec<Vector2D> = body_b.get_tfv();
    let body_b_p: Vector2D = body_b.position;
    let shape_b: crate::body::ShapeType = body_b.shape;
    let rad_b: i64 = body_b.radius;
    body_s.insert(idx_b, body_b);

    match shape_a {
        crate::body::ShapeType::Box => {
            match shape_b {
                crate::body::ShapeType::Box => {
                    find_contact_point_bb(&body_a_tfv, &body_b_tfv)
                },
                crate::body::ShapeType::Circle => {
                    let c1: Vector2D =
                        find_contact_point_cb(body_b_p, rad_b, body_a_p, &body_a_tfv);
                    (c1, vec_zero(), 1)
                },
            }
        },
        crate::body::ShapeType::Circle => {
            match shape_b {
                crate::body::ShapeType::Box => {
                    let c1: Vector2D =
                        find_contact_point_cb(body_a_p, rad_a, body_b_p, &body_b_tfv);
                    (c1, vec_zero(), 1)
                },
                crate::body::ShapeType::Circle => {
                    let c1: Vector2D = find_contact_point_cc(body_a_p, rad_a, body_b_p);
                    (c1, vec_zero(), 1)
                },
            }
        },
    }
}

impl ManiFold {
    /// The index of the first body.
    pub fn get_body_a(&self) -> (r: usize)
        ensures
            r == self.body_a,
    {
        self.body_a
    }

    /// The index of the second body.
    pub fn get_body_b(&self) -> (r: usize)
        ensures
            r == self.body_b,
    {
        self.body_b
    }

    /// The collision normal.
    pub fn get_normal(&self) -> (r: Vector2D)
        ensures
            r == self.normal,
    {
        self.normal
    }

    /// The penetration depth.
    pub fn get_depth(&self) -> (r: i64)
        ensures
            r == self.depth,
    {
        self.depth
    }

    /// The first contact point.
    pub fn get_contact1(&self) -> (r: Vector2D)
        ensures
            r == self.contact1,
    {
        self.contact1
    }

    /// The second contact point.
    pub fn get_contact2(&self) -> (r: Vector2D)
        ensures
            r == self.contact2,
    {
        self.contact2
    }

    /// How many contact points the manifold holds.
    pub fn get_contact_count(&self) -> (r: i32)
        ensures
            r == self.contact_count,
    {
        self.contact_count
    }
}

impl ManiFold {
    /// Overwrites the collision normal.
    pub fn set_normal(&mut self, normal: Vector2D)
        ensures
            *final(self) == (ManiFold { normal, ..*old(self) }),
    {
        self.normal = normal;
    }

    /// Overwrites the penetration depth.
    pub fn set_depth(&mut self, depth: i64)
        ensures
            *final(self) == (ManiFold { depth, ..*old(self) }),
    {
        self.depth = depth;
    }

    /// Overwrites the first contact point.
    pub fn set_contact1(&mut self, contact1: Vector2D)
        ensures
            *final(self) == (ManiFold { contact1, ..*old(self) }),
    {
        self.contact1 = contact1;
    }

    /// Overwrites the second contact point.
    pub fn set_contact2(&mut self, contact2: Vector2D)
        ensures
            *final(self) == (ManiFold { contact2, ..*old(self) }),
    {
        self.contact2 = contact2;
    }

    /// Overwrites the contact count.
    pub fn set_contact_count(&mut self, contact_count: i32)
        ensures
            *final(self) == (ManiFold { contact_count, ..*old(self) }),
    {
        self.contact_count = contact_count;
    }
}

} // verus!
