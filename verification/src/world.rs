//! The rigid-body world: an arena owning the bodies, gravity, substep
//! bounds, and the transient contact state of the current step.

use vstd::prelude::*;
use crate::fxp::{fx_div_s, clamp_s, SCALE};
use crate::vec2::{Vector2D, spec_sm, spec_scale};
use crate::body::RigidBody;
use crate::contact::ManiFold;

verus! {

/// The rigid-body world. Bodies are owned by the arena and referred to by
/// index everywhere else.
#[derive(Debug)]
pub struct WorkSpace {
    /// Smallest admissible body area.
    pub mn_bs: i64,
    /// Largest admissible body area.
    pub mx_bs: i64,
    /// Smallest admissible density.
    pub mn_d: i64,
    /// Largest admissible density.
    pub mx_d: i64,
    /// Fewest substeps per step.
    pub min_iter: i32,
    /// Most substeps per step.
    pub max_iter: i32,
    /// The body arena.
    pub body_list: Vec<RigidBody>,
    /// The gravity acceleration applied to every dynamic body.
    pub gravity: Vector2D,
    /// The number of bodies in the arena.
    pub body_count: usize,
    /// The manifolds of the current substep; rebuilt every substep.
    pub contact_list: Vec<ManiFold>,
    /// The broad-phase survivors of the current substep.
    pub contact_pair: Vec<(usize, usize)>,
}

impl WorkSpace {
    /// Well-formedness: the substep bounds form a nonempty range, the body
    /// count matches the arena, every body is well-formed, and each body's
    /// index field is its arena position.
    pub open spec fn wf(self) -> bool {
        &&& 1 <= self.min_iter <= self.max_iter
        &&& self.body_count == self.body_list.len()
        &&& self.body_list.len() < 0x7fffffff
        &&& forall|i: int| 0 <= i < self.body_list.len()
            ==> (#[trigger] self.body_list[i]).wf()
        &&& forall|i: int| 0 <= i < self.body_list.len()
            ==> (#[trigger] self.body_list[i]).index == i
    }

    /// An empty world with the default bounds and earth-like gravity.
    pub fn new() -> (r: WorkSpace)
        ensures
            r.wf(),
            r.body_list.len() == 0,
            r.gravity == (Vector2D { x: 0i64, y: 9_810_000_000i64 }),
            r.min_iter == 1i32,
            r.max_iter == 128i32,
    {
        WorkSpace {
            mn_bs: 100_000,
            mx_bs: 4_096_000_000_000,
            mn_d: 500_000_000,
            mx_d: 21_400_000_000,
            min_iter: 1,
            max_iter: 128,
            body_list: Vec::new(),
            gravity: Vector2D { x: 0, y: 9_810_000_000 },
            body_count: 0,
            contact_list: Vec::new(),
            contact_pair: Vec::new(),
        }
    }

    /// Appends a body to the arena, stamping it with its index.
    pub fn add_body(&mut self, body: RigidBody)
        requires
            old(self).wf(),
            body.wf(),
            old(self).body_list.len() < 0x7ffffffe,
        ensures
            final(self).wf(),
            final(self).body_list.len() == old(self).body_list.len() + 1,
            final(self).body_list@.subrange(0, old(self).body_list.len() as int)
                == old(self).body_list@,
            final(self).body_list@.last() == (RigidBody {
                index: old(self).body_count as i32,
                ..body
            }),
            *final(self) == (WorkSpace {
                body_list: final(self).body_list,
                body_count: (old(self).body_count + 1) as usize,
                ..*old(self)
            }),
    {
        let mut stamped: RigidBody = body;
        stamped.index = self.body_count as i32;
        self.body_list.push(stamped);
        self.body_count = self.body_count + 1;
        proof {
            assert(final(self).body_list@.subrange(0, old(self).body_list.len() as int)
                =~= old(self).body_list@);
        }
    }

    /// Removes the body at an index, shifting and re-stamping the bodies
    /// after it; answers whether the index named a body.
    pub fn remove_body(&mut self, index: usize) -> (r: bool)
        requires
            old(self).wf(),
        ensures
            final(self).wf(),
            r == (index < old(self).body_count),
            !r ==> *final(self) == *old(self),
            r ==> {
                &&& final(self).body_count == old(self).body_count - 1
                &&& final(self).body_list.len() == old(self).body_list.len() - 1
                &&& forall|i: int| 0 <= i < index
                    ==> final(self).body_list[i] == old(self).body_list[i]
                &&& forall|i: int| index <= i < final(self).body_list.len()
                    ==> final(self).body_list[i] == (RigidBody {
                        index: (old(self).body_list[i + 1].index - 1) as i32,
                        ..old(self).body_list[i + 1]
                    })
            },
    {
        if self.body_count <= index {
            return false;
        }
        let mut i: usize = index + 1;
        while i < self.body_count
            invariant
                index + 1 <= i <= old(self).body_count,
                old(self).wf(),
                self.body_count == old(self).body_count,
                self.body_list.len() == old(self).body_list.len(),
                *self == (WorkSpace { body_list: self.body_list, ..*old(self) }),
                forall|j: int| 0 <= j <= index ==> self.body_list[j] == old(self).body_list[j],
                forall|j: int| index < j < i ==> self.body_list[j] == (RigidBody {
                    index: (old(self).body_list[j].index - 1) as i32,
                    ..old(self).body_list[j]
                }),
                forall|j: int| i <= j < self.body_list.len()
                    ==> self.body_list[j] == old(self).body_list[j],
            decreases self.body_count - i,
    {
            let mut b: RigidBody = self.body_list.remove(i);
            proof {
                assert(b.index == i);
            }
            b.index = b.index - 1;
            self.body_list.insert(i, b);
            i += 1;
        }
        self.body_count = self.body_count - 1;
        let _removed: RigidBody = self.body_list.remove(index);
        true
    }

    /// A borrow of the body at an index, with whether the index was valid;
    /// an out-of-range index answers the first body.
    pub fn get_body(&self, id: usize) -> (r: (bool, &RigidBody))
        requires
            self.body_list.len() > 0,
        ensures
            r.0 == (id < self.body_list.len()),
            r.0 ==> *r.1 == self.body_list[id as int],
            !r.0 ==> *r.1 == self.body_list[0],
    {
        if id < self.body_list.len() {
            (true, &self.body_list[id])
        } else {
            (false, &self.body_list[0])
        }
    }

    /// Two bodies equal except for their vertex and bounding-box caches.
    pub open spec fn body_eq_mod_cache(a: RigidBody, b: RigidBody) -> bool {
        b == (RigidBody {
            transformed_vertices: b.transformed_vertices,
            tfv_required: b.tfv_required,
            aabb: b.aabb,
            aabb_update: b.aabb_update,
            ..a
        })
    }

    /// Whether an unordered pair of bodies survives the broad phase: not
    /// both static, and their bounding boxes overlap.
    pub open spec fn spec_pair_passes(bodies: Seq<RigidBody>, i: int, j: int) -> bool {
        &&& !(bodies[i].is_static && bodies[j].is_static)
        &&& crate::aabb::spec_intersect_aabbs(
            crate::body::spec_body_aabb(bodies[i]), crate::body::spec_body_aabb(bodies[j]))
    }

    /// Whether every stored contact pair is an ordered pair of distinct
    /// arena indices that passed the broad phase.
    pub open spec fn pairs_ok(self) -> bool {
        forall|k: int| 0 <= k < self.contact_pair@.len() ==> {
            let pr = #[trigger] self.contact_pair@[k];
            &&& pr.0 < pr.1 < self.body_list@.len()
            &&& !(self.body_list@[pr.0 as int].is_static && self.body_list@[pr.1 as int].is_static)
        }
    }

    /// The pairs of one broad-phase row: body `i` against bodies `j` and
    /// beyond, keeping the passing ones in scan order.
    pub open spec fn spec_pairs_row(bodies: Seq<RigidBody>, i: int, j: int) -> Seq<(usize, usize)>
        decreases bodies.len() - j,
    {
        let n = bodies.len() as int;
        if j < 0 || j >= n {
            Seq::empty()
        } else {
            let rest = Self::spec_pairs_row(bodies, i, j + 1);
            if Self::spec_pair_passes(bodies, i, j) {
                seq![(i as usize, j as usize)] + rest
            } else {
                rest
            }
        }
    }

    /// The full broad-phase pair list from row `i` onward: every unordered
    /// pair in scan order, keeping the passing ones.
    pub open spec fn spec_pairs_all(bodies: Seq<RigidBody>, i: int) -> Seq<(usize, usize)>
        decreases bodies.len() - i,
    {
        let n = bodies.len() as int;
        if i < 0 || i >= n {
            Seq::empty()
        } else {
            Self::spec_pairs_row(bodies, i, i + 1) + Self::spec_pairs_all(bodies, i + 1)
        }
    }

    /// The broad phase: replaces the contact-pair list with exactly the
    /// unordered body pairs, in scan order, that are not both static and
    /// whose bounding boxes overlap. Only the bodies' caches are touched.
    pub fn broad_phase(&mut self)
        requires
            old(self).wf(),
        ensures
            final(self).wf(),
            final(self).pairs_ok(),
            final(self).body_list@.len() == old(self).body_list@.len(),
            *final(self) == (WorkSpace {
                body_list: final(self).body_list,
                contact_pair: final(self).contact_pair,
                ..*old(self)
            }),
            forall|i: int| 0 <= i < old(self).body_list@.len()
                ==> Self::body_eq_mod_cache(
                    old(self).body_list@[i], #[trigger] final(self).body_list@[i]),
            forall|k: int| 0 <= k < final(self).contact_pair@.len() ==> {
                let pr = #[trigger] final(self).contact_pair@[k];
                pr.0 < pr.1 < old(self).body_list@.len()
                    && Self::spec_pair_passes(old(self).body_list@, pr.0 as int, pr.1 as int)
            },
            forall|i: int, j: int| 0 <= i < j < old(self).body_list@.len()
                && Self::spec_pair_passes(old(self).body_list@, i, j)
                ==> final(self).contact_pair@.contains((i as usize, j as usize)),
            final(self).contact_pair@ == Self::spec_pairs_all(old(self).body_list@, 0),
    {
        self.contact_pair = Vec::new();
        let n: usize = self.body_list.len();
        let mut i: usize = 0;
        // refresh every bounding box first, so the pair scan reads them
        while i < n
            invariant
                i <= n,
                n == old(self).body_list@.len(),
                old(self).wf(),
                self.body_list@.len() == n,
                *self == (WorkSpace {
                    body_list: self.body_list,
                    contact_pair: self.contact_pair,
                    ..*old(self)
                }),
                self.contact_pair@.len() == 0,
                forall|x: int| 0 <= x < n
                    ==> Self::body_eq_mod_cache(
                        old(self).body_list@[x], #[trigger] self.body_list@[x]),
                forall|x: int| 0 <= x < n ==> (#[trigger] self.body_list@[x]).wf(),
                forall|x: int| 0 <= x < n ==> (#[trigger] self.body_list@[x]).index
                    == old(self).body_list@[x].index,
                forall|x: int| 0 <= x < i ==> (#[trigger] self.body_list@[x]).aabb
                    == crate::body::spec_body_aabb(old(self).body_list@[x]),
            decreases n - i,
        {
            let mut b: RigidBody = self.body_list.remove(i);
            let refreshed: crate::aabb::AABB = b.get_aabb();
            self.body_list.insert(i, b);
            proof {
                assert(crate::body::spec_body_aabb(self.body_list@[i as int])
                    == crate::body::spec_body_aabb(old(self).body_list@[i as int]));
            }
            i += 1;
        }
        let mut a_idx: usize = 0;
        while a_idx < n
            invariant
                a_idx <= n,
                n == old(self).body_list@.len(),
                old(self).wf(),
                self.body_list@.len() == n,
                *self == (WorkSpace {
                    body_list: self.body_list,
                    contact_pair: self.contact_pair,
                    ..*old(self)
                }),
                forall|x: int| 0 <= x < n
                    ==> Self::body_eq_mod_cache(
                        old(self).body_list@[x], #[trigger] self.body_list@[x]),
                forall|x: int| 0 <= x < n ==> (#[trigger] self.body_list@[x]).wf(),
                forall|x: int| 0 <= x < n ==> (#[trigger] self.body_list@[x]).index
                    == old(self).body_list@[x].index,
                forall|x: int| 0 <= x < n ==> (#[trigger] self.body_list@[x]).aabb
                    == crate::body::spec_body_aabb(old(self).body_list@[x]),
                forall|k: int| 0 <= k < self.contact_pair@.len() ==> {
                    let pr = #[trigger] self.contact_pair@[k];
                    pr.0 < pr.1 < n
                        && Self::spec_pair_passes(old(self).body_list@, pr.0 as int, pr.1 as int)
                },
                forall|x: int, y: int| 0 <= x < y < n && x < a_idx
                    && Self::spec_pair_passes(old(self).body_list@, x, y)
                    ==> self.contact_pair@.contains((x as usize, y as usize)),
                Self::spec_pairs_all(old(self).body_list@, 0)
                    == self.contact_pair@
                        + Self::spec_pairs_all(old(self).body_list@, a_idx as int),
            decreases n - a_idx,
        {
            let a_static: bool = self.body_list[a_idx].is_static;
            let a_box: crate::aabb::AABB = self.body_list[a_idx].aabb;
            let mut b_idx: usize = a_idx + 1;
            while b_idx < n
                invariant
                    a_idx < b_idx <= n,
                    a_idx < n,
                    n == old(self).body_list@.len(),
                    old(self).wf(),
                    self.body_list@.len() == n,
                    *self == (WorkSpace {
                        body_list: self.body_list,
                        contact_pair: self.contact_pair,
                        ..*old(self)
                    }),
                    a_static == self.body_list@[a_idx as int].is_static,
                    a_box == self.body_list@[a_idx as int].aabb,
                    forall|x: int| 0 <= x < n
                        ==> Self::body_eq_mod_cache(
                            old(self).body_list@[x], #[trigger] self.body_list@[x]),
                    forall|x: int| 0 <= x < n ==> (#[trigger] self.body_list@[x]).wf(),
                    forall|x: int| 0 <= x < n ==> (#[trigger] self.body_list@[x]).index
                        == old(self).body_list@[x].index,
                    forall|x: int| 0 <= x < n ==> (#[trigger] self.body_list@[x]).aabb
                        == crate::body::spec_body_aabb(old(self).body_list@[x]),
                    forall|k: int| 0 <= k < self.contact_pair@.len() ==> {
                        let pr = #[trigger] self.contact_pair@[k];
                        pr.0 < pr.1 < n
                            && Self::spec_pair_passes(
                                old(self).body_list@, pr.0 as int, pr.1 as int)
                    },
                    forall|x: int, y: int| 0 <= x < y < n && x < a_idx
                        && Self::spec_pair_passes(old(self).body_list@, x, y)
                        ==> self.contact_pair@.contains((x as usize, y as usize)),
                    forall|y: int| a_idx < y < b_idx
                        && Self::spec_pair_passes(old(self).body_list@, a_idx as int, y)
                        ==> self.contact_pair@.contains((a_idx, y as usize)),
                    Self::spec_pairs_all(old(self).body_list@, 0)
                        == self.contact_pair@
                            + Self::spec_pairs_row(old(self).body_list@, a_idx as int, b_idx as int)
                            + Self::spec_pairs_all(old(self).body_list@, a_idx + 1),
                decreases n - b_idx,
            {
                let b_static: bool = self.body_list[b_idx].is_static;
                let b_box: crate::aabb::AABB = self.body_list[b_idx].aabb;
                let ghost pairs_before = self.contact_pair@;
                if !(a_static && b_static) {
                    if crate::aabb::intersect_aabbs(a_box, b_box) {
                        self.contact_pair.push((a_idx, b_idx));
                    }
                }
                proof {
                    assert forall|k: int| 0 <= k < pairs_before.len()
                        implies self.contact_pair@.contains(#[trigger] pairs_before[k]) by {
                        assert(self.contact_pair@[k] == pairs_before[k]);
                    }
                    let bodies0 = old(self).body_list@;
                    let row_here = Self::spec_pairs_row(bodies0, a_idx as int, b_idx as int);
                    let row_next = Self::spec_pairs_row(bodies0, a_idx as int, b_idx + 1);
                    let tail = Self::spec_pairs_all(bodies0, a_idx + 1);
                    if Self::spec_pair_passes(bodies0, a_idx as int, b_idx as int) {
                        assert(self.contact_pair@.last() == (a_idx, b_idx));
                        assert(self.contact_pair@.contains((a_idx, b_idx)));
                        assert(row_here == seq![(a_idx, b_idx)] + row_next);
                        assert(self.contact_pair@ =~= pairs_before + seq![(a_idx, b_idx)]);
                        assert(pairs_before + row_here + tail
                            =~= self.contact_pair@ + row_next + tail);
                    } else {
                        assert(row_here == row_next);
                    }
                }
                b_idx += 1;
            }
            proof {
                let bodies0 = old(self).body_list@;
                assert(Self::spec_pairs_row(bodies0, a_idx as int, n as int) =~= Seq::empty());
                assert(self.contact_pair@
                    + Self::spec_pairs_row(bodies0, a_idx as int, n as int)
                    + Self::spec_pairs_all(bodies0, a_idx + 1)
                    =~= self.contact_pair@ + Self::spec_pairs_all(bodies0, a_idx + 1));
            }
            a_idx += 1;
        }
        proof {
            assert(Self::spec_pairs_all(old(self).body_list@, n as int) =~= Seq::empty());
            assert(self.contact_pair@ + Self::spec_pairs_all(old(self).body_list@, n as int)
                =~= self.contact_pair@);
        }
    }

    /// Two bodies with the same mass properties, shape and identity: only
    /// the motion state and the caches may differ.
    pub open spec fn body_same_statics(a: RigidBody, b: RigidBody) -> bool {
        &&& b.mass == a.mass
        &&& b.inv_mass == a.inv_mass
        &&& b.inertia == a.inertia
        &&& b.inv_inertia == a.inv_inertia
        &&& b.density == a.density
        &&& b.area == a.area
        &&& b.restitution == a.restitution
        &&& b.is_static == a.is_static
        &&& b.radius == a.radius
        &&& b.width == a.width
        &&& b.height == a.height
        &&& b.shape == a.shape
        &&& b.vertices@ == a.vertices@
        &&& b.triangles@ == a.triangles@
        &&& b.index == a.index
    }

    /// A body's full motion state: position, angle and both velocities.
    pub open spec fn body_same_motion(a: RigidBody, b: RigidBody) -> bool {
        &&& b.position == a.position
        &&& b.angle == a.angle
        &&& b.linear_velocity == a.linear_velocity
        &&& b.angular_velocity == a.angular_velocity
    }

    /// Two body sequences equal except the vertex caches of the two given
    /// indices, which stay well-formed.
    pub open spec fn seq_eq_mod_tfv2(a: Seq<RigidBody>, b: Seq<RigidBody>, i: int, j: int)
        -> bool {
        &&& b.len() == a.len()
        &&& forall|x: int| 0 <= x < a.len() && x != i && x != j ==> a[x] == #[trigger] b[x]
        &&& crate::collisions::body_eq_mod_tfv(a[i], b[i])
        &&& crate::collisions::body_eq_mod_tfv(a[j], b[j])
        &&& b[i].wf()
        &&& b[j].wf()
    }

    /// A body moved by an offset, its caches marked stale.
    pub open spec fn spec_moved_body(b: RigidBody, v: Vector2D) -> RigidBody {
        RigidBody {
            position: spec_sm(b.position, v),
            tfv_required: true,
            aabb_update: true,
            ..b
        }
    }

    /// The arena after the positional separation of one pair: a static
    /// partner leaves the whole depth to the dynamic body; two dynamic
    /// bodies each move half the depth.
    pub open spec fn spec_separated_bodies(
        bs: Seq<RigidBody>, i: int, j: int, norm: Vector2D, depth: int,
    ) -> Seq<RigidBody> {
        let a = bs[i];
        let b = bs[j];
        if a.is_static {
            bs.update(j, Self::spec_moved_body(b, spec_scale(norm, depth)))
        } else if b.is_static {
            bs.update(i, Self::spec_moved_body(
                a, spec_scale(spec_scale(norm, -(SCALE as int)), depth)))
        } else {
            let half = fx_div_s(depth, 2 * (SCALE as int));
            bs.update(i, Self::spec_moved_body(
                a, spec_scale(spec_scale(norm, -(SCALE as int)), half)))
              .update(j, Self::spec_moved_body(b, spec_scale(norm, half)))
        }
    }

    /// One narrow-phase pair fully transitioned, with the intermediate
    /// states named: the pair is tested on `b_in` (refreshing the caches
    /// into `b1`); a miss changes nothing more; a hit separates the pair
    /// (`b2`), computes its contact points (refreshing caches into `b3`),
    /// appends the manifold, and applies the rotational impulse resolution.
    pub open spec fn spec_pair_step_witness(
        b_in: Seq<RigidBody>,
        c_in: Seq<ManiFold>,
        pr: (usize, usize),
        b1: Seq<RigidBody>,
        r: (bool, Vector2D, i64),
        b2: Seq<RigidBody>,
        c: (Vector2D, Vector2D, i32),
        b3: Seq<RigidBody>,
        b_out: Seq<RigidBody>,
        c_out: Seq<ManiFold>,
    ) -> bool {
        let i = pr.0 as int;
        let j = pr.1 as int;
        &&& Self::seq_eq_mod_tfv2(b_in, b1, i, j)
        &&& crate::collisions::spec_collide_result(b_in[i], b_in[j], r)
        &&& if !r.0 {
            &&& b2 == b1
            &&& c == (Vector2D { x: 0i64, y: 0i64 }, Vector2D { x: 0i64, y: 0i64 }, 0i32)
            &&& b3 == b1
            &&& b_out == b1
            &&& c_out == c_in
        } else {
            &&& b2 == Self::spec_separated_bodies(b1, i, j, r.1, r.2 as int)
            &&& Self::seq_eq_mod_tfv2(b2, b3, i, j)
            &&& crate::contact::spec_contacts_result(b2[i], b2[j], c)
            &&& ({
                let m = ManiFold {
                    body_a: pr.0,
                    body_b: pr.1,
                    normal: r.1,
                    depth: r.2,
                    contact1: c.0,
                    contact2: c.1,
                    contact_count: c.2,
                };
                let out = crate::resolver::spec_resolve_rotation(b3[i], b3[j], m);
                &&& c_out == c_in.push(m)
                &&& b_out == b3.update(i, RigidBody {
                        linear_velocity: out.0.0,
                        angular_velocity: out.0.1 as i64,
                        ..b3[i]
                    }).update(j, RigidBody {
                        linear_velocity: out.1.0,
                        angular_velocity: out.1.1 as i64,
                        ..b3[j]
                    })
            })
        }
    }

    /// One narrow-phase pair transitioned, for some cache refreshes and
    /// collision outcome.
    pub open spec fn spec_pair_step(
        b_in: Seq<RigidBody>,
        c_in: Seq<ManiFold>,
        pr: (usize, usize),
        b_out: Seq<RigidBody>,
        c_out: Seq<ManiFold>,
    ) -> bool {
        exists|b1: Seq<RigidBody>, r: (bool, Vector2D, i64), b2: Seq<RigidBody>,
            c: (Vector2D, Vector2D, i32), b3: Seq<RigidBody>|
            #[trigger] Self::spec_pair_step_witness(
                b_in, c_in, pr, b1, r, b2, c, b3, b_out, c_out)
    }

    /// A trace of the narrow phase over the first `k` pairs: the chain of
    /// arena and manifold-list states, one pair transition between each.
    pub open spec fn spec_narrow_trace(
        b_in: Seq<RigidBody>,
        c_in: Seq<ManiFold>,
        pairs: Seq<(usize, usize)>,
        k: int,
        b_out: Seq<RigidBody>,
        c_out: Seq<ManiFold>,
        trace: Seq<(Seq<RigidBody>, Seq<ManiFold>)>,
    ) -> bool {
        &&& 0 <= k <= pairs.len()
        &&& trace.len() == k + 1
        &&& trace[0] == (b_in, c_in)
        &&& trace[k] == (b_out, c_out)
        &&& forall|q: int| 0 <= q < k ==> Self::spec_pair_step(
            (#[trigger] trace[q]).0, trace[q].1, pairs[q], trace[q + 1].0, trace[q + 1].1)
    }

    /// The narrow phase over the first `k` pairs: some trace of pair
    /// transitions leads from the input state to the output state.
    pub open spec fn spec_narrow_chain(
        b_in: Seq<RigidBody>,
        c_in: Seq<ManiFold>,
        pairs: Seq<(usize, usize)>,
        k: int,
        b_out: Seq<RigidBody>,
        c_out: Seq<ManiFold>,
    ) -> bool {
        exists|trace: Seq<(Seq<RigidBody>, Seq<ManiFold>)>|
            #[trigger] Self::spec_narrow_trace(b_in, c_in, pairs, k, b_out, c_out, trace)
    }

    /// A missed pair steps the chain by only refreshing the two caches.
    proof fn lemma_pair_step_miss(
        b_in: Seq<RigidBody>,
        c_in: Seq<ManiFold>,
        pr: (usize, usize),
        b1: Seq<RigidBody>,
        r: (bool, Vector2D, i64),
    )
        requires
            Self::seq_eq_mod_tfv2(b_in, b1, pr.0 as int, pr.1 as int),
            crate::collisions::spec_collide_result(b_in[pr.0 as int], b_in[pr.1 as int], r),
            !r.0,
        ensures
            Self::spec_pair_step(b_in, c_in, pr, b1, c_in),
    {
        let zerov = Vector2D { x: 0i64, y: 0i64 };
        assert(Self::spec_pair_step_witness(
            b_in, c_in, pr, b1, r, b1, (zerov, zerov, 0i32), b1, b1, c_in));
    }

    /// A colliding pair steps the chain through separation, contact
    /// generation, the appended manifold, and the impulse resolution.
    proof fn lemma_pair_step_hit(
        b_in: Seq<RigidBody>,
        c_in: Seq<ManiFold>,
        pr: (usize, usize),
        b1: Seq<RigidBody>,
        r: (bool, Vector2D, i64),
        b2: Seq<RigidBody>,
        c: (Vector2D, Vector2D, i32),
        b3: Seq<RigidBody>,
        b_out: Seq<RigidBody>,
        c_out: Seq<ManiFold>,
    )
        requires
            Self::seq_eq_mod_tfv2(b_in, b1, pr.0 as int, pr.1 as int),
            crate::collisions::spec_collide_result(b_in[pr.0 as int], b_in[pr.1 as int], r),
            r.0,
            b2 == Self::spec_separated_bodies(b1, pr.0 as int, pr.1 as int, r.1, r.2 as int),
            Self::seq_eq_mod_tfv2(b2, b3, pr.0 as int, pr.1 as int),
            crate::contact::spec_contacts_result(b2[pr.0 as int], b2[pr.1 as int], c),
            ({
                let m = ManiFold {
                    body_a: pr.0,
                    body_b: pr.1,
                    normal: r.1,
                    depth: r.2,
                    contact1: c.0,
                    contact2: c.1,
                    contact_count: c.2,
                };
                let out = crate::resolver::spec_resolve_rotation(
                    b3[pr.0 as int], b3[pr.1 as int], m);
                c_out == c_in.push(m)
                    && b_out == b3.update(pr.0 as int, RigidBody {
                        linear_velocity: out.0.0,
                        angular_velocity: out.0.1 as i64,
                        ..b3[pr.0 as int]
                    }).update(pr.1 as int, RigidBody {
                        linear_velocity: out.1.0,
                        angular_velocity: out.1.1 as i64,
                        ..b3[pr.1 as int]
                    })
            }),
        ensures
            Self::spec_pair_step(b_in, c_in, pr, b_out, c_out),
    {
        assert(Self::spec_pair_step_witness(
            b_in, c_in, pr, b1, r, b2, c, b3, b_out, c_out));
    }

    /// The narrow phase: every broad-phase pair is tested exactly, and a
    /// colliding pair is pushed apart, given a manifold with its contact
    /// points, and resolved with rotation, in scan order: the final bodies
    /// and manifold list are the chain of the per-pair transitions over
    /// the stored pairs. A fully static body never moves: its position,
    /// angle and velocities are untouched.
    #[verifier::rlimit(100)]
    #[verifier::spinoff_prover]
    pub fn narrow_phase(&mut self)
        requires
            old(self).wf(),
            old(self).pairs_ok(),
        ensures
            final(self).wf(),
            final(self).body_list@.len() == old(self).body_list@.len(),
            *final(self) == (WorkSpace {
                body_list: final(self).body_list,
                contact_list: final(self).contact_list,
                ..*old(self)
            }),
            forall|i: int| 0 <= i < old(self).body_list@.len()
                ==> Self::body_same_statics(
                    old(self).body_list@[i], #[trigger] final(self).body_list@[i]),
            forall|i: int| 0 <= i < old(self).body_list@.len()
                && old(self).body_list@[i].is_static
                ==> Self::body_same_motion(
                    old(self).body_list@[i], #[trigger] final(self).body_list@[i]),
            Self::spec_narrow_chain(
                old(self).body_list@,
                old(self).contact_list@,
                old(self).contact_pair@,
                old(self).contact_pair@.len() as int,
                final(self).body_list@,
                final(self).contact_list@),
    {
        let l: usize = self.contact_pair.len();
        let ghost mut trace: Seq<(Seq<RigidBody>, Seq<ManiFold>)> =
            seq![(old(self).body_list@, old(self).contact_list@)];
        let mut k: usize = 0;
        while k < l
            invariant
                k <= l,
                old(self).wf(),
                old(self).pairs_ok(),
                l == old(self).contact_pair@.len(),
                self.body_list@.len() == old(self).body_list@.len(),
                *self == (WorkSpace {
                    body_list: self.body_list,
                    contact_list: self.contact_list,
                    ..*old(self)
                }),
                forall|i: int| 0 <= i < self.body_list@.len()
                    ==> (#[trigger] self.body_list@[i]).wf(),
                forall|i: int| 0 <= i < old(self).body_list@.len()
                    ==> Self::body_same_statics(
                        old(self).body_list@[i], #[trigger] self.body_list@[i]),
                forall|i: int| 0 <= i < old(self).body_list@.len()
                    && old(self).body_list@[i].is_static
                    ==> Self::body_same_motion(
                        old(self).body_list@[i], #[trigger] self.body_list@[i]),
                trace.len() == k + 1,
                trace[0] == (old(self).body_list@, old(self).contact_list@),
                trace[k as int] == (self.body_list@, self.contact_list@),
                forall|q: int| 0 <= q < k ==> Self::spec_pair_step(
                    (#[trigger] trace[q]).0, trace[q].1, old(self).contact_pair@[q],
                    trace[q + 1].0, trace[q + 1].1),
            decreases l - k,
        {
            let pr: (usize, usize) = self.contact_pair[k];
            let i: usize = pr.0;
            let j: usize = pr.1;
            let ghost b_iter = self.body_list@;
            let ghost c_iter = self.contact_list@;
            let res: (bool, Vector2D, i64) = crate::collisions::collide(&mut self.body_list, i, j);
            let ghost b1 = self.body_list@;
            let ghost zerov = Vector2D { x: 0i64, y: 0i64 };
            if res.0 {
                crate::resolver::separate_bodies(&mut self.body_list, i, j, res.1, res.2);
                let ghost b2 = self.body_list@;
                proof {
                    assert(b2 =~= Self::spec_separated_bodies(
                        b1, i as int, j as int, res.1, res.2 as int));
                }
                let contacts: (Vector2D, Vector2D, i32) =
                    crate::contact::find_contact_points(&mut self.body_list, i, j);
                let ghost b3 = self.body_list@;
                let contact: ManiFold = crate::contact::init_manifold(
                    i, j, res.1, res.2, contacts.0, contacts.1, contacts.2);
                self.contact_list.push(contact);
                crate::resolver::resolve_collision_with_rotation(&mut self.body_list, contact);
                proof {
                    let out = crate::resolver::spec_resolve_rotation(
                        b3[i as int], b3[j as int], contact);
                    assert(self.body_list@ =~= b3.update(i as int, RigidBody {
                        linear_velocity: out.0.0,
                        angular_velocity: out.0.1 as i64,
                        ..b3[i as int]
                    }).update(j as int, RigidBody {
                        linear_velocity: out.1.0,
                        angular_velocity: out.1.1 as i64,
                        ..b3[j as int]
                    }));
                    Self::lemma_pair_step_hit(
                        b_iter, c_iter, pr, b1, res, b2, contacts, b3,
                        self.body_list@, self.contact_list@);
                    trace = trace.push((self.body_list@, self.contact_list@));
                }
            } else {
                proof {
                    Self::lemma_pair_step_miss(b_iter, c_iter, pr, b1, res);
                    assert(self.body_list@ == b1);
                    trace = trace.push((self.body_list@, self.contact_list@));
                }
            }
            k += 1;
        }
        proof {
            assert(Self::spec_narrow_trace(
                old(self).body_list@, old(self).contact_list@, old(self).contact_pair@,
                l as int, self.body_list@, self.contact_list@, trace));
            assert(Self::spec_narrow_chain(
                old(self).body_list@, old(self).contact_list@, old(self).contact_pair@,
                l as int, self.body_list@, self.contact_list@));
        }
    }

    /// The arena after one integration pass, in specifications.
    pub open spec fn spec_integrated(
        bodies: Seq<RigidBody>, time: int, it: int, gravity: Vector2D,
    ) -> Seq<RigidBody> {
        Seq::new(bodies.len(), |x: int| bodies[x].stepped(time, it, gravity))
    }

    /// Two body sequences equal except every body's caches, all of them
    /// well-formed.
    pub open spec fn seq_eq_mod_cache(a: Seq<RigidBody>, b: Seq<RigidBody>) -> bool {
        &&& b.len() == a.len()
        &&& forall|x: int| 0 <= x < a.len()
            ==> Self::body_eq_mod_cache(a[x], #[trigger] b[x])
        &&& forall|x: int| 0 <= x < a.len() ==> (#[trigger] b[x]).wf()
    }

    /// One substep of the stepper: integrate every body over
    /// `time / it`, refresh the caches while filtering the pairs by
    /// bounding box, and run the narrow phase over exactly the passing
    /// pairs, starting from an empty manifold list.
    pub open spec fn spec_substep_rel(
        gravity: Vector2D,
        time: int,
        it: int,
        b_in: Seq<RigidBody>,
        b_out: Seq<RigidBody>,
        c_out: Seq<ManiFold>,
    ) -> bool {
        let integrated = Self::spec_integrated(b_in, time, it, gravity);
        let pairs = Self::spec_pairs_all(integrated, 0);
        exists|b_bp: Seq<RigidBody>|
            #[trigger] Self::seq_eq_mod_cache(integrated, b_bp)
            && Self::spec_narrow_chain(
                b_bp, Seq::empty(), pairs, pairs.len() as int, b_out, c_out)
    }

    /// A trace of a whole step: `count` substeps in sequence.
    pub open spec fn spec_step_trace(
        gravity: Vector2D,
        time: int,
        it: int,
        count: int,
        b_in: Seq<RigidBody>,
        c_in: Seq<ManiFold>,
        b_out: Seq<RigidBody>,
        c_out: Seq<ManiFold>,
        trace: Seq<(Seq<RigidBody>, Seq<ManiFold>)>,
    ) -> bool {
        &&& 0 <= count
        &&& trace.len() == count + 1
        &&& trace[0] == (b_in, c_in)
        &&& trace[count] == (b_out, c_out)
        &&& forall|q: int| 0 <= q < count ==> Self::spec_substep_rel(
            gravity, time, it, (#[trigger] trace[q]).0, trace[q + 1].0, trace[q + 1].1)
    }

    /// A whole step: some trace of `count` substeps leads from the input
    /// state to the output state.
    pub open spec fn spec_steps_rel(
        gravity: Vector2D,
        time: int,
        it: int,
        count: int,
        b_in: Seq<RigidBody>,
        c_in: Seq<ManiFold>,
        b_out: Seq<RigidBody>,
        c_out: Seq<ManiFold>,
    ) -> bool {
        exists|trace: Seq<(Seq<RigidBody>, Seq<ManiFold>)>|
            #[trigger] Self::spec_step_trace(
                gravity, time, it, count, b_in, c_in, b_out, c_out, trace)
    }

    /// One external step: the substep count is clamped into the world's
    /// bounds, and each substep integrates all bodies over
    /// `time / iterations`, rebuilds the contact pairs from empty by
    /// bounding-box filtering, and detects and resolves the surviving
    /// collisions in scan order: the final bodies and manifold list are
    /// the fold of the substep relation, applied exactly the clamped
    /// number of times. A fully static body's position, angle, linear
    /// velocity and angular velocity never change, over any number of
    /// steps.
    pub fn step(&mut self, time: i64, iterations: i32)
        requires
            old(self).wf(),
        ensures
            final(self).wf(),
            final(self).body_list@.len() == old(self).body_list@.len(),
            *final(self) == (WorkSpace {
                body_list: final(self).body_list,
                contact_list: final(self).contact_list,
                contact_pair: final(self).contact_pair,
                ..*old(self)
            }),
            forall|i: int| 0 <= i < old(self).body_list@.len()
                ==> Self::body_same_statics(
                    old(self).body_list@[i], #[trigger] final(self).body_list@[i]),
            forall|i: int| 0 <= i < old(self).body_list@.len()
                && old(self).body_list@[i].is_static
                ==> Self::body_same_motion(
                    old(self).body_list@[i], #[trigger] final(self).body_list@[i]),
            ({
                let it = clamp_s(
                    iterations as int, old(self).min_iter as int, old(self).max_iter as int);
                Self::spec_steps_rel(
                    old(self).gravity, time as int, it, it,
                    old(self).body_list@, old(self).contact_list@,
                    final(self).body_list@, final(self).contact_list@)
            }),
    {
        let it: i32 = match crate::fxp::clamp_for_int(iterations, self.min_iter, self.max_iter) {
            Ok(v) => v,
            Err(_) => self.min_iter,
        };
        let ghost mut step_trace: Seq<(Seq<RigidBody>, Seq<ManiFold>)> =
            seq![(old(self).body_list@, old(self).contact_list@)];
        let mut t: i32 = 0;
        while t < it
            invariant
                0 <= t <= it,
                it >= 1,
                it == clamp_s(
                    iterations as int, old(self).min_iter as int, old(self).max_iter as int),
                step_trace.len() == t + 1,
                step_trace[0] == (old(self).body_list@, old(self).contact_list@),
                step_trace[t as int] == (self.body_list@, self.contact_list@),
                forall|q: int| 0 <= q < t ==> Self::spec_substep_rel(
                    old(self).gravity, time as int, it as int,
                    (#[trigger] step_trace[q]).0, step_trace[q + 1].0, step_trace[q + 1].1),
                old(self).wf(),
                self.body_list@.len() == old(self).body_list@.len(),
                *self == (WorkSpace {
                    body_list: self.body_list,
                    contact_list: self.contact_list,
                    contact_pair: self.contact_pair,
                    ..*old(self)
                }),
                forall|i: int| 0 <= i < self.body_list@.len()
                    ==> (#[trigger] self.body_list@[i]).wf(),
                forall|i: int| 0 <= i < self.body_list@.len()
                    ==> (#[trigger] self.body_list@[i]).index == i,
                forall|i: int| 0 <= i < old(self).body_list@.len()
                    ==> Self::body_same_statics(
                        old(self).body_list@[i], #[trigger] self.body_list@[i]),
                forall|i: int| 0 <= i < old(self).body_list@.len()
                    && old(self).body_list@[i].is_static
                    ==> Self::body_same_motion(
                        old(self).body_list@[i], #[trigger] self.body_list@[i]),
            decreases it - t,
        {
            let ghost b_sub_in = self.body_list@;
            self.contact_list = Vec::new();
            self.step_bodies(time, it);
            let ghost integrated = self.body_list@;
            proof {
                assert(integrated =~= Self::spec_integrated(
                    b_sub_in, time as int, it as int, old(self).gravity));
            }
            self.broad_phase();
            let ghost b_bp = self.body_list@;
            proof {
                assert(Self::seq_eq_mod_cache(integrated, b_bp));
                assert(self.contact_pair@ == Self::spec_pairs_all(integrated, 0));
            }
            self.narrow_phase();
            proof {
                assert(Self::spec_substep_rel(
                    old(self).gravity, time as int, it as int,
                    b_sub_in, self.body_list@, self.contact_list@));
                step_trace = step_trace.push((self.body_list@, self.contact_list@));
            }
            t += 1;
        }
        proof {
            assert(Self::spec_step_trace(
                old(self).gravity, time as int, it as int, it as int,
                old(self).body_list@, old(self).contact_list@,
                self.body_list@, self.contact_list@, step_trace));
        }
    }

    /// Integrates every body over one substep. Static bodies do not move.
    pub fn step_bodies(&mut self, time: i64, iterations: i32)
        requires
            old(self).wf(),
            iterations > 0,
        ensures
            final(self).wf(),
            final(self).body_list.len() == old(self).body_list.len(),
            *final(self) == (WorkSpace { body_list: final(self).body_list, ..*old(self) }),
            forall|i: int| 0 <= i < old(self).body_list.len()
                && old(self).body_list[i].is_static
                ==> final(self).body_list[i] == old(self).body_list[i],
            forall|i: int| 0 <= i < old(self).body_list.len()
                ==> (#[trigger] final(self).body_list[i]).linear_velocity
                    == old(self).body_list[i].stepped(
                        time as int, iterations as int, old(self).gravity).linear_velocity
                    && final(self).body_list[i]
                        == old(self).body_list[i].stepped(
                            time as int, iterations as int, old(self).gravity),
    {
        let n: usize = self.body_list.len();
        let mut i: usize = 0;
        while i < n
            invariant
                i <= n,
                n == old(self).body_list.len(),
                old(self).wf(),
                iterations > 0,
                self.body_list.len() == n,
                *self == (WorkSpace { body_list: self.body_list, ..*old(self) }),
                forall|j: int| 0 <= j < self.body_list.len()
                    ==> (#[trigger] self.body_list[j]).wf(),
                forall|j: int| i <= j < n ==> self.body_list[j] == old(self).body_list[j],
                forall|j: int| 0 <= j < i ==> self.body_list[j]
                    == old(self).body_list[j].stepped(
                        time as int, iterations as int, old(self).gravity),
            decreases n - i,
        {
            let mut b: RigidBody = self.body_list.remove(i);
            b.step_body(time, iterations, self.gravity);
            self.body_list.insert(i, b);
            i += 1;
        }
    }
}

impl WorkSpace {
    /// The `mn_bs` field.
    pub fn get_mn_bs(&self) -> (r: i64)
        ensures
            r == self.mn_bs,
    {
        self.mn_bs
    }

    /// Overwrites the `mn_bs` field.
    pub fn set_mn_bs(&mut self, mn_bs: i64)
        ensures
            *final(self) == (WorkSpace { mn_bs, ..*old(self) }),
    {
        self.mn_bs = mn_bs;
    }

    /// The `mx_bs` field.
    pub fn get_mx_bs(&self) -> (r: i64)
        ensures
            r == self.mx_bs,
    {
        self.mx_bs
    }

    /// Overwrites the `mx_bs` field.
    pub fn set_mx_bs(&mut self, mx_bs: i64)
        ensures
            *final(self) == (WorkSpace { mx_bs, ..*old(self) }),
    {
        self.mx_bs = mx_bs;
    }

    /// The `mn_d` field.
    pub fn get_mn_d(&self) -> (r: i64)
        ensures
            r == self.mn_d,
    {
        self.mn_d
    }

    /// Overwrites the `mn_d` field.
    pub fn set_mn_d(&mut self, mn_d: i64)
        ensures
            *final(self) == (WorkSpace { mn_d, ..*old(self) }),
    {
        self.mn_d = mn_d;
    }

    /// The `mx_d` field.
    pub fn get_mx_d(&self) -> (r: i64)
        ensures
            r == self.mx_d,
    {
        self.mx_d
    }

    /// Overwrites the `mx_d` field.
    pub fn set_mx_d(&mut self, mx_d: i64)
        ensures
            *final(self) == (WorkSpace { mx_d, ..*old(self) }),
    {
        self.mx_d = mx_d;
    }

    /// The `min_iter` field.
    pub fn get_min_iter(&self) -> (r: i32)
        ensures
            r == self.min_iter,
    {
        self.min_iter
    }

    /// Overwrites the `min_iter` field.
    pub fn set_min_iter(&mut self, min_iter: i32)
        ensures
            *final(self) == (WorkSpace { min_iter, ..*old(self) }),
    {
        self.min_iter = min_iter;
    }

    /// The `max_iter` field.
    pub fn get_max_iter(&self) -> (r: i32)
        ensures
            r == self.max_iter,
    {
        self.max_iter
    }

    /// Overwrites the `max_iter` field.
    pub fn set_max_iter(&mut self, max_iter: i32)
        ensures
            *final(self) == (WorkSpace { max_iter, ..*old(self) }),
    {
        self.max_iter = max_iter;
    }

    /// The `gravity` field.
    pub fn get_gravity(&self) -> (r: &Vector2D)
        ensures
            *r == self.gravity,
    {
        &self.gravity
    }

    /// Overwrites the `gravity` field.
    pub fn set_gravity(&mut self, gravity: Vector2D)
        ensures
            *final(self) == (WorkSpace { gravity, ..*old(self) }),
    {
        self.gravity = gravity;
    }

    /// The `body_count` field.
    pub fn get_body_count(&self) -> (r: usize)
        ensures
            r == self.body_count,
    {
        self.body_count
    }

    /// Overwrites the `body_count` field.
    pub fn set_body_count(&mut self, body_count: usize)
        ensures
            *final(self) == (WorkSpace { body_count, ..*old(self) }),
    {
        self.body_count = body_count;
    }

    /// The `body_list` field.
    pub fn get_body_list(&self) -> (r: &Vec<RigidBody>)
        ensures
            *r == self.body_list,
    {
        &self.body_list
    }

    /// Overwrites the `body_list` field.
    pub fn set_body_list(&mut self, body_list: Vec<RigidBody>)
        ensures
            *final(self) == (WorkSpace { body_list, ..*old(self) }),
    {
        self.body_list = body_list;
    }

    /// The `contact_list` field.
    pub fn get_contact_list(&self) -> (r: &Vec<ManiFold>)
        ensures
            *r == self.contact_list,
    {
        &self.contact_list
    }

    /// Overwrites the `contact_list` field.
    pub fn set_contact_list(&mut self, contact_list: Vec<ManiFold>)
        ensures
            *final(self) == (WorkSpace { contact_list, ..*old(self) }),
    {
        self.contact_list = contact_list;
    }

}


impl WorkSpace {
    /// A borrow of the body at a known-valid index.
    pub fn get_body_in(&self, index: usize) -> (r: &RigidBody)
        requires
            index < self.body_list@.len(),
        ensures
            *r == self.body_list@[index as int],
    {
        &self.body_list[index]
    }
}

} // verus!
