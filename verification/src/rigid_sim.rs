//! The rigid-body simulation: a world sized to a renderer, walled in by
//! four static boxes, stepped at a fixed rate and snapshotted for render.

use vstd::prelude::*;
use crate::fxp::{fx_div, fx_div_s, fx_mul, fx_add, clamp_s, SCALE};
use crate::vec2::{Vector2D, c_vect};
use crate::body::{RigidBody, ShapeType, initializer_r};
use crate::world::WorkSpace;

verus! {

/// One renderable body: position, rotation, and the size fields the
/// renderer needs, with `shape` true for a box.
#[derive(Clone, Copy, PartialEq, Eq, Structural, Debug)]
pub struct LightRigidBody {
    pub position: Vector2D,
    pub rotation: i64,
    pub radius: i64,
    pub width: i64,
    pub height: i64,
    pub shape: bool,
}

/// The renderable view of one body, in specifications.
pub open spec fn spec_light_body(b: RigidBody) -> LightRigidBody {
    LightRigidBody {
        position: b.position,
        rotation: b.angle,
        radius: b.radius,
        width: b.width,
        height: b.height,
        shape: b.shape is Box,
    }
}

/// The renderable view of a whole arena, in specifications: one entry per
/// body, in arena order. The snapshot is a function of the state alone,
/// so two snapshots with no step between them are identical.
pub open spec fn spec_render_data(bodies: Seq<RigidBody>) -> Seq<LightRigidBody> {
    bodies.map(|i: int, b: RigidBody| spec_light_body(b))
}

impl crate::DataToSend for LightRigidBody {

}

/// A rigid-body simulation bound to a renderer size.
#[derive(Debug)]
pub struct RigidSimulation {
    /// The size of the renderer in world units.
    pub renderer_size: Vector2D,
    /// The world holding the bodies.
    pub work_space: WorkSpace,
}

impl RigidSimulation {
    /// Well-formedness: the world is well-formed.
    pub open spec fn wf(self) -> bool {
        self.work_space.wf()
    }

    /// A simulation over the given world, or over a fresh default one.
    pub fn new(renderer_size: Vector2D, default_workspace: Option<WorkSpace>) -> (r: Self)
        requires
            default_workspace is Some ==> default_workspace->0.wf(),
        ensures
            r.wf(),
            r.renderer_size == renderer_size,
            default_workspace is Some ==> r.work_space == default_workspace->0,
            default_workspace is None ==> {
                &&& r.work_space.body_list@.len() == 0
                &&& r.work_space.gravity == (Vector2D { x: 0i64, y: 9_810_000_000i64 })
                &&& r.work_space.min_iter == 1
                &&& r.work_space.max_iter == 128
            },
    {
        let workspace: WorkSpace = match default_workspace {
            Some(ws) => ws,
            None => WorkSpace::new(),
        };
        RigidSimulation { renderer_size, work_space: workspace }
    }

    /// Adds a body to the world.
    pub fn push_body(&mut self, body: RigidBody)
        requires
            old(self).wf(),
            body.wf(),
            old(self).work_space.body_list@.len() < 0x7ffffffe,
        ensures
            final(self).wf(),
            final(self).work_space.body_list@.len()
                == old(self).work_space.body_list@.len() + 1,
            final(self).renderer_size == old(self).renderer_size,
    {
        self.work_space.add_body(body);
    }

    /// Adds the default ball at the center of the renderer.
    pub fn add_default_circle(&mut self)
        requires
            old(self).wf(),
            old(self).work_space.body_list@.len() < 0x7ffffffe,
        ensures
            final(self).wf(),
            final(self).work_space.body_list@.len()
                == old(self).work_space.body_list@.len() + 1,
            final(self).work_space.body_list@.subrange(
                0, old(self).work_space.body_list@.len() as int)
                == old(self).work_space.body_list@,
            ({
                let added = final(self).work_space.body_list@.last();
                &&& added.shape is Circle
                &&& added.is_static
                &&& added.radius == 5 * SCALE
                &&& added.position == (Vector2D {
                    x: fx_div_s(old(self).renderer_size.x as int, 2 * (SCALE as int)) as i64,
                    y: fx_div_s(old(self).renderer_size.y as int, 2 * (SCALE as int)) as i64,
                })
            }),
    {
        let mut ball: RigidBody = RigidBody::new_ball();
        ball.moves_to(c_vect(
            fx_div(self.renderer_size.x, 2 * SCALE),
            fx_div(self.renderer_size.y, 2 * SCALE),
        ));
        self.work_space.add_body(ball);
    }

    /// Adds the default box at the center of the renderer.
    pub fn add_default_box(&mut self)
        requires
            old(self).wf(),
            old(self).work_space.body_list@.len() < 0x7ffffffe,
        ensures
            final(self).wf(),
            final(self).work_space.body_list@.len()
                == old(self).work_space.body_list@.len() + 1,
            final(self).work_space.body_list@.subrange(
                0, old(self).work_space.body_list@.len() as int)
                == old(self).work_space.body_list@,
            ({
                let added = final(self).work_space.body_list@.last();
                &&& added.shape is Box
                &&& added.is_static
                &&& added.width == 5 * SCALE
                &&& added.height == 5 * SCALE
                &&& added.position == (Vector2D {
                    x: fx_div_s(old(self).renderer_size.x as int, 2 * (SCALE as int)) as i64,
                    y: fx_div_s(old(self).renderer_size.y as int, 2 * (SCALE as int)) as i64,
                })
            }),
    {
        let mut box_s: RigidBody = RigidBody::new_box();
        box_s.moves_to(c_vect(
            fx_div(self.renderer_size.x, 2 * SCALE),
            fx_div(self.renderer_size.y, 2 * SCALE),
        ));
        self.work_space.add_body(box_s);
    }

    /// Builds a body from its parameters and adds it at the center of the
    /// renderer.
    pub fn add_body(
        &mut self,
        density: i64,
        mass: i64,
        restitution: i64,
        area: i64,
        is_static: bool,
        radius: i64,
        width: i64,
        height: i64,
        shape: ShapeType,
        inertia: i64,
    )
        requires
            old(self).wf(),
            old(self).work_space.body_list@.len() < 0x7ffffffe,
            !is_static ==> mass > 0,
            inertia >= 0,
        ensures
            final(self).wf(),
            final(self).work_space.body_list@.len()
                == old(self).work_space.body_list@.len() + 1,
            final(self).work_space.body_list@.subrange(
                0, old(self).work_space.body_list@.len() as int)
                == old(self).work_space.body_list@,
            ({
                let added = final(self).work_space.body_list@.last();
                &&& added.shape == shape
                &&& added.is_static == is_static
                &&& added.density == density
                &&& added.mass == mass
                &&& added.restitution == restitution
                &&& added.area == area
                &&& added.radius == radius
                &&& added.width == width
                &&& added.height == height
                &&& added.inertia == inertia
                &&& added.position == (Vector2D {
                    x: fx_div_s(old(self).renderer_size.x as int, 2 * (SCALE as int)) as i64,
                    y: fx_div_s(old(self).renderer_size.y as int, 2 * (SCALE as int)) as i64,
                })
            }),
    {
        let pos: Vector2D = c_vect(
            fx_div(self.renderer_size.x, 2 * SCALE),
            fx_div(self.renderer_size.y, 2 * SCALE),
        );
        let body: RigidBody = initializer_r(
            pos, density, mass, restitution, area, is_static, radius, width, height, shape,
            inertia);
        self.work_space.add_body(body);
    }

    /// Moves every body of a list into the world, in order.
    pub fn append_bodies(&mut self, bodies: &mut Vec<RigidBody>)
        requires
            old(self).wf(),
            old(self).work_space.body_list@.len() + old(bodies)@.len() < 0x7ffffffe,
            forall|i: int| 0 <= i < old(bodies)@.len()
                ==> (#[trigger] old(bodies)@[i]).wf(),
        ensures
            final(self).wf(),
            final(bodies)@.len() == 0,
            final(self).work_space.body_list@.len()
                == old(self).work_space.body_list@.len() + old(bodies)@.len(),
    {
        let total: usize = bodies.len();
        let mut moved: usize = 0;
        while moved < total
            invariant
                moved <= total,
                total == old(bodies)@.len(),
                bodies@.len() == total - moved,
                old(self).work_space.body_list@.len() + total < 0x7ffffffe,
                forall|i: int| 0 <= i < old(bodies)@.len()
                    ==> (#[trigger] old(bodies)@[i]).wf(),
                self.wf(),
                self.work_space.body_list@.len()
                    == old(self).work_space.body_list@.len() + moved,
                forall|i: int| 0 <= i < bodies@.len()
                    ==> bodies@[i] == old(bodies)@[i + moved],
            decreases total - moved,
        {
            let body: RigidBody = bodies.remove(0);
            self.work_space.add_body(body);
            moved += 1;
        }
    }

    /// Advances the simulation one external tick: the world steps with its
    /// full substep budget, so the final bodies and manifold list are the
    /// fold of the substep relation applied `max_iter` times. A fully
    /// static body never moves.
    pub fn update(&mut self, dt: i64)
        requires
            old(self).wf(),
        ensures
            final(self).wf(),
            final(self).renderer_size == old(self).renderer_size,
            final(self).work_space.body_list@.len()
                == old(self).work_space.body_list@.len(),
            forall|i: int| 0 <= i < old(self).work_space.body_list@.len()
                && old(self).work_space.body_list@[i].is_static
                ==> WorkSpace::body_same_motion(
                    old(self).work_space.body_list@[i],
                    #[trigger] final(self).work_space.body_list@[i]),
            WorkSpace::spec_steps_rel(
                old(self).work_space.gravity,
                dt as int,
                old(self).work_space.max_iter as int,
                old(self).work_space.max_iter as int,
                old(self).work_space.body_list@,
                old(self).work_space.contact_list@,
                final(self).work_space.body_list@,
                final(self).work_space.contact_list@),
    {
        let it: i32 = self.work_space.max_iter;
        self.work_space.step(dt, it);
        proof {
            assert(clamp_s(
                old(self).work_space.max_iter as int,
                old(self).work_space.min_iter as int,
                old(self).work_space.max_iter as int)
                == old(self).work_space.max_iter as int);
        }
    }

    /// The renderable snapshot of every body, in arena order. The result
    /// is a function of the current state alone: two calls with no step
    /// between them return identical data.
    pub fn get_data_to_render(&self) -> (r: Vec<LightRigidBody>)
        ensures
            r@ == spec_render_data(self.work_space.body_list@),
    {
        let mut light_bodies: Vec<LightRigidBody> = Vec::new();
        let n: usize = self.work_space.body_list.len();
        let mut i: usize = 0;
        while i < n
            invariant
                i <= n,
                n == self.work_space.body_list@.len(),
                light_bodies@.len() == i,
                forall|j: int| 0 <= j < i ==> light_bodies@[j]
                    == spec_render_data(self.work_space.body_list@)[j],
            decreases n - i,
        {
            let b: &RigidBody = &self.work_space.body_list[i];
            let shape_is_box: bool = match b.shape {
                ShapeType::Box => true,
                ShapeType::Circle => false,
            };
            let light: LightRigidBody = LightRigidBody {
                position: b.position,
                rotation: b.angle,
                radius: b.radius,
                width: b.width,
                height: b.height,
                shape: shape_is_box,
            };
            light_bodies.push(light);
            i += 1;
        }
        proof {
            assert(light_bodies@ =~= spec_render_data(self.work_space.body_list@));
        }
        light_bodies
    }

    /// The renderable snapshot; an alias of [`RigidSimulation::get_data_to_render`].
    pub fn get_render_snapshot(&self) -> (r: Vec<LightRigidBody>)
        ensures
            r@ == spec_render_data(self.work_space.body_list@),
    {
        self.get_data_to_render()
    }

    /// The well-formedness of the four boundary walls and the seeded
    /// starter boxes, at their positions in the arena.
    pub open spec fn spec_initialized_bodies(
        pre: Seq<RigidBody>, post: Seq<RigidBody>, renderer_size: Vector2D,
        starter: Option<Vec<Vector2D>>,
    ) -> bool {
        let n0 = pre.len() as int;
        let added = if starter is Some { starter->0@.len() as int } else { 0 };
        let half_x = fx_div_s(renderer_size.x as int, 2 * (SCALE as int)) as i64;
        let half_y = fx_div_s(renderer_size.y as int, 2 * (SCALE as int)) as i64;
        let thickness = 2 * SCALE;
        &&& post.len() == n0 + 4 + added
        &&& post.subrange(0, n0) == pre
        &&& forall|w: int| n0 <= w < n0 + 4
            ==> (#[trigger] post[w]).is_static && post[w].shape is Box
        &&& post[n0].width == renderer_size.x && post[n0].height == thickness
            && post[n0].position == (Vector2D { x: half_x, y: 0i64 })
        &&& post[n0 + 1].width == renderer_size.x && post[n0 + 1].height == thickness
            && post[n0 + 1].position == (Vector2D { x: half_x, y: renderer_size.y })
        &&& post[n0 + 2].width == thickness && post[n0 + 2].height == renderer_size.y
            && post[n0 + 2].position == (Vector2D { x: 0i64, y: half_y })
        &&& post[n0 + 3].width == thickness && post[n0 + 3].height == renderer_size.y
            && post[n0 + 3].position == (Vector2D { x: renderer_size.x, y: half_y })
        &&& forall|m: int| 0 <= m < added ==> {
            let b = #[trigger] post[n0 + 4 + m];
            &&& !b.is_static
            &&& b.shape is Box
            &&& b.width == 50 * SCALE
            &&& b.height == 50 * SCALE
            &&& b.position == starter->0@[m]
        }
    }

    /// Seeds the world for a renderer size: four static boundary walls
    /// sized to the bounds, then one dynamic box per starter position,
    /// appended in order after the existing bodies.
    pub fn initialize(&mut self, renderer_size: Vector2D, starter: Option<Vec<Vector2D>>)
        requires
            old(self).wf(),
            old(self).work_space.body_list@.len() < 0x7ffe0000,
            starter is Some ==> starter->0@.len() < 0xfffe,
        ensures
            final(self).wf(),
            final(self).renderer_size == renderer_size,
            Self::spec_initialized_bodies(
                old(self).work_space.body_list@,
                final(self).work_space.body_list@,
                renderer_size,
                starter),
    {
        self.renderer_size = renderer_size;
        let ghost pre = self.work_space.body_list@;
        let ghost n0 = pre.len() as int;
        let thickness: i64 = 2 * SCALE;
        let half_x: i64 = fx_div(renderer_size.x, 2 * SCALE);
        let half_y: i64 = fx_div(renderer_size.y, 2 * SCALE);

        let bord_haut: RigidBody = initializer_r(
            c_vect(half_x, 0), 5 * SCALE, 5 * SCALE, 0, fx_mul(renderer_size.x, thickness),
            true, 0, renderer_size.x, thickness, ShapeType::Box, 0);
        let bord_bas: RigidBody = initializer_r(
            c_vect(half_x, renderer_size.y), 5 * SCALE, 5 * SCALE, 0,
            fx_mul(renderer_size.x, thickness),
            true, 0, renderer_size.x, thickness, ShapeType::Box, 0);
        let bord_gauche: RigidBody = initializer_r(
            c_vect(0, half_y), 5 * SCALE, 5 * SCALE, 0, fx_mul(thickness, renderer_size.y),
            true, 0, thickness, renderer_size.y, ShapeType::Box, 0);
        let bord_droit: RigidBody = initializer_r(
            c_vect(renderer_size.x, half_y), 5 * SCALE, 5 * SCALE, 0,
            fx_mul(thickness, renderer_size.y),
            true, 0, thickness, renderer_size.y, ShapeType::Box, 0);
        self.work_space.add_body(bord_haut);
        self.work_space.add_body(bord_bas);
        self.work_space.add_body(bord_gauche);
        self.work_space.add_body(bord_droit);
        proof {
            assert(self.work_space.body_list@.subrange(0, n0) =~= pre);
        }
        let ghost base4 = self.work_space.body_list@;

        match starter {
            Some(positions) => {
                proof {
                    assert(starter->0 == positions);
                }
                let n: usize = positions.len();
                let mut i: usize = 0;
                while i < n
                    invariant
                        i <= n,
                        n < 0xfffe,
                        n == positions@.len(),
                        starter is Some,
                        starter->0 == positions,
                        self.wf(),
                        self.renderer_size == renderer_size,
                        n0 == pre.len(),
                        n0 < 0x7ffe0000,
                        base4.len() == n0 + 4,
                        base4.subrange(0, n0) == pre,
                        self.work_space.body_list@.len() == n0 + 4 + i,
                        self.work_space.body_list@.subrange(0, n0 + 4) == base4,
                        forall|m: int| 0 <= m < i ==> {
                            let b = #[trigger] self.work_space.body_list@[n0 + 4 + m];
                            &&& !b.is_static
                            &&& b.shape is Box
                            &&& b.width == 50 * SCALE
                            &&& b.height == 50 * SCALE
                            &&& b.position == positions@[m]
                        },
                    decreases n - i,
                {
                    let body: RigidBody = initializer_r(
                        positions[i], 5 * SCALE, 20 * SCALE, SCALE / 5, 2500 * SCALE,
                        false, 0, 50 * SCALE, 50 * SCALE, ShapeType::Box,
                        fx_div(fx_mul(20 * SCALE,
                            fx_add(fx_mul(50 * SCALE, 50 * SCALE), fx_mul(50 * SCALE, 50 * SCALE))),
                            12 * SCALE));
                    let ghost before = self.work_space.body_list@;
                    self.work_space.add_body(body);
                    proof {
                        assert(self.work_space.body_list@.subrange(0, n0 + 4)
                            =~= before.subrange(0, n0 + 4));
                        let cur = self.work_space.body_list@;
                        assert forall|m: int| 0 <= m < i
                            implies #[trigger] cur[n0 + 4 + m] == before[n0 + 4 + m] by {
                            assert(cur.subrange(0, before.len() as int) == before);
                            assert(cur.subrange(0, before.len() as int)[n0 + 4 + m]
                                == cur[n0 + 4 + m]);
                        }
                        assert(cur[n0 + 4 + i] == cur.last());
                    }
                    i += 1;
                }
                proof {
                    assert(self.work_space.body_list@.subrange(0, n0) =~= pre);
                    assert(Self::spec_initialized_bodies(
                        pre, self.work_space.body_list@, renderer_size, starter)) by {
                        assert forall|w: int| n0 <= w < n0 + 4
                            implies (#[trigger] self.work_space.body_list@[w]).is_static
                                && self.work_space.body_list@[w].shape is Box by {
                            assert(self.work_space.body_list@[w] == base4[w]);
                        }
                        assert(self.work_space.body_list@[n0] == base4[n0]);
                        assert(self.work_space.body_list@[n0 + 1] == base4[n0 + 1]);
                        assert(self.work_space.body_list@[n0 + 2] == base4[n0 + 2]);
                        assert(self.work_space.body_list@[n0 + 3] == base4[n0 + 3]);
                    }
                }
            },
            None => {
                proof {
                    assert(self.work_space.body_list@.subrange(0, n0 + 4) =~= base4);
                    assert(Self::spec_initialized_bodies(
                        pre, self.work_space.body_list@, renderer_size, starter));
                }
            },
        }
    }
}

} // verus!
