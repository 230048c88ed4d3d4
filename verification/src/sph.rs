//! The smoothed-particle-hydrodynamics solver: density, pressure and
//! viscosity forces over the spatial hash, an optional pointer-driven
//! force field, and boundary reflection.

use vstd::prelude::*;
use crate::fxp::{
    fx_add, fx_add_s, fx_sub, fx_sub_s, fx_mul, fx_mul_s, fx_div, fx_div_s, fx_neg, fx_neg_s,
    fx_min, fx_max, sabs, SCALE, PI_FX,
};
use crate::vec2::{
    Vector2D, mn, sm, dot_s, div_s, vec_zero, spec_mn, spec_sm, spec_scale, spec_div_s,
    spec_dist, spec_len,
};
use crate::fluid::{
    FluidParticles, MIN_SMOOTHING_RADIUS, MAX_SMOOTHING_RADIUS, POS_LIMIT, DEFAULT_COLOR,
};

verus! {

/// The structural failures the engines surface to their caller. Geometric
/// degeneracies are absorbed locally and never reach this type.
#[derive(Clone, Copy, PartialEq, Eq, Structural, Debug)]
pub enum SimError {
    /// An operation was requested before a world or fluid existed.
    Uninitialized,
    /// A range or settings value was rejected at construction time.
    InvalidRange,
    /// A zero density reached a pressure division: a modeling bug, fatal
    /// to the step.
    InvariantViolation,
}

impl SimError {
    /// A short description of the failure.
    pub fn message(&self) -> (r: &'static str)
        ensures
            self is Uninitialized ==> r@ == "no simulation state exists yet"@,
            self is InvalidRange ==> r@ == "value outside the admissible range"@,
            self is InvariantViolation ==> r@ == "zero density in pressure division"@,
    {
        match self {
            SimError::Uninitialized => "no simulation state exists yet",
            SimError::InvalidRange => "value outside the admissible range",
            SimError::InvariantViolation => "zero density in pressure division",
        }
    }
}

/// Six, in fixed-point units.
pub const SIX_FX: i64 = 6 * SCALE;

/// Four, in fixed-point units.
pub const FOUR_FX: i64 = 4 * SCALE;

/// Twelve, in fixed-point units.
pub const TWELVE_FX: i64 = 12 * SCALE;

/// The largest admissible box bound.
pub const MAX_BOX_BOUND: i64 = 1_000_000_000_000_000;

/// The reach of the pointer-driven force field.
pub const INTERACT_RADIUS: i64 = 100 * SCALE;

/// The strength of the pointer-driven force field.
pub const INTERACT_STRENGTH: i64 = 150 * SCALE;

/// The scaling of the force field when repelling instead of attracting.
pub const REPEL_FACTOR: i64 = -150_000_000;

/// The volume normalizer of the density kernel: `pi * h^4 / 6`.
pub open spec fn spec_kernel_volume(h: int) -> int {
    let h2 = fx_mul_s(h, h);
    let h4 = fx_mul_s(h2, h2);
    fx_div_s(fx_mul_s(PI_FX as int, h4), SIX_FX as int)
}

/// The density kernel: `(h - d)^2 / (pi * h^4 / 6)` under the smoothing
/// radius, zero beyond it.
pub open spec fn spec_smoothing_kernel(h: int, d: int) -> int {
    if d >= h {
        0
    } else {
        let hm = fx_sub_s(h, d);
        fx_div_s(fx_mul_s(hm, hm), spec_kernel_volume(h))
    }
}

/// The density kernel's derivative: `12 / (pi * h^4) * (d - h)` under the
/// smoothing radius, zero beyond it.
pub open spec fn spec_smoothing_kernel_derivative(h: int, d: int) -> int {
    if d >= h {
        0
    } else {
        let h2 = fx_mul_s(h, h);
        let h4 = fx_mul_s(h2, h2);
        let scaled = fx_div_s(TWELVE_FX as int, fx_mul_s(PI_FX as int, h4));
        fx_mul_s(fx_sub_s(d, h), scaled)
    }
}

/// The volume normalizer of the viscosity kernel: `pi * h^8 / 4`.
pub open spec fn spec_viscosity_volume(h: int) -> int {
    let h2 = fx_mul_s(h, h);
    let h4 = fx_mul_s(h2, h2);
    let h8 = fx_mul_s(h4, h4);
    fx_div_s(fx_mul_s(PI_FX as int, h8), FOUR_FX as int)
}

/// The viscosity kernel: `(h^2 - d^2)^3 / (pi * h^8 / 4)` under the
/// smoothing radius, zero beyond it.
pub open spec fn spec_viscosity_kernel(h: int, d: int) -> int {
    if d >= h {
        0
    } else {
        let v = fx_sub_s(fx_mul_s(h, h), fx_mul_s(d, d));
        fx_div_s(fx_mul_s(fx_mul_s(v, v), v), spec_viscosity_volume(h))
    }
}

/// An admissible smoothing radius gives positive kernel volumes, so the
/// kernel divisions are well defined.
pub proof fn lemma_kernel_volumes_positive(h: int)
    requires
        MIN_SMOOTHING_RADIUS <= h <= MAX_SMOOTHING_RADIUS,
    ensures
        spec_kernel_volume(h) >= 1,
        spec_viscosity_volume(h) >= 1,
        fx_mul_s(PI_FX as int, fx_mul_s(fx_mul_s(h, h), fx_mul_s(h, h))) >= 1,
{
    let s = SCALE as int;
    crate::fxp::lemma_fx_mul_mono_nonneg(
        MIN_SMOOTHING_RADIUS as int, h, MIN_SMOOTHING_RADIUS as int, h);
    let h2 = fx_mul_s(h, h);
    assert(fx_mul_s(MIN_SMOOTHING_RADIUS as int, MIN_SMOOTHING_RADIUS as int) == 10_000_000) by (nonlinear_arith);
    assert(h2 >= 10_000_000);
    crate::fxp::lemma_fx_mul_mono_nonneg(10_000_000, h2, 10_000_000, h2);
    let h4 = fx_mul_s(h2, h2);
    assert(fx_mul_s(10_000_000, 10_000_000) == 100_000) by (nonlinear_arith);
    assert(h4 >= 100_000);
    crate::fxp::lemma_fx_mul_mono_nonneg(PI_FX as int, PI_FX as int, 100_000, h4);
    let pih4 = fx_mul_s(PI_FX as int, h4);
    assert(fx_mul_s(PI_FX as int, 100_000) == 314_159) by (nonlinear_arith);
    assert(pih4 >= 314_159);
    assert(fx_div_s(pih4, SIX_FX as int) >= fx_div_s(314_159, SIX_FX as int)) by {
        vstd::arithmetic::div_mod::lemma_div_is_ordered(
            314_159 * s, sabs(pih4) * s, SIX_FX as int);
    }
    assert(fx_div_s(314_159, SIX_FX as int) == 52_359) by (nonlinear_arith);

    crate::fxp::lemma_fx_mul_mono_nonneg(100_000, h4, 100_000, h4);
    let h8 = fx_mul_s(h4, h4);
    assert(fx_mul_s(100_000, 100_000) == 10) by (nonlinear_arith);
    assert(h8 >= 10);
    crate::fxp::lemma_fx_mul_mono_nonneg(PI_FX as int, PI_FX as int, 10, h8);
    let pih8 = fx_mul_s(PI_FX as int, h8);
    assert(fx_mul_s(PI_FX as int, 10) == 31) by (nonlinear_arith);
    assert(pih8 >= 31);
    assert(fx_div_s(pih8, FOUR_FX as int) >= fx_div_s(31, FOUR_FX as int)) by {
        vstd::arithmetic::div_mod::lemma_div_is_ordered(
            31 * s, sabs(pih8) * s, FOUR_FX as int);
    }
    assert(fx_div_s(31, FOUR_FX as int) == 7) by (nonlinear_arith);
}

/// The fluid: its particle store, global constants, boundary, and the
/// transient pointer-force state.
#[derive(Debug)]
pub struct Fluid {
    /// The particle store and spatial hash.
    pub particles: FluidParticles,
    /// Downward gravity strength.
    pub gravity: i64,
    /// Which derived quantity drives particle color; a rendering hint
    /// with no physical effect.
    pub visual_filter: u8,
    /// How much perpendicular velocity survives a wall bounce.
    pub collision_restitution: i64,
    /// The strength of the viscosity force.
    pub viscosity_strength: i64,
    /// Whether the pointer-driven force field is active.
    pub interactive_force: bool,
    /// Where the pointer-driven force field sits.
    pub interactive_force_position: Vector2D,
    /// Whether the field attracts (true) or repels.
    pub interactive_force_mode: bool,
    /// The box width the particles reflect inside.
    pub box_bound_x: i64,
    /// The box height the particles reflect inside.
    pub box_bound_y: i64,
}

/// A coordinate that the boundary reflection has passed: clamped onto one
/// of the walls or already inside them (by saturating comparison).
pub open spec fn spec_in_box_coord(x: int, rad: int, b: int) -> bool {
    ||| x == rad
    ||| x == fx_sub_s(b, rad)
    ||| (fx_sub_s(x, rad) >= 0 && fx_add_s(x, rad) <= b)
}

/// One axis of the boundary reflection, in specifications: a particle
/// past a wall is clamped onto it and the perpendicular velocity reverses,
/// damped by the restitution.
pub open spec fn spec_reflect_coord(x: int, v: int, rad: int, b: int, rest: int) -> (int, int) {
    if fx_sub_s(x, rad) < 0 {
        (rad, fx_mul_s(fx_neg_s(v), rest))
    } else if fx_add_s(x, rad) > b {
        (fx_sub_s(b, rad), fx_mul_s(fx_neg_s(v), rest))
    } else {
        (x, v)
    }
}

impl Fluid {
    /// Well-formedness: the particle store is well-formed, and the box
    /// bounds and particle radius are in range.
    pub open spec fn wf(self) -> bool {
        &&& self.particles.wf()
        &&& 0 <= self.box_bound_x <= MAX_BOX_BOUND
        &&& 0 <= self.box_bound_y <= MAX_BOX_BOUND
        &&& 0 <= self.particles.radius <= MAX_BOX_BOUND
    }

    /// A fluid with the default parameters and an empty particle store.
    pub fn new() -> (r: Self)
        ensures
            r.wf(),
            r.particles.spec_len() == 0,
            r.gravity == 0,
            r.collision_restitution == 950_000_000i64,
            r.viscosity_strength == 100_000_000i64,
            !r.interactive_force,
    {
        let particles: FluidParticles = FluidParticles::new(
            SCALE, 5 * SCALE, 750_000_000, 3_500_000_000, 30 * SCALE);
        Fluid {
            particles,
            gravity: 0,
            visual_filter: 0,
            collision_restitution: 950_000_000,
            viscosity_strength: 100_000_000,
            interactive_force: false,
            interactive_force_position: Vector2D { x: 0, y: 0 },
            interactive_force_mode: true,
            box_bound_x: 800 * SCALE,
            box_bound_y: 600 * SCALE,
        }
    }

    /// The density kernel at a distance, under the fluid's smoothing
    /// radius.
    pub fn smoothing_kernel(&self, distance: i64) -> (r: i64)
        requires
            self.wf(),
        ensures
            r == spec_smoothing_kernel(
                self.particles.smoothing_radius as int, distance as int),
    {
        let h: i64 = self.particles.smoothing_radius;
        if distance >= h {
            return 0;
        }
        proof {
            lemma_kernel_volumes_positive(h as int);
        }
        let h2: i64 = fx_mul(h, h);
        let h4: i64 = fx_mul(h2, h2);
        let volume: i64 = fx_div(fx_mul(PI_FX, h4), SIX_FX);
        let hm: i64 = fx_sub(h, distance);
        fx_div(fx_mul(hm, hm), volume)
    }

    /// The density kernel's derivative at a distance.
    pub fn smoothing_kernel_derivative(&self, distance: i64) -> (r: i64)
        requires
            self.wf(),
        ensures
            r == spec_smoothing_kernel_derivative(
                self.particles.smoothing_radius as int, distance as int),
    {
        let h: i64 = self.particles.smoothing_radius;
        if distance >= h {
            return 0;
        }
        proof {
            lemma_kernel_volumes_positive(h as int);
        }
        let h2: i64 = fx_mul(h, h);
        let h4: i64 = fx_mul(h2, h2);
        let scaled: i64 = fx_div(TWELVE_FX, fx_mul(PI_FX, h4));
        fx_mul(fx_sub(distance, h), scaled)
    }

    /// The viscosity kernel at a distance.
    pub fn viscosity_kernel(&self, distance: i64) -> (r: i64)
        requires
            self.wf(),
        ensures
            r == spec_viscosity_kernel(
                self.particles.smoothing_radius as int, distance as int),
    {
        let h: i64 = self.particles.smoothing_radius;
        if distance >= h {
            return 0;
        }
        proof {
            lemma_kernel_volumes_positive(h as int);
        }
        let h2: i64 = fx_mul(h, h);
        let h4: i64 = fx_mul(h2, h2);
        let h8: i64 = fx_mul(h4, h4);
        let volume: i64 = fx_div(fx_mul(PI_FX, h8), FOUR_FX);
        let v: i64 = fx_sub(h2, fx_mul(distance, distance));
        fx_div(fx_mul(fx_mul(v, v), v), volume)
    }

    /// Whether a list of particle indices is exactly the neighbors of
    /// particle `i`: every listed index is a true neighbor and every true
    /// neighbor is listed.
    pub open spec fn spec_neighbor_list(self, i: int, ns: Seq<usize>) -> bool {
        &&& forall|m: int| 0 <= m < ns.len()
            ==> self.particles.spec_neighbor(i, #[trigger] ns[m] as int)
        &&& forall|j: int| self.particles.spec_neighbor(i, j) ==> ns.contains(j as usize)
    }

    /// The density sum over the first `k` listed neighbors, starting from
    /// the particle's own contribution `mass * kernel(0)`.
    pub open spec fn spec_density_sum(self, i: int, ns: Seq<usize>, k: int) -> int
        decreases k,
    {
        let h = self.particles.smoothing_radius as int;
        if k <= 0 {
            fx_mul_s(self.particles.mass as int, spec_smoothing_kernel(h, 0))
        } else {
            fx_add_s(
                self.spec_density_sum(i, ns, k - 1),
                fx_mul_s(
                    self.particles.mass as int,
                    spec_smoothing_kernel(h, spec_dist(
                        self.particles.predicted_positions@[i],
                        self.particles.predicted_positions@[ns[k - 1] as int]))),
            )
        }
    }

    /// The density at a particle: its own contribution plus one kernel
    /// term per true neighbor found through the spatial hash.
    pub fn calculate_density(&self, i: usize) -> (r: i64)
        requires
            self.wf(),
            self.particles.lookup_wf(),
            i < self.particles.spec_len(),
        ensures
            exists|ns: Seq<usize>| #[trigger] self.spec_neighbor_list(i as int, ns)
                && r == self.spec_density_sum(i as int, ns, ns.len() as int),
    {
        let neighbors: Vec<usize> = self.particles.in_radius_neighbors_search(i);
        let mut density: i64 = fx_mul(self.particles.mass, self.smoothing_kernel(0));
        let count: usize = neighbors.len();
        let mut m: usize = 0;
        while m < count
            invariant
                m <= count,
                self.wf(),
                i < self.particles.spec_len(),
                count == neighbors@.len(),
                forall|q: int| 0 <= q < count
                    ==> self.particles.spec_neighbor(i as int, #[trigger] neighbors@[q] as int),
                density == self.spec_density_sum(i as int, neighbors@, m as int),
            decreases count - m,
        {
            let other_i: usize = neighbors[m];
            let distance: i64 = self.particles.predicted_positions[i].dist(
                self.particles.predicted_positions[other_i]);
            let influence: i64 = self.smoothing_kernel(distance);
            density = fx_add(density, fx_mul(self.particles.mass, influence));
            m += 1;
        }
        proof {
            assert(self.spec_neighbor_list(i as int, neighbors@));
        }
        density
    }

    /// Law: the density of a particle with no neighbor within the
    /// smoothing radius is exactly its mass times the kernel at distance
    /// zero.
    pub proof fn lemma_density_isolated(self, i: int, ns: Seq<usize>)
        requires
            self.spec_neighbor_list(i, ns),
            forall|j: int| !self.particles.spec_neighbor(i, j),
        ensures
            self.spec_density_sum(i, ns, ns.len() as int)
                == fx_mul_s(
                    self.particles.mass as int,
                    spec_smoothing_kernel(self.particles.smoothing_radius as int, 0)),
    {
        if ns.len() > 0 {
            assert(self.particles.spec_neighbor(i, ns[0] as int));
        }
    }

    /// The pressure shared between two particles: the mean of their
    /// individual pressures.
    pub fn calculate_shared_pressure(&self, i1: usize, i2: usize) -> (r: i64)
        requires
            self.wf(),
            i1 < self.particles.spec_len(),
            i2 < self.particles.spec_len(),
        ensures
            r == self.spec_shared_pressure(i1 as int, i2 as int),
    {
        let density1: i64 = self.particles.densities[i1];
        let density2: i64 = self.particles.densities[i2];
        let pressure1: i64 = self.particles.calculate_pressure(density1);
        let pressure2: i64 = self.particles.calculate_pressure(density2);
        fx_div(fx_add(pressure1, pressure2), 2 * SCALE)
    }

    /// The shared pressure of a pair, in specifications.
    pub open spec fn spec_shared_pressure(self, i1: int, i2: int) -> int {
        let p1 = fx_mul_s(
            fx_sub_s(self.particles.densities@[i1] as int, self.particles.target_density as int),
            self.particles.pressure_multiplier as int);
        let p2 = fx_mul_s(
            fx_sub_s(self.particles.densities@[i2] as int, self.particles.target_density as int),
            self.particles.pressure_multiplier as int);
        fx_div_s(fx_add_s(p1, p2), 2 * (SCALE as int))
    }

    /// Whether a direction is admissible for a pressure pair: the offset
    /// normalized by the distance, or, between coincident particles, any
    /// direction within unit bounds (drawn at random).
    pub open spec fn spec_pressure_dir_ok(self, i: int, j: int, dir: Vector2D) -> bool {
        let offset = spec_mn(
            self.particles.predicted_positions@[i], self.particles.predicted_positions@[j]);
        let distance = spec_len(offset);
        if distance == 0 {
            -SCALE <= dir.x <= SCALE && -SCALE <= dir.y <= SCALE
        } else {
            dir == spec_div_s(offset, distance)
        }
    }

    /// One neighbor's pressure-force term: the direction scaled by the
    /// shared pressure, the kernel derivative, the mass, and divided by
    /// the neighbor's density.
    pub open spec fn spec_pressure_term(self, i: int, j: int, dir: Vector2D) -> Vector2D {
        let distance = spec_len(spec_mn(
            self.particles.predicted_positions@[i], self.particles.predicted_positions@[j]));
        let slope = spec_smoothing_kernel_derivative(
            self.particles.smoothing_radius as int, distance);
        let shared = self.spec_shared_pressure(i, j);
        spec_div_s(
            spec_scale(spec_scale(spec_scale(dir, shared), slope), self.particles.mass as int),
            self.particles.densities@[j] as int)
    }

    /// The pressure-force sum over the first `k` listed neighbors, given
    /// the direction chosen for each pair.
    pub open spec fn spec_pressure_sum(self, i: int, ns: Seq<usize>, dirs: Seq<Vector2D>, k: int)
        -> Vector2D
        decreases k,
    {
        if k <= 0 {
            Vector2D { x: 0i64, y: 0i64 }
        } else {
            spec_sm(
                self.spec_pressure_sum(i, ns, dirs, k - 1),
                self.spec_pressure_term(i, ns[k - 1] as int, dirs[k - 1]))
        }
    }

    /// A valid outcome of the pressure-force accumulation: the indices are
    /// exactly the true neighbors, every pair's direction is admissible
    /// (coincident pairs draw theirs at random), and the result is the sum
    /// of the terms.
    pub open spec fn spec_pressure_outcome(
        self, i: int, ns: Seq<usize>, dirs: Seq<Vector2D>, out: Vector2D,
    ) -> bool {
        &&& self.spec_neighbor_list(i, ns)
        &&& dirs.len() == ns.len()
        &&& forall|m: int| 0 <= m < ns.len()
            ==> self.spec_pressure_dir_ok(i, ns[m] as int, #[trigger] dirs[m])
        &&& out == self.spec_pressure_sum(i, ns, dirs, ns.len() as int)
    }

    /// The pressure force on a particle: one term per true neighbor found
    /// through the spatial hash. Every neighbor's density must be nonzero;
    /// the step aborts before this point otherwise.
    pub fn calculate_pressure_force(&self, i: usize) -> (r: Vector2D)
        requires
            self.wf(),
            self.particles.lookup_wf(),
            i < self.particles.spec_len(),
            forall|j: int| 0 <= j < self.particles.spec_len()
                ==> #[trigger] self.particles.densities@[j] != 0,
        ensures
            exists|ns: Seq<usize>, dirs: Seq<Vector2D>|
                #[trigger] self.spec_pressure_outcome(i as int, ns, dirs, r),
    {
        let neighbors: Vec<usize> = self.particles.in_radius_neighbors_search(i);
        let mut pressure_force: Vector2D = vec_zero();
        let ghost mut dirs: Seq<Vector2D> = Seq::empty();
        let count: usize = neighbors.len();
        let mut m: usize = 0;
        while m < count
            invariant
                m <= count,
                self.wf(),
                i < self.particles.spec_len(),
                count == neighbors@.len(),
                dirs.len() == m,
                forall|j: int| 0 <= j < self.particles.spec_len()
                    ==> #[trigger] self.particles.densities@[j] != 0,
                forall|q: int| 0 <= q < count
                    ==> self.particles.spec_neighbor(i as int, #[trigger] neighbors@[q] as int),
                forall|q: int| 0 <= q < m
                    ==> self.spec_pressure_dir_ok(
                        i as int, neighbors@[q] as int, #[trigger] dirs[q]),
                pressure_force == self.spec_pressure_sum(i as int, neighbors@, dirs, m as int),
            decreases count - m,
        {
            let other_i: usize = neighbors[m];
            let offset: Vector2D = mn(
                self.particles.predicted_positions[i],
                self.particles.predicted_positions[other_i]);
            let distance: i64 = offset.len();
            let direction: Vector2D = if distance == 0 {
                crate::vec2::random_unit_vector()
            } else {
                div_s(offset, distance)
            };
            let slope: i64 = self.smoothing_kernel_derivative(distance);
            let density: i64 = self.particles.densities[other_i];
            let shared_pressure: i64 = self.calculate_shared_pressure(i, other_i);
            let term: Vector2D = div_s(
                dot_s(dot_s(dot_s(direction, shared_pressure), slope), self.particles.mass),
                density);
            let ghost old_dirs = dirs;
            proof {
                dirs = dirs.push(direction);
            }
            pressure_force = sm(pressure_force, term);
            proof {
                assert(self.spec_pressure_dir_ok(i as int, other_i as int, direction));
                assert forall|q: int| 0 <= q < m + 1
                    implies self.spec_pressure_dir_ok(
                        i as int, neighbors@[q] as int, #[trigger] dirs[q]) by {
                    if q < m {
                        assert(dirs[q] == old_dirs[q]);
                    }
                }
                assert(self.spec_pressure_sum(i as int, neighbors@, dirs, m as int)
                    == self.spec_pressure_sum(i as int, neighbors@, old_dirs, m as int)) by {
                    lemma_pressure_sum_prefix(*self, i as int, neighbors@, old_dirs, dirs, m as int);
                }
                assert(term == self.spec_pressure_term(
                    i as int, neighbors@[m as int] as int, dirs[m as int]));
            }
            m += 1;
        }
        proof {
            assert(self.spec_pressure_outcome(i as int, neighbors@, dirs, pressure_force));
        }
        pressure_force
    }

    /// The viscosity sum over the first `k` listed neighbors: the velocity
    /// differences weighted by the viscosity kernel.
    pub open spec fn spec_viscosity_sum(self, i: int, ns: Seq<usize>, k: int) -> Vector2D
        decreases k,
    {
        if k <= 0 {
            Vector2D { x: 0i64, y: 0i64 }
        } else {
            let j = ns[k - 1] as int;
            let distance = spec_dist(
                self.particles.predicted_positions@[i], self.particles.predicted_positions@[j]);
            spec_sm(
                self.spec_viscosity_sum(i, ns, k - 1),
                spec_scale(
                    spec_mn(self.particles.velocities@[j], self.particles.velocities@[i]),
                    spec_viscosity_kernel(self.particles.smoothing_radius as int, distance)),
            )
        }
    }

    /// The viscosity force on a particle: the kernel-weighted velocity
    /// differences toward its true neighbors, scaled by the viscosity
    /// strength.
    pub fn calculate_viscosity_force(&self, i: usize) -> (r: Vector2D)
        requires
            self.wf(),
            self.particles.lookup_wf(),
            i < self.particles.spec_len(),
        ensures
            exists|ns: Seq<usize>| #[trigger] self.spec_neighbor_list(i as int, ns)
                && r == spec_scale(
                    self.spec_viscosity_sum(i as int, ns, ns.len() as int),
                    self.viscosity_strength as int),
    {
        let neighbors: Vec<usize> = self.particles.in_radius_neighbors_search(i);
        let mut viscosity_force: Vector2D = vec_zero();
        let count: usize = neighbors.len();
        let mut m: usize = 0;
        while m < count
            invariant
                m <= count,
                self.wf(),
                i < self.particles.spec_len(),
                count == neighbors@.len(),
                forall|q: int| 0 <= q < count
                    ==> self.particles.spec_neighbor(i as int, #[trigger] neighbors@[q] as int),
                viscosity_force == self.spec_viscosity_sum(i as int, neighbors@, m as int),
            decreases count - m,
        {
            let other_i: usize = neighbors[m];
            let distance: i64 = self.particles.predicted_positions[i].dist(
                self.particles.predicted_positions[other_i]);
            let influence: i64 = self.viscosity_kernel(distance);
            let velocity_difference: Vector2D = mn(
                self.particles.velocities[other_i], self.particles.velocities[i]);
            viscosity_force = sm(viscosity_force, dot_s(velocity_difference, influence));
            m += 1;
        }
        proof {
            assert(self.spec_neighbor_list(i as int, neighbors@));
        }
        dot_s(viscosity_force, self.viscosity_strength)
    }

    /// The pointer-force term on one particle: inside the field's radius,
    /// a pull toward the field center with linear falloff, damped by the
    /// particle's own velocity; reversed and weakened when repelling.
    pub open spec fn spec_interaction_force(
        self, position: Vector2D, radius: int, strength: int, i: int,
    ) -> Vector2D {
        let dst = spec_dist(self.particles.positions@[i], position);
        let base = if dst < radius {
            let dir = if dst == 0 {
                Vector2D { x: 0i64, y: 0i64 }
            } else {
                spec_div_s(spec_mn(position, self.particles.positions@[i]), dst)
            };
            let center_t = fx_sub_s(SCALE as int, fx_div_s(dst, radius));
            spec_scale(
                spec_mn(spec_scale(dir, strength), self.particles.velocities@[i]), center_t)
        } else {
            Vector2D { x: 0i64, y: 0i64 }
        };
        spec_scale(base, if self.interactive_force_mode { SCALE as int } else { REPEL_FACTOR as int })
    }

    /// The pointer-force term on one particle.
    pub fn calculate_interaction_force(
        &self,
        position: Vector2D,
        radius: i64,
        strength: i64,
        i: usize,
    ) -> (r: Vector2D)
        requires
            self.wf(),
            i < self.particles.spec_len(),
            radius > 0,
        ensures
            r == self.spec_interaction_force(position, radius as int, strength as int, i as int),
    {
        let dst: i64 = self.particles.positions[i].dist(position);
        let base: Vector2D = if dst < radius {
            let direction: Vector2D = if dst == 0 {
                vec_zero()
            } else {
                div_s(mn(position, self.particles.positions[i]), dst)
            };
            let center_t: i64 = fx_sub(SCALE, fx_div(dst, radius));
            dot_s(mn(dot_s(direction, strength), self.particles.velocities[i]), center_t)
        } else {
            vec_zero()
        };
        dot_s(base, if self.interactive_force_mode { SCALE } else { REPEL_FACTOR })
    }

    /// Reflects one particle off the bounding box: each axis past a wall
    /// is clamped onto it and that velocity component reverses, damped by
    /// the restitution. Afterward the particle lies within the box.
    pub fn resolve_collision(&mut self, i: usize)
        requires
            old(self).wf(),
            i < old(self).particles.spec_len(),
        ensures
            final(self).wf(),
            final(self).particles.spec_len() == old(self).particles.spec_len(),
            *final(self) == (Fluid {
                particles: FluidParticles {
                    positions: final(self).particles.positions,
                    velocities: final(self).particles.velocities,
                    ..old(self).particles
                },
                ..*old(self)
            }),
            forall|j: int| 0 <= j < old(self).particles.spec_len() && j != i
                ==> final(self).particles.positions@[j] == old(self).particles.positions@[j]
                    && final(self).particles.velocities@[j]
                        == old(self).particles.velocities@[j],
            ({
                let p = old(self).particles.positions@[i as int];
                let v = old(self).particles.velocities@[i as int];
                let rad = old(self).particles.radius as int;
                let rest = old(self).collision_restitution as int;
                let rx = spec_reflect_coord(
                    p.x as int, v.x as int, rad, old(self).box_bound_x as int, rest);
                let ry = spec_reflect_coord(
                    p.y as int, v.y as int, rad, old(self).box_bound_y as int, rest);
                final(self).particles.positions@[i as int]
                    == (Vector2D { x: rx.0 as i64, y: ry.0 as i64 })
                    && final(self).particles.velocities@[i as int]
                        == (Vector2D { x: rx.1 as i64, y: ry.1 as i64 })
            }),
            spec_in_box_coord(
                final(self).particles.positions@[i as int].x as int,
                old(self).particles.radius as int,
                old(self).box_bound_x as int),
            spec_in_box_coord(
                final(self).particles.positions@[i as int].y as int,
                old(self).particles.radius as int,
                old(self).box_bound_y as int),
    {
        let mut position: Vector2D = self.particles.positions[i];
        let mut velocity: Vector2D = self.particles.velocities[i];
        let rad: i64 = self.particles.radius;
        let rest: i64 = self.collision_restitution;

        if fx_sub(position.x, rad) < 0 {
            position.x = rad;
            velocity.x = fx_mul(fx_neg(velocity.x), rest);
        } else if fx_add(position.x, rad) > self.box_bound_x {
            position.x = fx_sub(self.box_bound_x, rad);
            velocity.x = fx_mul(fx_neg(velocity.x), rest);
        }
        if fx_sub(position.y, rad) < 0 {
            position.y = rad;
            velocity.y = fx_mul(fx_neg(velocity.y), rest);
        } else if fx_add(position.y, rad) > self.box_bound_y {
            position.y = fx_sub(self.box_bound_y, rad);
            velocity.y = fx_mul(fx_neg(velocity.y), rest);
        }

        self.particles.positions.set(i, position);
        self.particles.velocities.set(i, velocity);
    }
}


impl Fluid {
    /// One external tick of the fluid: integrate gravity and the optional
    /// pointer force into the velocities and predict positions; rebuild
    /// the spatial hash; compute densities; abort with a fatal error if
    /// any density truncated to zero (positions are then untouched);
    /// otherwise apply pressure and viscosity accelerations, move the
    /// particles, and reflect them off the bounding box, inside which
    /// every particle then lies.
    pub fn update(&mut self, dt: i64) -> (r: Result<(), SimError>)
        requires
            old(self).wf(),
        ensures
            final(self).wf(),
            final(self).particles.lookup_wf(),
            final(self).particles.spec_len() == old(self).particles.spec_len(),
            final(self).box_bound_x == old(self).box_bound_x,
            final(self).box_bound_y == old(self).box_bound_y,
            final(self).particles.radius == old(self).particles.radius,
            r is Err ==> final(self).particles.positions@ == old(self).particles.positions@
                && (exists|i: int| 0 <= i < final(self).particles.spec_len()
                    && final(self).particles.densities@[i] == 0)
                && r == Result::<(), SimError>::Err(SimError::InvariantViolation),
            r is Ok ==> forall|i: int| 0 <= i < final(self).particles.spec_len()
                ==> #[trigger] final(self).particles.densities@[i] != 0,
            r is Ok ==> forall|i: int| 0 <= i < final(self).particles.spec_len()
                ==> spec_in_box_coord(
                        (#[trigger] final(self).particles.positions@[i]).x as int,
                        old(self).particles.radius as int,
                        old(self).box_bound_x as int)
                    && spec_in_box_coord(
                        final(self).particles.positions@[i].y as int,
                        old(self).particles.radius as int,
                        old(self).box_bound_y as int),
    {
        let n: usize = self.particles.len();
        let down: Vector2D = Vector2D { x: 0, y: SCALE };

        // gravity, the pointer force, and the predicted positions
        let mut i: usize = 0;
        while i < n
            invariant
                i <= n,
                n == old(self).particles.spec_len(),
                old(self).wf(),
                self.wf(),
                *self == (Fluid {
                    particles: FluidParticles {
                        velocities: self.particles.velocities,
                        predicted_positions: self.particles.predicted_positions,
                        ..old(self).particles
                    },
                    ..*old(self)
                }),
                down == (Vector2D { x: 0i64, y: SCALE }),
            decreases n - i,
        {
            let v0: Vector2D = self.particles.velocities[i];
            let v1: Vector2D = sm(v0, dot_s(dot_s(down, self.gravity), dt));
            self.particles.velocities.set(i, v1);
            if self.interactive_force {
                let f: Vector2D = self.calculate_interaction_force(
                    self.interactive_force_position, INTERACT_RADIUS, INTERACT_STRENGTH, i);
                let v2: Vector2D = sm(self.particles.velocities[i], f);
                self.particles.velocities.set(i, v2);
            }
            let v: Vector2D = self.particles.velocities[i];
            let raw: Vector2D = sm(self.particles.positions[i], dot_s(v, dt));
            let clamped: Vector2D = Vector2D {
                x: fx_max(fx_min(raw.x, POS_LIMIT), -POS_LIMIT),
                y: fx_max(fx_min(raw.y, POS_LIMIT), -POS_LIMIT),
            };
            self.particles.predicted_positions.set(i, clamped);
            i += 1;
        }

        // rebuild the spatial hash from the predicted positions
        self.particles.update_spatial_lookup();

        // densities
        let mut new_densities: Vec<i64> = Vec::new();
        let mut di: usize = 0;
        while di < n
            invariant
                di <= n,
                n == self.particles.spec_len(),
                self.wf(),
                self.particles.lookup_wf(),
                new_densities@.len() == di,
            decreases n - di,
        {
            let d: i64 = self.calculate_density(di);
            new_densities.push(d);
            di += 1;
        }
        let ghost before_densities = *self;
        self.particles.densities = new_densities;
        proof {
            crate::fluid::lemma_lookup_wf_stable(
                before_densities.particles, self.particles);
        }

        // a zero density would poison the pressure division: abort
        let mut ci: usize = 0;
        while ci < n
            invariant
                ci <= n,
                n == self.particles.spec_len(),
                self.wf(),
                self.particles.lookup_wf(),
                self.particles.positions@ == old(self).particles.positions@,
                self.box_bound_x == old(self).box_bound_x,
                self.box_bound_y == old(self).box_bound_y,
                self.particles.radius == old(self).particles.radius,
                forall|j: int| 0 <= j < ci ==> #[trigger] self.particles.densities@[j] != 0,
            decreases n - ci,
        {
            if self.particles.densities[ci] == 0 {
                return Err(SimError::InvariantViolation);
            }
            ci += 1;
        }

        // pressure accelerations
        let mut pfs: Vec<Vector2D> = Vec::new();
        let mut pi: usize = 0;
        while pi < n
            invariant
                pi <= n,
                n == self.particles.spec_len(),
                self.wf(),
                self.particles.lookup_wf(),
                pfs@.len() == pi,
                forall|j: int| 0 <= j < n ==> #[trigger] self.particles.densities@[j] != 0,
            decreases n - pi,
        {
            let pf: Vector2D = self.calculate_pressure_force(pi);
            pfs.push(pf);
            pi += 1;
        }
        let mut ai: usize = 0;
        while ai < n
            invariant
                ai <= n,
                n == self.particles.spec_len(),
                self.wf(),
                self.particles.lookup_wf(),
                pfs@.len() == n,
                self.particles.positions@ == old(self).particles.positions@,
                self.box_bound_x == old(self).box_bound_x,
                self.box_bound_y == old(self).box_bound_y,
                self.particles.radius == old(self).particles.radius,
                forall|j: int| 0 <= j < n ==> #[trigger] self.particles.densities@[j] != 0,
            decreases n - ai,
        {
            let ghost before = *self;
            let density: i64 = self.particles.densities[ai];
            let pressure_acceleration: Vector2D = div_s(pfs[ai], density);
            let v: Vector2D = sm(
                self.particles.velocities[ai], dot_s(pressure_acceleration, dt));
            self.particles.velocities.set(ai, v);
            proof {
                crate::fluid::lemma_lookup_wf_stable(before.particles, self.particles);
            }
            ai += 1;
        }

        // viscosity accelerations
        let mut vfs: Vec<Vector2D> = Vec::new();
        let mut vi: usize = 0;
        while vi < n
            invariant
                vi <= n,
                n == self.particles.spec_len(),
                self.wf(),
                self.particles.lookup_wf(),
                vfs@.len() == vi,
                self.particles.positions@ == old(self).particles.positions@,
                self.box_bound_x == old(self).box_bound_x,
                self.box_bound_y == old(self).box_bound_y,
                self.particles.radius == old(self).particles.radius,
                forall|j: int| 0 <= j < n ==> #[trigger] self.particles.densities@[j] != 0,
            decreases n - vi,
        {
            let vf: Vector2D = self.calculate_viscosity_force(vi);
            vfs.push(vf);
            vi += 1;
        }

        // move and reflect
        let mut mi: usize = 0;
        while mi < n
            invariant
                mi <= n,
                n == self.particles.spec_len(),
                self.wf(),
                self.particles.lookup_wf(),
                vfs@.len() == n,
                self.box_bound_x == old(self).box_bound_x,
                self.box_bound_y == old(self).box_bound_y,
                self.particles.radius == old(self).particles.radius,
                forall|j: int| 0 <= j < n ==> #[trigger] self.particles.densities@[j] != 0,
                forall|j: int| 0 <= j < mi
                    ==> spec_in_box_coord(
                            (#[trigger] self.particles.positions@[j]).x as int,
                            old(self).particles.radius as int,
                            old(self).box_bound_x as int)
                        && spec_in_box_coord(
                            self.particles.positions@[j].y as int,
                            old(self).particles.radius as int,
                            old(self).box_bound_y as int),
            decreases n - mi,
        {
            let ghost before_move = *self;
            let v: Vector2D = sm(self.particles.velocities[mi], dot_s(vfs[mi], dt));
            self.particles.velocities.set(mi, v);
            let p: Vector2D = sm(self.particles.positions[mi], dot_s(v, dt));
            self.particles.positions.set(mi, p);
            self.resolve_collision(mi);
            proof {
                crate::fluid::lemma_lookup_wf_stable(before_move.particles, self.particles);
            }
            mi += 1;
        }
        Ok(())
    }
}

/// The runtime-tunable parameter bundle of the fluid.
#[derive(Clone, Copy, PartialEq, Eq, Structural, Debug)]
pub struct EventSettings {
    /// How much perpendicular velocity survives a wall bounce.
    pub collision_restitution: i64,
    /// Downward gravity strength.
    pub gravity: i64,
    /// The rest density the pressure drives toward.
    pub target_density: i64,
    /// The mass of every particle.
    pub mass: i64,
    /// The stiffness converting density error into pressure.
    pub pressure_stiffness: i64,
    /// Which derived quantity drives particle color; zero to three.
    pub visual_filter: u8,
    /// The kernel support radius.
    pub smoothing_radius: i64,
    /// The strength of the viscosity force.
    pub viscosity_strength: i64,
}

/// The renderable snapshot of the fluid: one entry per particle. The
/// snapshot is a function of the state alone, so two snapshots with no
/// step between them are identical.
#[derive(Clone, Debug)]
pub struct FluidSnapshot {
    /// Particle positions.
    pub positions: Vec<Vector2D>,
    /// Particle velocities.
    pub velocities: Vec<Vector2D>,
    /// Particle densities.
    pub densities: Vec<i64>,
    /// Particle colors, as RGBA words.
    pub colors: Vec<u32>,
}

impl crate::DataToSend for FluidSnapshot {

}

/// Copies a point list element by element.
fn copy_points(v: &Vec<Vector2D>) -> (r: Vec<Vector2D>)
    ensures
        r@ == v@,
{
    let mut out: Vec<Vector2D> = Vec::new();
    let n: usize = v.len();
    let mut i: usize = 0;
    while i < n
        invariant
            i <= n,
            n == v@.len(),
            out@ == v@.take(i as int),
        decreases n - i,
    {
        out.push(v[i]);
        proof {
            assert(out@ =~= v@.take(i + 1 as int));
        }
        i += 1;
    }
    proof {
        assert(out@ =~= v@);
    }
    out
}

/// Copies a scalar list element by element.
fn copy_scalars(v: &Vec<i64>) -> (r: Vec<i64>)
    ensures
        r@ == v@,
{
    let mut out: Vec<i64> = Vec::new();
    let n: usize = v.len();
    let mut i: usize = 0;
    while i < n
        invariant
            i <= n,
            n == v@.len(),
            out@ == v@.take(i as int),
        decreases n - i,
    {
        out.push(v[i]);
        proof {
            assert(out@ =~= v@.take(i + 1 as int));
        }
        i += 1;
    }
    proof {
        assert(out@ =~= v@);
    }
    out
}

/// Copies a color list element by element.
fn copy_colors(v: &Vec<u32>) -> (r: Vec<u32>)
    ensures
        r@ == v@,
{
    let mut out: Vec<u32> = Vec::new();
    let n: usize = v.len();
    let mut i: usize = 0;
    while i < n
        invariant
            i <= n,
            n == v@.len(),
            out@ == v@.take(i as int),
        decreases n - i,
    {
        out.push(v[i]);
        proof {
            assert(out@ =~= v@.take(i + 1 as int));
        }
        i += 1;
    }
    proof {
        assert(out@ =~= v@);
    }
    out
}

impl Fluid {
    /// Whether a settings bundle is admissible: the smoothing radius in
    /// its range, a positive mass, and a known visual filter.
    pub open spec fn spec_settings_ok(settings: EventSettings) -> bool {
        &&& MIN_SMOOTHING_RADIUS <= settings.smoothing_radius <= MAX_SMOOTHING_RADIUS
        &&& settings.mass > 0
        &&& settings.visual_filter <= 3
    }

    /// Applies a settings bundle: an inadmissible bundle is rejected whole
    /// with a range error and nothing changes. Selecting the plain visual
    /// filter resets every color to the default.
    pub fn apply_settings(&mut self, settings: EventSettings) -> (r: Result<(), SimError>)
        requires
            old(self).wf(),
        ensures
            final(self).wf(),
            r is Ok <==> Self::spec_settings_ok(settings),
            r is Err ==> *final(self) == *old(self)
                && r == Result::<(), SimError>::Err(SimError::InvalidRange),
            r is Ok ==> {
                &&& *final(self) == (Fluid {
                    particles: FluidParticles {
                        target_density: settings.target_density,
                        mass: settings.mass,
                        pressure_multiplier: settings.pressure_stiffness,
                        smoothing_radius: settings.smoothing_radius,
                        colors: final(self).particles.colors,
                        ..old(self).particles
                    },
                    collision_restitution: settings.collision_restitution,
                    gravity: settings.gravity,
                    visual_filter: settings.visual_filter,
                    viscosity_strength: settings.viscosity_strength,
                    ..*old(self)
                })
                &&& final(self).particles.colors@.len() == old(self).particles.colors@.len()
                &&& settings.visual_filter != 0
                    ==> final(self).particles.colors@ == old(self).particles.colors@
                &&& settings.visual_filter == 0 ==> forall|i: int|
                    0 <= i < final(self).particles.spec_len()
                    ==> #[trigger] final(self).particles.colors@[i] == crate::fluid::DEFAULT_COLOR
            },
    {
        if settings.smoothing_radius < crate::fluid::MIN_SMOOTHING_RADIUS
            || settings.smoothing_radius > crate::fluid::MAX_SMOOTHING_RADIUS
            || settings.mass <= 0
            || settings.visual_filter > 3
        {
            return Err(SimError::InvalidRange);
        }
        self.collision_restitution = settings.collision_restitution;
        self.gravity = settings.gravity;
        self.particles.target_density = settings.target_density;
        self.particles.mass = settings.mass;
        self.particles.pressure_multiplier = settings.pressure_stiffness;
        self.visual_filter = settings.visual_filter;
        self.particles.smoothing_radius = settings.smoothing_radius;
        self.viscosity_strength = settings.viscosity_strength;
        if self.visual_filter == 0 {
            let n: usize = self.particles.colors.len();
            let mut i: usize = 0;
            while i < n
                invariant
                    i <= n,
                    self.particles.colors@.len() == n,
                    *self == (Fluid {
                        particles: FluidParticles {
                            colors: self.particles.colors,
                            target_density: settings.target_density,
                            mass: settings.mass,
                            pressure_multiplier: settings.pressure_stiffness,
                            smoothing_radius: settings.smoothing_radius,
                            ..old(self).particles
                        },
                        collision_restitution: settings.collision_restitution,
                        gravity: settings.gravity,
                        visual_filter: settings.visual_filter,
                        viscosity_strength: settings.viscosity_strength,
                        ..*old(self)
                    }),
                    forall|j: int| 0 <= j < i
                        ==> #[trigger] self.particles.colors@[j]
                            == crate::fluid::DEFAULT_COLOR,
                decreases n - i,
            {
                self.particles.colors.set(i, crate::fluid::DEFAULT_COLOR);
                i += 1;
            }
        }
        Ok(())
    }

    /// Replaces the particle colors; the list must match the particle
    /// count exactly. A rendering hint with no physical effect.
    pub fn set_colors(&mut self, colors: Vec<u32>) -> (r: Result<(), SimError>)
        requires
            old(self).wf(),
        ensures
            final(self).wf(),
            r is Ok <==> colors@.len() == old(self).particles.spec_len(),
            r is Err ==> *final(self) == *old(self)
                && r == Result::<(), SimError>::Err(SimError::InvalidRange),
            r is Ok ==> *final(self) == (Fluid {
                particles: FluidParticles { colors, ..old(self).particles },
                ..*old(self)
            }),
    {
        if colors.len() != self.particles.positions.len() {
            return Err(SimError::InvalidRange);
        }
        self.particles.colors = colors;
        Ok(())
    }

    /// Positions and activates the pointer-driven force field.
    pub fn apply_interactive_force(&mut self, position: Vector2D, attract_or_repel: bool)
        ensures
            *final(self) == (Fluid {
                interactive_force: true,
                interactive_force_position: position,
                interactive_force_mode: attract_or_repel,
                ..*old(self)
            }),
    {
        self.interactive_force = true;
        self.interactive_force_position = position;
        self.interactive_force_mode = attract_or_repel;
    }

    /// Switches the pointer-driven force field on or off.
    pub fn set_interactive_force(&mut self, enabled: bool)
        ensures
            *final(self) == (Fluid { interactive_force: enabled, ..*old(self) }),
    {
        self.interactive_force = enabled;
    }

    /// Whether every position of a list lies inside the coordinate range.
    pub open spec fn spec_positions_in_range(ps: Seq<Vector2D>) -> bool {
        forall|m: int| 0 <= m < ps.len()
            ==> -POS_LIMIT <= (#[trigger] ps[m]).x <= POS_LIMIT
                && -POS_LIMIT <= ps[m].y <= POS_LIMIT
    }

    /// The state after a successful initialization: the bounds are taken
    /// from the renderer size, the old particles are untouched, and one
    /// resting particle in the default color stands per starter position,
    /// in order. Nothing else changes.
    pub open spec fn spec_initialized(
        pre: Fluid, post: Fluid, renderer_size: Vector2D, starter: Option<Vec<Vector2D>>,
    ) -> bool {
        let n0 = pre.particles.spec_len() as int;
        let added = if starter is Some { starter->0@.len() as int } else { 0 };
        &&& post.box_bound_x == renderer_size.x
        &&& post.box_bound_y == renderer_size.y
        &&& post.particles.spec_len() == n0 + added
        &&& post.particles.positions@.subrange(0, n0) == pre.particles.positions@
        &&& post.particles.velocities@.subrange(0, n0) == pre.particles.velocities@
        &&& forall|m: int| 0 <= m < added ==> {
            &&& (#[trigger] post.particles.positions@[n0 + m]) == starter->0@[m]
            &&& post.particles.predicted_positions@[n0 + m] == starter->0@[m]
            &&& post.particles.velocities@[n0 + m] == (Vector2D { x: 0i64, y: 0i64 })
            &&& post.particles.densities@[n0 + m] == 0
            &&& post.particles.colors@[n0 + m] == DEFAULT_COLOR
        }
        &&& post == (Fluid {
            particles: post.particles,
            box_bound_x: renderer_size.x,
            box_bound_y: renderer_size.y,
            ..pre
        })
    }

    /// Whether an initialization request is admissible: the bounds lie in
    /// range and, with a starter, the list fits and every position lies in
    /// the coordinate range.
    pub open spec fn spec_init_ok(
        renderer_size: Vector2D, starter: Option<Vec<Vector2D>>, n0: nat,
    ) -> bool {
        &&& 0 <= renderer_size.x <= MAX_BOX_BOUND
        &&& 0 <= renderer_size.y <= MAX_BOX_BOUND
        &&& starter is Some ==> {
            &&& starter->0@.len() < 0xfffffff
            &&& n0 + starter->0@.len() < 0xfffffff
            &&& Self::spec_positions_in_range(starter->0@)
        }
    }

    /// Seeds the fluid for a renderer size: the box bounds are taken from
    /// it, and one resting particle in the default color is appended per
    /// starter position, in order. An out-of-range bound or position is
    /// rejected whole, before anything changes.
    #[verifier::rlimit(100)]
    #[verifier::spinoff_prover]
    pub fn initialize(&mut self, renderer_size: Vector2D, starter: Option<Vec<Vector2D>>)
        -> (r: Result<(), SimError>)
        requires
            old(self).wf(),
        ensures
            final(self).wf(),
            r is Ok <==> Self::spec_init_ok(
                renderer_size, starter, old(self).particles.spec_len()),
            r is Err ==> *final(self) == *old(self)
                && r == Result::<(), SimError>::Err(SimError::InvalidRange),
            r is Ok ==> Self::spec_initialized(
                *old(self), *final(self), renderer_size, starter),
    {
        if renderer_size.x < 0 || renderer_size.x > MAX_BOX_BOUND
            || renderer_size.y < 0 || renderer_size.y > MAX_BOX_BOUND
        {
            return Err(SimError::InvalidRange);
        }
        match starter {
            Some(positions) => {
                proof {
                    assert(starter->0 == positions);
                }
                let count: usize = positions.len();
                if count >= 0xfffffff {
                    return Err(SimError::InvalidRange);
                }
                if self.particles.len() >= 0xfffffff - count {
                    return Err(SimError::InvalidRange);
                }
                let ghost cap_ok = old(self).particles.spec_len() + count < 0xfffffff;
                proof {
                    assert(cap_ok);
                }
                // validate every position before touching any state
                let mut v: usize = 0;
                while v < count
                    invariant
                        v <= count,
                        count == positions@.len(),
                        starter is Some,
                        starter->0 == positions,
                        count < 0xfffffff,
                        0 <= renderer_size.x <= MAX_BOX_BOUND,
                        0 <= renderer_size.y <= MAX_BOX_BOUND,
                        old(self).wf(),
                        old(self).particles.spec_len() + count < 0xfffffff,
                        *self == *old(self),
                        forall|m: int| 0 <= m < v
                            ==> -POS_LIMIT <= (#[trigger] positions@[m]).x <= POS_LIMIT
                                && -POS_LIMIT <= positions@[m].y <= POS_LIMIT,
                    decreases count - v,
                {
                    let p: Vector2D = positions[v];
                    if p.x < -POS_LIMIT || p.x > POS_LIMIT
                        || p.y < -POS_LIMIT || p.y > POS_LIMIT
                    {
                        proof {
                            assert(positions@[v as int] == p);
                            assert(!Self::spec_positions_in_range(positions@)) by {
                                if Self::spec_positions_in_range(positions@) {
                                    assert(-POS_LIMIT <= (positions@[v as int]).x <= POS_LIMIT
                                        && -POS_LIMIT <= positions@[v as int].y <= POS_LIMIT);
                                }
                            }
                        }
                        return Err(SimError::InvalidRange);
                    }
                    v += 1;
                }
                proof {
                    assert(Self::spec_positions_in_range(positions@));
                    assert(Self::spec_init_ok(
                        renderer_size, starter, old(self).particles.spec_len()));
                }
                self.box_bound_x = renderer_size.x;
                self.box_bound_y = renderer_size.y;
                let ghost base = *self;
                let ghost n0 = self.particles.spec_len() as int;
                let mut i: usize = 0;
                while i < count
                    invariant
                        i <= count,
                        count == positions@.len(),
                        count < 0xfffffff,
                        starter is Some,
                        starter->0 == positions,
                        0 <= renderer_size.x <= MAX_BOX_BOUND,
                        0 <= renderer_size.y <= MAX_BOX_BOUND,
                        base.particles.spec_len() == n0,
                        n0 == old(self).particles.spec_len(),
                        base == (Fluid {
                            box_bound_x: renderer_size.x,
                            box_bound_y: renderer_size.y,
                            ..*old(self)
                        }),
                        n0 + count < 0xfffffff,
                        self.wf(),
                        Self::spec_positions_in_range(positions@),
                        self.particles.spec_len() == n0 + i,
                        self.particles.positions@.subrange(0, n0)
                            == base.particles.positions@,
                        self.particles.velocities@.subrange(0, n0)
                            == base.particles.velocities@,
                        forall|m: int| 0 <= m < i ==> {
                            &&& (#[trigger] self.particles.positions@[n0 + m]) == positions@[m]
                            &&& self.particles.predicted_positions@[n0 + m] == positions@[m]
                            &&& self.particles.velocities@[n0 + m]
                                == (Vector2D { x: 0i64, y: 0i64 })
                            &&& self.particles.densities@[n0 + m] == 0
                            &&& self.particles.colors@[n0 + m] == DEFAULT_COLOR
                        },
                        *self == (Fluid { particles: self.particles, ..base }),
                    decreases count - i,
                {
                    let p: Vector2D = positions[i];
                    proof {
                        assert(positions@[i as int] == p);
                        assert(-POS_LIMIT <= p.x <= POS_LIMIT && -POS_LIMIT <= p.y <= POS_LIMIT);
                    }
                    let ghost before = self.particles;
                    self.particles.push(p);
                    proof {
                        assert(self.particles.positions@.subrange(0, n0)
                            =~= before.positions@.subrange(0, n0));
                        assert(self.particles.velocities@.subrange(0, n0)
                            =~= before.velocities@.subrange(0, n0));
                    }
                    i += 1;
                }
                proof {
                    let n0g = old(self).particles.spec_len() as int;
                    assert(self.particles.spec_len() == n0g + positions@.len());
                    assert(self.particles.positions@.subrange(0, n0g)
                        == old(self).particles.positions@);
                    assert(self.particles.velocities@.subrange(0, n0g)
                        == old(self).particles.velocities@);
                    assert forall|m: int| 0 <= m < positions@.len() implies {
                        &&& (#[trigger] self.particles.positions@[n0g + m]) == starter->0@[m]
                        &&& self.particles.predicted_positions@[n0g + m] == starter->0@[m]
                        &&& self.particles.velocities@[n0g + m]
                            == (Vector2D { x: 0i64, y: 0i64 })
                        &&& self.particles.densities@[n0g + m] == 0
                        &&& self.particles.colors@[n0g + m] == DEFAULT_COLOR
                    } by {
                        assert(starter->0@[m] == positions@[m]);
                    }
                    assert(*self == (Fluid {
                        particles: self.particles,
                        box_bound_x: renderer_size.x,
                        box_bound_y: renderer_size.y,
                        ..*old(self)
                    }));
                    assert(Self::spec_initialized(
                        *old(self), *self, renderer_size, starter));
                }
                Ok(())
            },
            None => {
                self.box_bound_x = renderer_size.x;
                self.box_bound_y = renderer_size.y;
                proof {
                    assert(self.particles.positions@.subrange(
                        0, old(self).particles.spec_len() as int)
                        =~= old(self).particles.positions@);
                    assert(self.particles.velocities@.subrange(
                        0, old(self).particles.spec_len() as int)
                        =~= old(self).particles.velocities@);
                    assert(Self::spec_initialized(
                        *old(self), *self, renderer_size, starter));
                }
                Ok(())
            },
        }
    }

    /// Advances one external tick; the external interface's name for
    /// [`Fluid::update`], with the same contract.
    pub fn next_step(&mut self, dt: i64) -> (r: Result<(), SimError>)
        requires
            old(self).wf(),
        ensures
            final(self).wf(),
            final(self).particles.lookup_wf(),
            final(self).particles.spec_len() == old(self).particles.spec_len(),
            final(self).box_bound_x == old(self).box_bound_x,
            final(self).box_bound_y == old(self).box_bound_y,
            final(self).particles.radius == old(self).particles.radius,
            r is Err ==> final(self).particles.positions@ == old(self).particles.positions@
                && (exists|i: int| 0 <= i < final(self).particles.spec_len()
                    && final(self).particles.densities@[i] == 0)
                && r == Result::<(), SimError>::Err(SimError::InvariantViolation),
            r is Ok ==> forall|i: int| 0 <= i < final(self).particles.spec_len()
                ==> #[trigger] final(self).particles.densities@[i] != 0,
            r is Ok ==> forall|i: int| 0 <= i < final(self).particles.spec_len()
                ==> spec_in_box_coord(
                        (#[trigger] final(self).particles.positions@[i]).x as int,
                        old(self).particles.radius as int,
                        old(self).box_bound_x as int)
                    && spec_in_box_coord(
                        final(self).particles.positions@[i].y as int,
                        old(self).particles.radius as int,
                        old(self).box_bound_y as int),
    {
        self.update(dt)
    }

    /// The renderable snapshot of the whole particle record. The result is
    /// a function of the current state alone: two calls with no step
    /// between them return identical data.
    pub fn get_render_snapshot(&self) -> (r: FluidSnapshot)
        ensures
            r.positions@ == self.particles.positions@,
            r.velocities@ == self.particles.velocities@,
            r.densities@ == self.particles.densities@,
            r.colors@ == self.particles.colors@,
    {
        FluidSnapshot {
            positions: copy_points(&self.particles.positions),
            velocities: copy_points(&self.particles.velocities),
            densities: copy_scalars(&self.particles.densities),
            colors: copy_colors(&self.particles.colors),
        }
    }

    /// The renderable snapshot; an alias of [`Fluid::get_render_snapshot`].
    pub fn get_data_to_render(&self) -> (r: FluidSnapshot)
        ensures
            r.positions@ == self.particles.positions@,
            r.velocities@ == self.particles.velocities@,
            r.densities@ == self.particles.densities@,
            r.colors@ == self.particles.colors@,
    {
        self.get_render_snapshot()
    }
}

/// The pressure sum over a prefix ignores directions beyond the prefix.
proof fn lemma_pressure_sum_prefix(
    f: Fluid, i: int, ns: Seq<usize>, dirs1: Seq<Vector2D>, dirs2: Seq<Vector2D>, k: int,
)
    requires
        0 <= k <= dirs1.len(),
        forall|q: int| 0 <= q < k ==> #[trigger] dirs1[q] == dirs2[q],
    ensures
        f.spec_pressure_sum(i, ns, dirs1, k) == f.spec_pressure_sum(i, ns, dirs2, k),
    decreases k,
{
    if k > 0 {
        lemma_pressure_sum_prefix(f, i, ns, dirs1, dirs2, k - 1);
    }
}

} // verus!
