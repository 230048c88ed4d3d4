//! The fluid particle store and its spatial hash: equal-length per-particle
//! arrays, cell-key hashing, and a sorted bucket lookup for neighbor
//! queries.

use vstd::prelude::*;
use crate::fxp::{fx_add_s, fx_sub_s, fx_mul_s, floor_div, SCALE};
use crate::vec2::{Vector2D, spec_dist_sq, spec_mn};

verus! {

/// The smallest admissible smoothing radius: a tenth of a unit, under
/// which the fixed-point kernel volumes would truncate to nothing.
pub const MIN_SMOOTHING_RADIUS: i64 = 100_000_000;

/// The largest admissible smoothing radius: ten thousand units.
pub const MAX_SMOOTHING_RADIUS: i64 = 10_000_000_000_000;

/// The coordinate range the fluid keeps its predicted positions in, so
/// that coordinate differences never saturate.
pub const POS_LIMIT: i64 = 0x2000_0000_0000_0000;

/// The first hashing constant.
pub const HASH_K1: i64 = 15_823;

/// The second hashing constant.
pub const HASH_K2: i64 = 9_737_333;

/// The bias added to cell coordinates before hashing, so that cells below
/// the origin hash like any other.
pub const CELL_BIAS: i64 = 0x2000_0000_0000;

/// The sentinel marking a hash-table key with no particles.
pub const LOOKUP_EMPTY: usize = usize::MAX;

/// The default color of a particle, as opaque white.
pub const DEFAULT_COLOR: u32 = 0xFFFF_FFFF;

/// The cell column of a position: the coordinate divided by the cell size
/// (the smoothing radius), rounded toward negative infinity.
pub open spec fn spec_cell_x(p: Vector2D, h: int) -> int
    recommends
        h > 0,
{
    (p.x as int) / h
}

/// The cell row of a position.
pub open spec fn spec_cell_y(p: Vector2D, h: int) -> int
    recommends
        h > 0,
{
    (p.y as int) / h
}

/// The hash of a cell: the biased coordinates combined with two large
/// odd constants.
pub open spec fn spec_cell_hash(cx: int, cy: int) -> int {
    (cx + CELL_BIAS) * (HASH_K1 as int) + (cy + CELL_BIAS) * (HASH_K2 as int)
}

/// The table key of a hash: the hash reduced modulo the particle count.
pub open spec fn spec_key_of_hash(hash: int, n: int) -> int
    recommends
        n > 0,
{
    hash % n
}

/// A coordinate within the position range lands in a cell the hash can
/// take: the cell size is at least the smallest smoothing radius.
pub proof fn lemma_cell_bound(p: int, h: int)
    requires
        -POS_LIMIT <= p <= POS_LIMIT,
        MIN_SMOOTHING_RADIUS <= h,
    ensures
        -0x1000_0000_0000 <= p / h <= 0x1000_0000_0000,
{
    vstd::arithmetic::div_mod::lemma_fundamental_div_mod(p, h);
    vstd::arithmetic::div_mod::lemma_mod_bound(p, h);
    assert(-0x1000_0000_0000 <= p / h <= 0x1000_0000_0000) by (nonlinear_arith)
        requires
            p == h * (p / h) + p % h,
            0 <= p % h < h,
            -POS_LIMIT <= p <= POS_LIMIT,
            h >= MIN_SMOOTHING_RADIUS,
            POS_LIMIT == 0x2000_0000_0000_0000i64,
            MIN_SMOOTHING_RADIUS == 100_000_000i64,
    ;
}

/// Two coordinates less than one cell size apart lie in the same or in
/// adjacent cell columns.
pub proof fn lemma_adjacent_columns(a: int, b: int, h: int)
    requires
        h > 0,
        -h < a - b < h,
    ensures
        -1 <= a / h - b / h <= 1,
{
    vstd::arithmetic::div_mod::lemma_fundamental_div_mod(a, h);
    vstd::arithmetic::div_mod::lemma_mod_bound(a, h);
    vstd::arithmetic::div_mod::lemma_fundamental_div_mod(b, h);
    vstd::arithmetic::div_mod::lemma_mod_bound(b, h);
    assert(-1 <= a / h - b / h <= 1) by (nonlinear_arith)
        requires
            a == h * (a / h) + a % h,
            b == h * (b / h) + b % h,
            0 <= a % h < h,
            0 <= b % h < h,
            -h < a - b < h,
            h > 0,
    ;
}

/// Two points whose fixed-point squared distance is below the squared
/// smoothing radius lie in the same or in adjacent cells of the hash grid.
pub proof fn lemma_close_cells_adjacent(pi: Vector2D, pj: Vector2D, h: int)
    requires
        MIN_SMOOTHING_RADIUS <= h,
        -POS_LIMIT <= pi.x <= POS_LIMIT,
        -POS_LIMIT <= pi.y <= POS_LIMIT,
        -POS_LIMIT <= pj.x <= POS_LIMIT,
        -POS_LIMIT <= pj.y <= POS_LIMIT,
        spec_dist_sq(pi, pj) < fx_mul_s(h, h),
    ensures
        -1 <= spec_cell_x(pj, h) - spec_cell_x(pi, h) <= 1,
        -1 <= spec_cell_y(pj, h) - spec_cell_y(pi, h) <= 1,
{
    let s = SCALE as int;
    let dx = (pi.x as int) - (pj.x as int);
    let dy = (pi.y as int) - (pj.y as int);
    let d = spec_mn(pi, pj);
    assert(d.x == dx && d.y == dy);
    let mx = fx_mul_s(dx, dx);
    let my = fx_mul_s(dy, dy);
    crate::vec2::lemma_fx_square_nonneg(dx);
    crate::vec2::lemma_fx_square_nonneg(dy);
    let total = spec_dist_sq(pi, pj);
    assert(total == crate::fxp::fx_add_s(mx, my));
    let hsq = fx_mul_s(h, h);
    assert(mx < hsq && my < hsq);
    lemma_component_under_radius(dx, h);
    lemma_component_under_radius(dy, h);
    lemma_adjacent_columns(pj.x as int, pi.x as int, h);
    lemma_adjacent_columns(pj.y as int, pi.y as int, h);
}

/// A component whose fixed-point square is under the squared smoothing
/// radius is smaller than the radius in magnitude.
proof fn lemma_component_under_radius(d: int, h: int)
    requires
        h > 0,
        -i64::MAX - 1 <= d <= i64::MAX,
        fx_mul_s(d, d) < fx_mul_s(h, h),
    ensures
        -h < d < h,
{
    let s = SCALE as int;
    if !(-h < d < h) {
        assert(crate::fxp::sabs(d) >= crate::fxp::sabs(h));
        assert(crate::fxp::sabs(d) * crate::fxp::sabs(d)
            >= crate::fxp::sabs(h) * crate::fxp::sabs(h)) by (nonlinear_arith)
            requires
                crate::fxp::sabs(d) >= crate::fxp::sabs(h) >= 0,
        ;
        vstd::arithmetic::div_mod::lemma_div_is_ordered(
            crate::fxp::sabs(h) * crate::fxp::sabs(h),
            crate::fxp::sabs(d) * crate::fxp::sabs(d),
            s);
        assert(fx_mul_s(d, d) >= fx_mul_s(h, h));
    }
}

/// The spatial lookup stays valid while the fields it reads are untouched:
/// only the predicted positions, the cell size, the particle count and the
/// two lookup tables matter to it.
pub proof fn lemma_lookup_wf_stable(a: FluidParticles, b: FluidParticles)
    requires
        a.lookup_wf(),
        b.spatial_lookup@ == a.spatial_lookup@,
        b.lookup_start@ == a.lookup_start@,
        b.predicted_positions@ == a.predicted_positions@,
        b.smoothing_radius == a.smoothing_radius,
        b.positions@.len() == a.positions@.len(),
    ensures
        b.lookup_wf(),
{
    let n = a.spec_len() as int;
    assert forall|i: int| 0 <= i < n
        implies #[trigger] b.spec_key_of_particle(i) == a.spec_key_of_particle(i) by {
    }
    assert forall|i: int| 0 <= i < n
        implies b.spatial_lookup@.contains(
            (i as usize, #[trigger] b.spec_key_of_particle(i) as usize)) by {
        assert(a.spatial_lookup@.contains((i as usize, a.spec_key_of_particle(i) as usize)));
    }
}

/// The fluid particle store: shared particle parameters and equal-length
/// per-particle arrays, with the spatial hash over the predicted
/// positions.
#[derive(Debug)]
pub struct FluidParticles {
    /// The mass of every particle.
    pub mass: i64,
    /// The radius of every particle.
    pub radius: i64,
    /// The rest density the pressure drives toward.
    pub target_density: i64,
    /// The stiffness converting density error into pressure.
    pub pressure_multiplier: i64,
    /// The kernel support radius; also the hash cell size.
    pub smoothing_radius: i64,
    /// Particle positions.
    pub positions: Vec<Vector2D>,
    /// Positions predicted one step ahead; the spatial hash indexes these.
    pub predicted_positions: Vec<Vector2D>,
    /// Particle velocities.
    pub velocities: Vec<Vector2D>,
    /// Particle densities, from the last density pass.
    pub densities: Vec<i64>,
    /// Particle colors, as RGBA words; a rendering hint only.
    pub colors: Vec<u32>,
    /// Pairs of particle index and cell key, sorted by key after each
    /// rebuild.
    pub spatial_lookup: Vec<(usize, usize)>,
    /// For each key, the first position of that key in the sorted lookup,
    /// or the sentinel when the key is empty.
    pub lookup_start: Vec<usize>,
}

impl FluidParticles {
    /// The number of particles.
    pub open spec fn spec_len(self) -> nat {
        self.positions@.len()
    }

    /// The cell key of the particle at an index, from its predicted
    /// position.
    pub open spec fn spec_key_of_particle(self, i: int) -> int {
        spec_key_of_hash(
            spec_cell_hash(
                spec_cell_x(self.predicted_positions@[i], self.smoothing_radius as int),
                spec_cell_y(self.predicted_positions@[i], self.smoothing_radius as int),
            ),
            self.spec_len() as int,
        )
    }

    /// Well-formedness: all per-particle arrays share one length, the
    /// smoothing radius is in its admissible range, the mass is positive,
    /// and predicted positions stay inside the coordinate range.
    pub open spec fn wf(self) -> bool {
        &&& self.predicted_positions@.len() == self.spec_len()
        &&& self.velocities@.len() == self.spec_len()
        &&& self.densities@.len() == self.spec_len()
        &&& self.colors@.len() == self.spec_len()
        &&& self.spatial_lookup@.len() == self.spec_len()
        &&& self.lookup_start@.len() == self.spec_len()
        &&& MIN_SMOOTHING_RADIUS <= self.smoothing_radius <= MAX_SMOOTHING_RADIUS
        &&& self.mass > 0
        &&& self.spec_len() < 0x10000000
        &&& forall|i: int| 0 <= i < self.spec_len() ==> {
            let p = #[trigger] self.predicted_positions@[i];
            -POS_LIMIT <= p.x <= POS_LIMIT && -POS_LIMIT <= p.y <= POS_LIMIT
        }
    }

    /// The spatial lookup is valid: every entry pairs a live particle
    /// index with that particle's current key, the entries are sorted by
    /// key, every particle appears, and the start table points at the
    /// first entry of each populated key and at the sentinel otherwise.
    pub open spec fn lookup_wf(self) -> bool {
        let n = self.spec_len() as int;
        &&& forall|j: int| 0 <= j < n ==> {
            let e = #[trigger] self.spatial_lookup@[j];
            e.0 < n && e.1 == self.spec_key_of_particle(e.0 as int)
        }
        &&& forall|j1: int, j2: int| 0 <= j1 <= j2 < n
            ==> (#[trigger] self.spatial_lookup@[j1]).1 <= (#[trigger] self.spatial_lookup@[j2]).1
        &&& forall|i: int| 0 <= i < n ==> self.spatial_lookup@.contains(
            (i as usize, #[trigger] self.spec_key_of_particle(i) as usize))
        &&& forall|k: int| 0 <= k < n && (#[trigger] self.lookup_start@[k]) != LOOKUP_EMPTY ==> {
            let st = self.lookup_start@[k] as int;
            st < n && self.spatial_lookup@[st].1 == k
                && (forall|j: int| 0 <= j < st ==> (#[trigger] self.spatial_lookup@[j]).1 != k)
        }
        &&& forall|j: int| 0 <= j < n
            ==> self.lookup_start@[(#[trigger] self.spatial_lookup@[j]).1 as int] != LOOKUP_EMPTY
    }

    /// An empty store with the given shared parameters.
    pub fn new(
        mass: i64,
        radius: i64,
        target_density: i64,
        pressure_multiplier: i64,
        smoothing_radius: i64,
    ) -> (r: Self)
        requires
            MIN_SMOOTHING_RADIUS <= smoothing_radius <= MAX_SMOOTHING_RADIUS,
            mass > 0,
        ensures
            r.wf(),
            r.spec_len() == 0,
            r.mass == mass,
            r.radius == radius,
            r.target_density == target_density,
            r.pressure_multiplier == pressure_multiplier,
            r.smoothing_radius == smoothing_radius,
    {
        FluidParticles {
            mass,
            radius,
            target_density,
            pressure_multiplier,
            smoothing_radius,
            positions: Vec::new(),
            predicted_positions: Vec::new(),
            velocities: Vec::new(),
            densities: Vec::new(),
            colors: Vec::new(),
            spatial_lookup: Vec::new(),
            lookup_start: Vec::new(),
        }
    }

    /// The number of particles.
    pub fn len(&self) -> (r: usize)
        ensures
            r == self.spec_len(),
    {
        self.positions.len()
    }

    /// The pressure a density produces: the density error times the
    /// pressure multiplier.
    pub fn calculate_pressure(&self, density: i64) -> (r: i64)
        ensures
            r == fx_mul_s(
                fx_sub_s(density as int, self.target_density as int),
                self.pressure_multiplier as int),
    {
        let density_error: i64 = crate::fxp::fx_sub(density, self.target_density);
        crate::fxp::fx_mul(density_error, self.pressure_multiplier)
    }

    /// Appends a particle at a position, at rest and in the default color.
    pub fn push(&mut self, position: Vector2D)
        requires
            old(self).wf(),
            old(self).spec_len() < 0xfffffff,
            -POS_LIMIT <= position.x <= POS_LIMIT,
            -POS_LIMIT <= position.y <= POS_LIMIT,
        ensures
            final(self).wf(),
            final(self).spec_len() == old(self).spec_len() + 1,
            final(self).positions@ == old(self).positions@.push(position),
            final(self).predicted_positions@
                == old(self).predicted_positions@.push(position),
            final(self).velocities@
                == old(self).velocities@.push(Vector2D { x: 0i64, y: 0i64 }),
            final(self).densities@ == old(self).densities@.push(0i64),
            final(self).colors@ == old(self).colors@.push(DEFAULT_COLOR),
            *final(self) == (FluidParticles {
                positions: final(self).positions,
                predicted_positions: final(self).predicted_positions,
                velocities: final(self).velocities,
                densities: final(self).densities,
                colors: final(self).colors,
                spatial_lookup: final(self).spatial_lookup,
                lookup_start: final(self).lookup_start,
                ..*old(self)
            }),
    {
        self.positions.push(position);
        self.predicted_positions.push(position);
        self.velocities.push(Vector2D { x: 0, y: 0 });
        self.densities.push(0);
        self.colors.push(DEFAULT_COLOR);
        self.spatial_lookup.push((0, 0));
        self.lookup_start.push(0);
    }

    /// The cell of a position: both coordinates divided by the cell size,
    /// rounded toward negative infinity.
    pub fn get_cell_position(&self, position: &Vector2D) -> (r: (i64, i64))
        requires
            self.smoothing_radius > 0,
        ensures
            r.0 == spec_cell_x(*position, self.smoothing_radius as int),
            r.1 == spec_cell_y(*position, self.smoothing_radius as int),
    {
        let x: i64 = floor_div(position.x, self.smoothing_radius);
        let y: i64 = floor_div(position.y, self.smoothing_radius);
        (x, y)
    }

    /// The hash of a cell.
    pub fn get_cell_hash(&self, cell_position: (i64, i64)) -> (r: u128)
        requires
            -0x1800_0000_0000 <= cell_position.0 <= 0x1800_0000_0000,
            -0x1800_0000_0000 <= cell_position.1 <= 0x1800_0000_0000,
        ensures
            r == spec_cell_hash(cell_position.0 as int, cell_position.1 as int),
    {
        let bx: i128 = cell_position.0 as i128 + CELL_BIAS as i128;
        let by: i128 = cell_position.1 as i128 + CELL_BIAS as i128;
        proof {
            assert(0 <= bx * (HASH_K1 as i128) <= 0x3800_0000_0000int * 15_823) by (nonlinear_arith)
                requires
                    0 <= bx <= 0x3800_0000_0000,
            ;
            assert(0 <= by * (HASH_K2 as i128) <= 0x3800_0000_0000int * 9_737_333)
            by (nonlinear_arith)
                requires
                    0 <= by <= 0x3800_0000_0000,
            ;
        }
        let hash: i128 = bx * (HASH_K1 as i128) + by * (HASH_K2 as i128);
        hash as u128
    }

    /// Rebuilds the spatial hash from the predicted positions: one entry
    /// per particle keyed by its cell, sorted by key, with the start table
    /// pointing at the first entry of each populated key.
    pub fn update_spatial_lookup(&mut self)
        requires
            old(self).wf(),
        ensures
            final(self).wf(),
            final(self).lookup_wf(),
            *final(self) == (FluidParticles {
                spatial_lookup: final(self).spatial_lookup,
                lookup_start: final(self).lookup_start,
                ..*old(self)
            }),
    {
        let n: usize = self.positions.len();
        if n == 0 {
            return;
        }
        let ghost keys = Seq::<int>::new(n as nat, |i: int| old(self).spec_key_of_particle(i));
        // compute every particle's key and reset the start table
        let mut i: usize = 0;
        while i < n
            invariant
                i <= n,
                n == old(self).spec_len(),
                n > 0,
                old(self).wf(),
                keys == Seq::<int>::new(n as nat, |x: int| old(self).spec_key_of_particle(x)),
                *self == (FluidParticles {
                    spatial_lookup: self.spatial_lookup,
                    lookup_start: self.lookup_start,
                    ..*old(self)
                }),
                self.spatial_lookup@.len() == n,
                self.lookup_start@.len() == n,
                forall|j: int| 0 <= j < i ==> (#[trigger] self.spatial_lookup@[j])
                    == (j as usize, keys[j] as usize),
                forall|j: int| 0 <= j < i ==> 0 <= #[trigger] keys[j] < n,
            decreases n - i,
        {
            let p: Vector2D = self.predicted_positions[i];
            proof {
                lemma_cell_bound(p.x as int, self.smoothing_radius as int);
                lemma_cell_bound(p.y as int, self.smoothing_radius as int);
            }
            let cell: (i64, i64) = self.get_cell_position(&p);
            let hash: u128 = self.get_cell_hash(cell);
            let key: usize = self.get_cell_key_from_hash(hash);
            self.spatial_lookup.set(i, (i, key));
            self.lookup_start.set(i, LOOKUP_EMPTY);
            i += 1;
        }
        proof {
            assert(forall|x: int| 0 <= x < n
                ==> (#[trigger] self.spatial_lookup@[x]) == (x as usize, keys[x] as usize));
            assert forall|x: int| 0 <= x < n
                implies self.spatial_lookup@.contains((x as usize, keys[x] as usize)) by {
                assert(self.spatial_lookup@[x] == (x as usize, keys[x] as usize));
            }
        }
        // reset the start table wholly (the first loop indexed by particle,
        // which covers every key slot since both tables share the length)
        let mut k: usize = 0;
        while k < n
            invariant
                k <= n,
                n == old(self).spec_len(),
                n > 0,
                old(self).wf(),
                keys == Seq::<int>::new(n as nat, |x: int| old(self).spec_key_of_particle(x)),
                *self == (FluidParticles {
                    spatial_lookup: self.spatial_lookup,
                    lookup_start: self.lookup_start,
                    ..*old(self)
                }),
                self.spatial_lookup@.len() == n,
                self.lookup_start@.len() == n,
                forall|x: int| 0 <= x < n ==> (#[trigger] self.spatial_lookup@[x])
                    == (x as usize, keys[x] as usize),
                forall|x: int| 0 <= x < n ==> 0 <= #[trigger] keys[x] < n,
                forall|x: int| 0 <= x < n ==> self.spatial_lookup@.contains(
                    (x as usize, #[trigger] keys[x] as usize)),
                forall|x: int| 0 <= x < k ==> (#[trigger] self.lookup_start@[x]) == LOOKUP_EMPTY,
            decreases n - k,
        {
            self.lookup_start.set(k, LOOKUP_EMPTY);
            k += 1;
        }
        // sort the entries by key, keeping every entry present
        let mut si: usize = 1;
        while si < n
            invariant
                1 <= si <= n,
                n == old(self).spec_len(),
                n > 0,
                old(self).wf(),
                keys == Seq::<int>::new(n as nat, |x: int| old(self).spec_key_of_particle(x)),
                *self == (FluidParticles {
                    spatial_lookup: self.spatial_lookup,
                    lookup_start: self.lookup_start,
                    ..*old(self)
                }),
                self.spatial_lookup@.len() == n,
                self.lookup_start@.len() == n,
                forall|x: int| 0 <= x < n ==> (#[trigger] self.lookup_start@[x]) == LOOKUP_EMPTY,
                forall|j: int| 0 <= j < n ==> {
                    let e = #[trigger] self.spatial_lookup@[j];
                    e.0 < n && e.1 == keys[e.0 as int]
                },
                forall|x: int| 0 <= x < n ==> 0 <= #[trigger] keys[x] < n,
                forall|x: int| 0 <= x < n ==> self.spatial_lookup@.contains(
                    (x as usize, #[trigger] keys[x] as usize)),
                forall|a: int, b: int| 0 <= a <= b < si
                    ==> (#[trigger] self.spatial_lookup@[a]).1
                        <= (#[trigger] self.spatial_lookup@[b]).1,
            decreases n - si,
        {
            let mut sj: usize = si;
            while sj > 0 && self.spatial_lookup[sj - 1].1 > self.spatial_lookup[sj].1
                invariant
                    0 <= sj <= si < n,
                    n == old(self).spec_len(),
                    old(self).wf(),
                    keys == Seq::<int>::new(n as nat, |x: int| old(self).spec_key_of_particle(x)),
                    *self == (FluidParticles {
                        spatial_lookup: self.spatial_lookup,
                        lookup_start: self.lookup_start,
                        ..*old(self)
                    }),
                    self.spatial_lookup@.len() == n,
                    self.lookup_start@.len() == n,
                    forall|x: int| 0 <= x < n
                        ==> (#[trigger] self.lookup_start@[x]) == LOOKUP_EMPTY,
                    forall|j: int| 0 <= j < n ==> {
                        let e = #[trigger] self.spatial_lookup@[j];
                        e.0 < n && e.1 == keys[e.0 as int]
                    },
                    forall|x: int| 0 <= x < n ==> 0 <= #[trigger] keys[x] < n,
                    forall|x: int| 0 <= x < n ==> self.spatial_lookup@.contains(
                        (x as usize, #[trigger] keys[x] as usize)),
                    forall|a: int, b: int| 0 <= a <= b <= si && b != sj
                        ==> (#[trigger] self.spatial_lookup@[a]).1
                            <= (#[trigger] self.spatial_lookup@[b]).1,
                    forall|b: int| sj < b <= si
                        ==> (self.spatial_lookup@[sj as int]).1
                            <= (#[trigger] self.spatial_lookup@[b]).1,
                decreases sj,
            {
                let e1: (usize, usize) = self.spatial_lookup[sj - 1];
                let e2: (usize, usize) = self.spatial_lookup[sj];
                let ghost before = self.spatial_lookup@;
                self.spatial_lookup.set(sj - 1, e2);
                self.spatial_lookup.set(sj, e1);
                proof {
                    assert forall|x: int| 0 <= x < n
                        implies self.spatial_lookup@.contains(
                            (x as usize, #[trigger] keys[x] as usize)) by {
                        let e = (x as usize, keys[x] as usize);
                        let w = choose|w: int| 0 <= w < before.len() && before[w] == e;
                        if w == sj - 1 {
                            assert(self.spatial_lookup@[sj as int] == e);
                        } else if w == sj {
                            assert(self.spatial_lookup@[sj - 1] == e);
                        } else {
                            assert(self.spatial_lookup@[w] == e);
                        }
                    }
                }
                sj = sj - 1;
            }
            proof {
                assert forall|a: int, b: int| 0 <= a <= b <= si
                    implies (#[trigger] self.spatial_lookup@[a]).1
                        <= (#[trigger] self.spatial_lookup@[b]).1 by {
                    if b == sj {
                        if sj > 0 {
                            assert(self.spatial_lookup@[sj - 1].1 <= self.spatial_lookup@[sj as int].1);
                            if a < b {
                                assert(self.spatial_lookup@[a].1 <= self.spatial_lookup@[sj - 1].1);
                            }
                        }
                    }
                }
            }
            si += 1;
        }
        // record the first position of each populated key
        let mut fj: usize = 0;
        while fj < n
            invariant
                fj <= n,
                n == old(self).spec_len(),
                n > 0,
                old(self).wf(),
                keys == Seq::<int>::new(n as nat, |x: int| old(self).spec_key_of_particle(x)),
                *self == (FluidParticles {
                    spatial_lookup: self.spatial_lookup,
                    lookup_start: self.lookup_start,
                    ..*old(self)
                }),
                self.spatial_lookup@.len() == n,
                self.lookup_start@.len() == n,
                forall|j: int| 0 <= j < n ==> {
                    let e = #[trigger] self.spatial_lookup@[j];
                    e.0 < n && e.1 == keys[e.0 as int]
                },
                forall|x: int| 0 <= x < n ==> 0 <= #[trigger] keys[x] < n,
                forall|x: int| 0 <= x < n ==> self.spatial_lookup@.contains(
                    (x as usize, #[trigger] keys[x] as usize)),
                forall|a: int, b: int| 0 <= a <= b < n
                    ==> (#[trigger] self.spatial_lookup@[a]).1
                        <= (#[trigger] self.spatial_lookup@[b]).1,
                forall|x: int| 0 <= x < n && (#[trigger] self.lookup_start@[x]) != LOOKUP_EMPTY
                    ==> {
                    let st = self.lookup_start@[x] as int;
                    st < fj && self.spatial_lookup@[st].1 == x
                        && (forall|j: int| 0 <= j < st
                            ==> (#[trigger] self.spatial_lookup@[j]).1 != x)
                },
                forall|j: int| 0 <= j < fj
                    ==> self.lookup_start@[(#[trigger] self.spatial_lookup@[j]).1 as int]
                        != LOOKUP_EMPTY,
            decreases n - fj,
        {
            let cur_key: usize = self.spatial_lookup[fj].1;
            let is_first: bool = if fj == 0 {
                true
            } else {
                self.spatial_lookup[fj - 1].1 != cur_key
            };
            if is_first {
                proof {
                    assert forall|j: int| 0 <= j < fj
                        implies (#[trigger] self.spatial_lookup@[j]).1 != cur_key by {
                        if fj > 0 {
                            assert(self.spatial_lookup@[j].1 <= self.spatial_lookup@[fj - 1].1);
                            assert(self.spatial_lookup@[fj - 1].1 <= self.spatial_lookup@[fj as int].1);
                        }
                    }
                }
                self.lookup_start.set(cur_key, fj);
            }
            fj += 1;
        }
        proof {
            assert forall|x: int| 0 <= x < n
                implies #[trigger] self.spec_key_of_particle(x) == keys[x] by {
                assert(keys[x] == old(self).spec_key_of_particle(x));
            }
            assert forall|j: int| 0 <= j < n implies {
                let e = #[trigger] self.spatial_lookup@[j];
                e.0 < n && e.1 == self.spec_key_of_particle(e.0 as int)
            } by {
                assert(self.spatial_lookup@[j].1 == keys[self.spatial_lookup@[j].0 as int]);
                assert(self.spec_key_of_particle(self.spatial_lookup@[j].0 as int)
                    == keys[self.spatial_lookup@[j].0 as int]);
            }
            assert forall|x: int| 0 <= x < n
                implies self.spatial_lookup@.contains(
                    (x as usize, #[trigger] self.spec_key_of_particle(x) as usize)) by {
                assert(self.spatial_lookup@.contains((x as usize, keys[x] as usize)));
                assert(self.spec_key_of_particle(x) == keys[x]);
            }
        }
    }

    /// Whether particle `j` is a true neighbor of particle `i`: a distinct
    /// live particle whose predicted position is within the smoothing
    /// radius (by fixed-point squared distance) of particle `i`'s.
    pub open spec fn spec_neighbor(self, i: int, j: int) -> bool {
        &&& 0 <= j < self.spec_len()
        &&& j != i
        &&& spec_dist_sq(self.predicted_positions@[i], self.predicted_positions@[j])
            < fx_mul_s(self.smoothing_radius as int, self.smoothing_radius as int)
    }

    /// The neighbor query: scans the hash buckets of the three-by-three
    /// cell block around particle `i`'s cell. Every index returned is a
    /// true neighbor, and every true neighbor is returned: the spatial
    /// hash loses nothing within the smoothing radius.
    #[verifier::rlimit(100)]
    #[verifier::spinoff_prover]
    pub fn in_radius_neighbors_search(&self, i: usize) -> (r: Vec<usize>)
        requires
            self.wf(),
            self.lookup_wf(),
            i < self.spec_len(),
        ensures
            forall|m: int| 0 <= m < r@.len()
                ==> self.spec_neighbor(i as int, #[trigger] r@[m] as int),
            forall|j: int| self.spec_neighbor(i as int, j) ==> r@.contains(j as usize),
    {
        let mut neighbors: Vec<usize> = Vec::new();
        let n: usize = self.positions.len();
        let pi: Vector2D = self.predicted_positions[i];
        proof {
            lemma_cell_bound(pi.x as int, self.smoothing_radius as int);
            lemma_cell_bound(pi.y as int, self.smoothing_radius as int);
        }
        let cell: (i64, i64) = self.get_cell_position(&pi);
        let sqr_radius: i64 = crate::fxp::fx_mul(self.smoothing_radius, self.smoothing_radius);
        let mut ox: i64 = 0;
        while ox < 3
            invariant
                0 <= ox <= 3,
                self.wf(),
                self.lookup_wf(),
                i < n,
                n == self.spec_len(),
                pi == self.predicted_positions@[i as int],
                cell.0 == spec_cell_x(pi, self.smoothing_radius as int),
                cell.1 == spec_cell_y(pi, self.smoothing_radius as int),
                -0x1000_0000_0000 <= cell.0 <= 0x1000_0000_0000,
                -0x1000_0000_0000 <= cell.1 <= 0x1000_0000_0000,
                sqr_radius == fx_mul_s(
                    self.smoothing_radius as int, self.smoothing_radius as int),
                forall|m: int| 0 <= m < neighbors@.len()
                    ==> self.spec_neighbor(i as int, #[trigger] neighbors@[m] as int),
                forall|j: int| self.spec_neighbor(i as int, j)
                    && spec_cell_x(self.predicted_positions@[j], self.smoothing_radius as int)
                        - cell.0 + 1 < ox
                    && spec_cell_x(self.predicted_positions@[j], self.smoothing_radius as int)
                        - cell.0 >= -1
                    && -1 <= spec_cell_y(self.predicted_positions@[j],
                        self.smoothing_radius as int) - cell.1 <= 1
                    ==> neighbors@.contains(j as usize),
            decreases 3 - ox,
        {
            let mut oy: i64 = 0;
            while oy < 3
                invariant
                    0 <= ox < 3,
                    0 <= oy <= 3,
                    self.wf(),
                    self.lookup_wf(),
                    i < n,
                    n == self.spec_len(),
                    pi == self.predicted_positions@[i as int],
                    cell.0 == spec_cell_x(pi, self.smoothing_radius as int),
                    cell.1 == spec_cell_y(pi, self.smoothing_radius as int),
                    -0x1000_0000_0000 <= cell.0 <= 0x1000_0000_0000,
                    -0x1000_0000_0000 <= cell.1 <= 0x1000_0000_0000,
                    sqr_radius == fx_mul_s(
                        self.smoothing_radius as int, self.smoothing_radius as int),
                    forall|m: int| 0 <= m < neighbors@.len()
                        ==> self.spec_neighbor(i as int, #[trigger] neighbors@[m] as int),
                    forall|j: int| self.spec_neighbor(i as int, j)
                        && spec_cell_x(self.predicted_positions@[j],
                            self.smoothing_radius as int) - cell.0 + 1 < ox
                        && spec_cell_x(self.predicted_positions@[j],
                            self.smoothing_radius as int) - cell.0 >= -1
                        && -1 <= spec_cell_y(self.predicted_positions@[j],
                            self.smoothing_radius as int) - cell.1 <= 1
                        ==> neighbors@.contains(j as usize),
                    forall|j: int| self.spec_neighbor(i as int, j)
                        && spec_cell_x(self.predicted_positions@[j],
                            self.smoothing_radius as int) - cell.0 + 1 == ox
                        && spec_cell_y(self.predicted_positions@[j],
                            self.smoothing_radius as int) - cell.1 + 1 < oy
                        && spec_cell_y(self.predicted_positions@[j],
                            self.smoothing_radius as int) - cell.1 >= -1
                        ==> neighbors@.contains(j as usize),
                decreases 3 - oy,
            {
                let ncell: (i64, i64) = (cell.0 + (ox - 1), cell.1 + (oy - 1));
                let nhash: u128 = self.get_cell_hash(ncell);
                let nkey: usize = self.get_cell_key_from_hash(nhash);
                let start: usize = self.lookup_start[nkey];
                let ghost neighbors_at_offset_start = neighbors@;
                if start != LOOKUP_EMPTY {
                    let mut sj: usize = start;
                    proof {
                        assert(self.spatial_lookup@[start as int].1 == nkey);
                    }
                    while sj < n && self.spatial_lookup[sj].1 == nkey
                        invariant
                            start <= sj <= n,
                            self.wf(),
                            self.lookup_wf(),
                            i < n,
                            n == self.spec_len(),
                            pi == self.predicted_positions@[i as int],
                            sqr_radius == fx_mul_s(
                                self.smoothing_radius as int, self.smoothing_radius as int),
                            nkey < n,
                            self.lookup_start@[nkey as int] == start,
                            nhash == spec_cell_hash(ncell.0 as int, ncell.1 as int),
                            nkey == spec_key_of_hash(nhash as int, n as int),
                            forall|m: int| 0 <= m < neighbors@.len()
                                ==> self.spec_neighbor(i as int, #[trigger] neighbors@[m] as int),
                            forall|e: usize| neighbors_at_offset_start.contains(e)
                                ==> neighbors@.contains(e),
                            forall|p: int| start <= p < sj ==> {
                                let cand = (#[trigger] self.spatial_lookup@[p]).0 as int;
                                (spec_cell_hash(
                                    spec_cell_x(self.predicted_positions@[cand],
                                        self.smoothing_radius as int),
                                    spec_cell_y(self.predicted_positions@[cand],
                                        self.smoothing_radius as int)) == nhash
                                    && cand != i
                                    && spec_dist_sq(pi, self.predicted_positions@[cand])
                                        < sqr_radius)
                                ==> neighbors@.contains(cand as usize)
                            },
                        decreases n - sj,
                    {
                        let cand: usize = self.spatial_lookup[sj].0;
                        let pcand: Vector2D = self.predicted_positions[cand];
                        proof {
                            lemma_cell_bound(pcand.x as int, self.smoothing_radius as int);
                            lemma_cell_bound(pcand.y as int, self.smoothing_radius as int);
                        }
                        let ccell: (i64, i64) = self.get_cell_position(&pcand);
                        let chash: u128 = self.get_cell_hash(ccell);
                        if chash == nhash && cand != i {
                            let dsq: i64 = pi.dist_sq(pcand);
                            if dsq < sqr_radius {
                                let ghost before_push = neighbors@;
                                neighbors.push(cand);
                                proof {
                                    assert forall|e: usize| before_push.contains(e)
                                        implies neighbors@.contains(e) by {
                                        let w = choose|w: int| 0 <= w < before_push.len()
                                            && before_push[w] == e;
                                        assert(neighbors@[w] == e);
                                    }
                                    assert(neighbors@.last() == cand);
                                    assert(neighbors@.contains(cand));
                                }
                            }
                        }
                        sj += 1;
                    }
                    proof {
                        // every true neighbor in this cell sits in the
                        // scanned run of the bucket, so it was collected
                        assert forall|j: int| self.spec_neighbor(i as int, j)
                            && spec_cell_x(self.predicted_positions@[j],
                                self.smoothing_radius as int) == ncell.0
                            && spec_cell_y(self.predicted_positions@[j],
                                self.smoothing_radius as int) == ncell.1
                            implies neighbors@.contains(j as usize) by {
                            assert(self.spec_key_of_particle(j) == nkey);
                            assert(self.spatial_lookup@.contains(
                                (j as usize, self.spec_key_of_particle(j) as usize)));
                            let w = choose|w: int| 0 <= w < self.spatial_lookup@.len()
                                && self.spatial_lookup@[w] == (j as usize, nkey);
                            assert(self.spatial_lookup@[w].1 == nkey);
                            if w < start {
                                assert(false);
                            }
                            if w >= sj {
                                assert(sj < n);
                                assert(self.spatial_lookup@[sj as int].1
                                    <= self.spatial_lookup@[w].1);
                                assert(self.spatial_lookup@[start as int].1
                                    <= self.spatial_lookup@[sj as int].1);
                                assert(false);
                            }
                            assert(self.spatial_lookup@[w].0 == j);
                        }
                    }
                } else {
                    proof {
                        // an empty bucket holds no particle of this cell
                        assert forall|j: int| self.spec_neighbor(i as int, j)
                            && spec_cell_x(self.predicted_positions@[j],
                                self.smoothing_radius as int) == ncell.0
                            && spec_cell_y(self.predicted_positions@[j],
                                self.smoothing_radius as int) == ncell.1
                            implies neighbors@.contains(j as usize) by {
                            assert(self.spec_key_of_particle(j) == nkey);
                            assert(self.spatial_lookup@.contains(
                                (j as usize, self.spec_key_of_particle(j) as usize)));
                            let w = choose|w: int| 0 <= w < self.spatial_lookup@.len()
                                && self.spatial_lookup@[w] == (j as usize, nkey);
                            assert(self.lookup_start@[self.spatial_lookup@[w].1 as int]
                                != LOOKUP_EMPTY);
                            assert(false);
                        }
                    }
                }
                oy += 1;
            }
            ox += 1;
        }
        proof {
            assert forall|j: int| self.spec_neighbor(i as int, j)
                implies neighbors@.contains(j as usize) by {
                lemma_close_cells_adjacent(
                    pi, self.predicted_positions@[j], self.smoothing_radius as int);
            }
        }
        neighbors
    }

    /// The table key of a hash: the hash reduced modulo the particle
    /// count.
    pub fn get_cell_key_from_hash(&self, hash: u128) -> (r: usize)
        requires
            self.spec_len() > 0,
            self.wf(),
        ensures
            r == spec_key_of_hash(hash as int, self.spec_len() as int),
            r < self.spec_len(),
    {
        let n: usize = self.positions.len();
        (hash % (n as u128)) as usize
    }
}

} // verus!
