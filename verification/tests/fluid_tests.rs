//! Tests of the fluid engine: the spatial hash round trip, densities,
//! boundary reflection, settings validation, and snapshots.

use phys2d::fxp::{fx_mul, fx_div, SCALE, PI_FX};
use phys2d::vec2::{Vector2D, c_vect};
use phys2d::fluid::{FluidParticles, DEFAULT_COLOR};
use phys2d::sph::{Fluid, EventSettings, SimError};

fn fluid_with_particles(positions: Vec<Vector2D>, bound: i64) -> Fluid {
    let mut fluid = Fluid::new();
    fluid.initialize(c_vect(bound, bound), Some(positions)).unwrap();
    fluid
}

/// A small deterministic pseudo-random generator for spreading particles.
fn lcg_next(state: &mut u64) -> u64 {
    *state = state.wrapping_mul(6364136223846793005).wrapping_add(1442695040888963407);
    *state >> 33
}

#[test]
fn spatial_hash_round_trip_on_random_cloud() {
    // at least one hundred particles spread over a square; the grid query
    // must return exactly the true neighbors of each probe
    let mut seed: u64 = 12345;
    let mut positions: Vec<Vector2D> = Vec::new();
    for _ in 0..120 {
        let x = (lcg_next(&mut seed) % 200) as i64 * SCALE;
        let y = (lcg_next(&mut seed) % 200) as i64 * SCALE;
        positions.push(c_vect(x, y));
    }
    let mut fluid = fluid_with_particles(positions, 200 * SCALE);
    fluid.particles.update_spatial_lookup();
    let n = fluid.particles.len();
    let h = fluid.particles.smoothing_radius;
    let sqr_radius = fx_mul(h, h);
    for i in 0..n {
        let mut found = fluid.particles.in_radius_neighbors_search(i);
        let mut expected: Vec<usize> = Vec::new();
        for j in 0..n {
            if j != i {
                let d = fluid.particles.predicted_positions[i]
                    .dist_sq(fluid.particles.predicted_positions[j]);
                if d < sqr_radius {
                    expected.push(j);
                }
            }
        }
        found.sort_unstable();
        expected.sort_unstable();
        assert_eq!(found, expected, "round trip failed for particle {}", i);
    }
}

#[test]
fn spatial_hash_handles_negative_coordinates() {
    // particles straddling the origin still find each other
    let positions = vec![
        c_vect(-5 * SCALE, -5 * SCALE),
        c_vect(5 * SCALE, 5 * SCALE),
        c_vect(-290 * SCALE, -290 * SCALE),
    ];
    let mut fluid = Fluid::new();
    fluid.particles.push(positions[0]);
    fluid.particles.push(positions[1]);
    fluid.particles.push(positions[2]);
    fluid.particles.update_spatial_lookup();
    let near = fluid.particles.in_radius_neighbors_search(0);
    assert_eq!(near, vec![1]);
    let lonely = fluid.particles.in_radius_neighbors_search(2);
    assert!(lonely.is_empty());
}

#[test]
fn isolated_particle_density_is_mass_times_kernel_at_zero() {
    let mut fluid = fluid_with_particles(vec![c_vect(100 * SCALE, 100 * SCALE)], 200 * SCALE);
    fluid.particles.update_spatial_lookup();
    let density = fluid.calculate_density(0);
    // kernel(0) = h^2 / (pi h^4 / 6) in fixed point, with h = 30
    let h = fluid.particles.smoothing_radius;
    let h2 = fx_mul(h, h);
    let h4 = fx_mul(h2, h2);
    let volume = fx_div(fx_mul(PI_FX, h4), 6 * SCALE);
    let kernel0 = fx_div(h2, volume);
    assert_eq!(density, fx_mul(fluid.particles.mass, kernel0));
    assert_eq!(density, 2_122_065);
}

#[test]
fn two_far_particles_each_have_self_density_only() {
    let mut fluid = fluid_with_particles(
        vec![c_vect(10 * SCALE, 10 * SCALE), c_vect(190 * SCALE, 190 * SCALE)], 200 * SCALE);
    fluid.particles.update_spatial_lookup();
    assert_eq!(fluid.calculate_density(0), fluid.calculate_density(1));
    assert_eq!(fluid.calculate_density(0), 2_122_065);
}

#[test]
fn close_particles_have_higher_density() {
    let mut fluid = fluid_with_particles(
        vec![c_vect(100 * SCALE, 100 * SCALE), c_vect(105 * SCALE, 100 * SCALE)], 200 * SCALE);
    fluid.particles.update_spatial_lookup();
    assert!(fluid.calculate_density(0) > 2_122_065);
}

#[test]
fn particles_stay_inside_the_box() {
    // fifty particles in a two-hundred square box, zero gravity, zero
    // pressure stiffness: boundary reflection keeps every particle inside
    let mut seed: u64 = 99;
    let mut positions: Vec<Vector2D> = Vec::new();
    for _ in 0..50 {
        let x = (10 + (lcg_next(&mut seed) % 180)) as i64 * SCALE;
        let y = (10 + (lcg_next(&mut seed) % 180)) as i64 * SCALE;
        positions.push(c_vect(x, y));
    }
    let mut fluid = fluid_with_particles(positions, 200 * SCALE);
    let settings = EventSettings {
        collision_restitution: 950_000_000,
        gravity: 0,
        target_density: 750_000_000,
        mass: SCALE,
        pressure_stiffness: 0,
        visual_filter: 0,
        smoothing_radius: 30 * SCALE,
        viscosity_strength: 100_000_000,
    };
    fluid.apply_settings(settings).unwrap();
    let rad = fluid.particles.radius;
    for _ in 0..60 {
        fluid.update(16_000_000).unwrap();
        for i in 0..fluid.particles.len() {
            let p = fluid.particles.positions[i];
            assert!(p.x >= rad && p.x <= 200 * SCALE - rad, "x escaped: {}", p.x);
            assert!(p.y >= rad && p.y <= 200 * SCALE - rad, "y escaped: {}", p.y);
        }
    }
}

#[test]
fn settings_rejected_outside_ranges() {
    let mut fluid = Fluid::new();
    let good = EventSettings {
        collision_restitution: 900_000_000,
        gravity: 2 * SCALE,
        target_density: SCALE,
        mass: 2 * SCALE,
        pressure_stiffness: 3 * SCALE,
        visual_filter: 1,
        smoothing_radius: 25 * SCALE,
        viscosity_strength: SCALE / 5,
    };
    assert!(fluid.apply_settings(good).is_ok());
    assert_eq!(fluid.gravity, 2 * SCALE);
    assert_eq!(fluid.particles.mass, 2 * SCALE);
    assert_eq!(fluid.particles.smoothing_radius, 25 * SCALE);

    let bad_radius = EventSettings { smoothing_radius: 0, ..good };
    assert_eq!(fluid.apply_settings(bad_radius), Err(SimError::InvalidRange));
    let bad_mass = EventSettings { mass: 0, ..good };
    assert_eq!(fluid.apply_settings(bad_mass), Err(SimError::InvalidRange));
    let bad_filter = EventSettings { visual_filter: 7, ..good };
    assert_eq!(fluid.apply_settings(bad_filter), Err(SimError::InvalidRange));
    // the rejected bundles changed nothing
    assert_eq!(fluid.particles.mass, 2 * SCALE);
}

#[test]
fn plain_filter_resets_colors() {
    let mut fluid = fluid_with_particles(vec![c_vect(50 * SCALE, 50 * SCALE)], 200 * SCALE);
    fluid.set_colors(vec![0x11223344]).unwrap();
    assert_eq!(fluid.particles.colors[0], 0x11223344);
    assert!(fluid.set_colors(vec![1, 2]).is_err());
    let settings = EventSettings {
        collision_restitution: 950_000_000,
        gravity: 0,
        target_density: 750_000_000,
        mass: SCALE,
        pressure_stiffness: 0,
        visual_filter: 0,
        smoothing_radius: 30 * SCALE,
        viscosity_strength: 0,
    };
    fluid.apply_settings(settings).unwrap();
    assert_eq!(fluid.particles.colors[0], DEFAULT_COLOR);
}

#[test]
fn tiny_mass_truncates_density_and_aborts_the_step() {
    let mut fluid = fluid_with_particles(vec![c_vect(50 * SCALE, 50 * SCALE)], 200 * SCALE);
    let settings = EventSettings {
        collision_restitution: 950_000_000,
        gravity: 0,
        target_density: 750_000_000,
        mass: 1,
        pressure_stiffness: 0,
        visual_filter: 0,
        smoothing_radius: 30 * SCALE,
        viscosity_strength: 0,
    };
    fluid.apply_settings(settings).unwrap();
    let before = fluid.particles.positions[0];
    assert_eq!(fluid.update(16_000_000), Err(SimError::InvariantViolation));
    assert_eq!(fluid.particles.positions[0], before);
}

#[test]
fn interactive_force_state_toggles() {
    let mut fluid = Fluid::new();
    assert!(!fluid.interactive_force);
    fluid.apply_interactive_force(c_vect(10 * SCALE, 20 * SCALE), true);
    assert!(fluid.interactive_force);
    assert_eq!(fluid.interactive_force_position, c_vect(10 * SCALE, 20 * SCALE));
    fluid.set_interactive_force(false);
    assert!(!fluid.interactive_force);
}

#[test]
fn fluid_snapshot_is_stable_without_a_step() {
    let mut fluid = fluid_with_particles(
        vec![c_vect(40 * SCALE, 40 * SCALE), c_vect(60 * SCALE, 60 * SCALE)], 200 * SCALE);
    fluid.update(16_000_000).unwrap();
    let one = fluid.get_render_snapshot();
    let two = fluid.get_render_snapshot();
    assert_eq!(one.positions, two.positions);
    assert_eq!(one.velocities, two.velocities);
    assert_eq!(one.densities, two.densities);
    assert_eq!(one.colors, two.colors);
    assert_eq!(one.positions.len(), 2);
}

#[test]
fn initialize_rejects_bad_bounds_and_positions() {
    let mut fluid = Fluid::new();
    assert_eq!(
        fluid.initialize(c_vect(-SCALE, 100 * SCALE), None),
        Err(SimError::InvalidRange));
    assert!(fluid.initialize(c_vect(100 * SCALE, 100 * SCALE), None).is_ok());
    assert_eq!(fluid.box_bound_x, 100 * SCALE);
    assert_eq!(
        fluid.initialize(c_vect(100 * SCALE, 100 * SCALE), Some(vec![c_vect(i64::MAX, 0)])),
        Err(SimError::InvalidRange));
}

#[test]
fn pressure_is_density_error_times_stiffness() {
    let particles = FluidParticles::new(SCALE, 5 * SCALE, 2 * SCALE, 3 * SCALE, 30 * SCALE);
    // density three against a target of two, stiffness three: pressure three
    assert_eq!(particles.calculate_pressure(3 * SCALE), 3 * SCALE);
    assert_eq!(particles.calculate_pressure(2 * SCALE), 0);
    assert_eq!(particles.calculate_pressure(SCALE), -3 * SCALE);
}

#[test]
fn gravity_accelerates_particles_downward() {
    let mut fluid = fluid_with_particles(vec![c_vect(100 * SCALE, 50 * SCALE)], 200 * SCALE);
    let settings = EventSettings {
        collision_restitution: 950_000_000,
        gravity: 10 * SCALE,
        target_density: 750_000_000,
        mass: SCALE,
        pressure_stiffness: 0,
        visual_filter: 0,
        smoothing_radius: 30 * SCALE,
        viscosity_strength: 0,
    };
    fluid.apply_settings(settings).unwrap();
    let y_before = fluid.particles.positions[0].y;
    fluid.update(100_000_000).unwrap();
    assert!(fluid.particles.velocities[0].y > 0);
    assert!(fluid.particles.positions[0].y > y_before);
}

#[test]
fn error_messages_name_their_kind() {
    assert_eq!(SimError::Uninitialized.message(), "no simulation state exists yet");
    assert_eq!(SimError::InvalidRange.message(), "value outside the admissible range");
    assert_eq!(
        SimError::InvariantViolation.message(), "zero density in pressure division");
}
