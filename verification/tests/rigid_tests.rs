//! Tests of the rigid-body engine: shapes, collision detection, contact
//! points, impulse resolution, and the world stepper.

use phys2d::fxp::{fx_mul, fx_div, SCALE, PI_FX};
use phys2d::vec2::{Vector2D, c_vect, vec_zero};
use phys2d::body::{
    RigidBody, ShapeType, which_shape, triangulate_box, creat_vertices_box, initializer_r,
    create_circle_body_check, create_box_body_check,
};
use phys2d::world::WorkSpace;
use phys2d::collisions::{
    intersect_circles, intersect_polygon2, intersect_polygon_circles2, collide,
    project_vertices, project_circle, closest_point, find_arithmetic_mean, min,
};
use phys2d::contact::{
    point_segment_distance, find_contact_point_cc, find_contact_point_cb,
    find_contact_point_bb, find_contact_points, init_manifold, ManiFold,
};
use phys2d::resolver::{separate_bodies, resolve_collision_basic, resolve_collision_with_rotation};
use phys2d::rigid_sim::RigidSimulation;

fn dynamic_circle(x: i64, y: i64, radius: i64, mass: i64, restitution: i64) -> RigidBody {
    let inertia = fx_div(fx_mul(mass, fx_mul(radius, radius)), 2 * SCALE);
    initializer_r(
        c_vect(x, y), SCALE, mass, restitution, fx_mul(fx_mul(radius, radius), PI_FX),
        false, radius, 0, 0, ShapeType::Circle, inertia)
}

fn static_box(x: i64, y: i64, w: i64, h: i64) -> RigidBody {
    initializer_r(
        c_vect(x, y), SCALE, 5 * SCALE, 0, fx_mul(w, h), true, 0, w, h, ShapeType::Box, 0)
}

fn dynamic_box(x: i64, y: i64, w: i64, h: i64, mass: i64) -> RigidBody {
    let side_sq = fx_mul(w, w) + fx_mul(h, h);
    let inertia = fx_div(fx_mul(mass, side_sq), 12 * SCALE);
    initializer_r(
        c_vect(x, y), SCALE, mass, SCALE / 2, fx_mul(w, h), false, 0, w, h,
        ShapeType::Box, inertia)
}

#[test]
fn shape_tags() {
    assert_eq!(which_shape(ShapeType::Circle), 0);
    assert_eq!(which_shape(ShapeType::Box), 1);
    assert_eq!(triangulate_box(), vec![0, 1, 2, 0, 2, 3]);
}

#[test]
fn box_vertices_centered() {
    let vs = creat_vertices_box(10 * SCALE, 6 * SCALE);
    assert_eq!(vs.len(), 4);
    assert_eq!(vs[0], c_vect(-5 * SCALE, 3 * SCALE));
    assert_eq!(vs[1], c_vect(5 * SCALE, 3 * SCALE));
    assert_eq!(vs[2], c_vect(5 * SCALE, -3 * SCALE));
    assert_eq!(vs[3], c_vect(-5 * SCALE, -3 * SCALE));
}

#[test]
fn circle_collision_iff_distance_under_radii() {
    // radius ten each, centers fifteen apart: depth is exactly five
    let r = intersect_circles(c_vect(0, 0), 10 * SCALE, c_vect(15 * SCALE, 0), 10 * SCALE);
    assert!(r.0);
    assert_eq!(r.2, 5 * SCALE);
    assert_eq!(r.1, c_vect(SCALE, 0));
    // centers twenty-five apart: no collision
    let far = intersect_circles(c_vect(0, 0), 10 * SCALE, c_vect(25 * SCALE, 0), 10 * SCALE);
    assert!(!far.0);
    assert_eq!(far.2, 0);
    // exactly touching counts as no collision
    let touch = intersect_circles(c_vect(0, 0), 10 * SCALE, c_vect(20 * SCALE, 0), 10 * SCALE);
    assert!(!touch.0);
}

#[test]
fn coincident_circles_collide_with_bounded_normal() {
    let r = intersect_circles(c_vect(5 * SCALE, 5 * SCALE), 10 * SCALE,
        c_vect(5 * SCALE, 5 * SCALE), 10 * SCALE);
    assert!(r.0);
    assert_eq!(r.2, 20 * SCALE);
    assert!(-SCALE <= r.1.x && r.1.x <= SCALE);
    assert!(-SCALE <= r.1.y && r.1.y <= SCALE);
}

#[test]
fn projections_cover_vertex_range() {
    let vs = creat_vertices_box(10 * SCALE, 10 * SCALE);
    let (lo, hi) = project_vertices(&vs, c_vect(SCALE, 0));
    assert_eq!(lo, -5 * SCALE);
    assert_eq!(hi, 5 * SCALE);
    let (clo, chi) = project_circle(c_vect(3 * SCALE, 0), 2 * SCALE, c_vect(SCALE, 0));
    assert_eq!(clo, SCALE);
    assert_eq!(chi, 5 * SCALE);
}

#[test]
fn closest_point_and_mean() {
    let vs = creat_vertices_box(10 * SCALE, 10 * SCALE);
    let idx = closest_point(c_vect(6 * SCALE, 6 * SCALE), &vs);
    assert_eq!(idx, 1);
    let mean = find_arithmetic_mean(&vs);
    assert_eq!(mean, vec_zero());
    assert_eq!(min(3, 7), 3);
}

#[test]
fn overlapping_boxes_collide_on_least_axis() {
    let a = creat_vertices_box(10 * SCALE, 10 * SCALE);
    let mut b_vs: Vec<Vector2D> = Vec::new();
    for v in creat_vertices_box(10 * SCALE, 10 * SCALE) {
        b_vs.push(c_vect(v.x + 5 * SCALE, v.y));
    }
    let r = intersect_polygon2(vec_zero(), &a, c_vect(5 * SCALE, 0), &b_vs);
    assert!(r.0);
    assert_eq!(r.2, 5 * SCALE);
    assert_eq!(r.1, c_vect(SCALE, 0));
}

#[test]
fn separated_boxes_do_not_collide() {
    let a = creat_vertices_box(10 * SCALE, 10 * SCALE);
    let mut b_vs: Vec<Vector2D> = Vec::new();
    for v in creat_vertices_box(10 * SCALE, 10 * SCALE) {
        b_vs.push(c_vect(v.x + 20 * SCALE, v.y));
    }
    let r = intersect_polygon2(vec_zero(), &a, c_vect(20 * SCALE, 0), &b_vs);
    assert!(!r.0);
}

#[test]
fn circle_against_box_collides() {
    let vs = creat_vertices_box(10 * SCALE, 10 * SCALE);
    // circle centered right of the box, overlapping its edge
    let r = intersect_polygon_circles2(c_vect(7 * SCALE, 0), 3 * SCALE, vec_zero(), &vs);
    assert!(r.0);
    assert_eq!(r.2, SCALE);
    // normal points from the circle toward the polygon center
    assert_eq!(r.1, c_vect(-SCALE, 0));
    let far = intersect_polygon_circles2(c_vect(10 * SCALE, 0), 3 * SCALE, vec_zero(), &vs);
    assert!(!far.0);
}

#[test]
fn point_segment_projection_clamps() {
    // above the middle of the segment
    let (dsq, cp) = point_segment_distance(
        c_vect(0, 5 * SCALE), c_vect(-5 * SCALE, 0), c_vect(5 * SCALE, 0));
    assert_eq!(cp, vec_zero());
    assert_eq!(dsq, 25 * SCALE);
    // beyond the first endpoint
    let (_, cpa) = point_segment_distance(
        c_vect(-9 * SCALE, 0), c_vect(-5 * SCALE, 0), c_vect(5 * SCALE, 0));
    assert_eq!(cpa, c_vect(-5 * SCALE, 0));
    // beyond the second endpoint
    let (_, cpb) = point_segment_distance(
        c_vect(9 * SCALE, 0), c_vect(-5 * SCALE, 0), c_vect(5 * SCALE, 0));
    assert_eq!(cpb, c_vect(5 * SCALE, 0));
}

#[test]
fn circle_contact_point_on_boundary() {
    let cp = find_contact_point_cc(c_vect(0, 0), 10 * SCALE, c_vect(20 * SCALE, 0));
    assert_eq!(cp, c_vect(10 * SCALE, 0));
}

#[test]
fn box_box_contacts_on_shared_edge() {
    let a = creat_vertices_box(10 * SCALE, 10 * SCALE);
    let mut b_vs: Vec<Vector2D> = Vec::new();
    for v in creat_vertices_box(10 * SCALE, 10 * SCALE) {
        b_vs.push(c_vect(v.x + 10 * SCALE, v.y));
    }
    // boxes meeting along a full edge share two contact points
    let (c1, c2, cn) = find_contact_point_bb(&a, &b_vs);
    assert_eq!(cn, 2);
    assert!(c1 != c2);
    assert_eq!(c1.x, 5 * SCALE);
    assert_eq!(c2.x, 5 * SCALE);
}

#[test]
fn contact_dispatch_by_shape() {
    let mut bodies = vec![
        dynamic_circle(0, 0, 10 * SCALE, 5 * SCALE, SCALE),
        dynamic_circle(15 * SCALE, 0, 10 * SCALE, 5 * SCALE, SCALE),
    ];
    let (c1, _, cn) = find_contact_points(&mut bodies, 0, 1);
    assert_eq!(cn, 1);
    assert_eq!(c1, c_vect(10 * SCALE, 0));
    let r = collide(&mut bodies, 0, 1);
    assert!(r.0);
    assert_eq!(r.2, 5 * SCALE);
}

#[test]
fn head_on_equal_circles_swap_velocities() {
    // radius ten, restitution one, equal masses, approaching at speed five
    let mut a = dynamic_circle(0, 0, 10 * SCALE, 5 * SCALE, SCALE);
    a.linear_velocity = c_vect(5 * SCALE, 0);
    let mut b = dynamic_circle(15 * SCALE, 0, 10 * SCALE, 5 * SCALE, SCALE);
    b.linear_velocity = c_vect(-5 * SCALE, 0);
    let mut bodies = vec![a, b];
    let normal = c_vect(SCALE, 0);
    let mani = init_manifold(0, 1, normal, 5 * SCALE, c_vect(7_500_000_000, 0), vec_zero(), 1);
    resolve_collision_basic(&mut bodies, mani);
    assert_eq!(bodies[0].linear_velocity, c_vect(-5 * SCALE, 0));
    assert_eq!(bodies[1].linear_velocity, c_vect(5 * SCALE, 0));
}

#[test]
fn impulse_conserves_momentum_two_bodies() {
    // unequal nice masses: one and four units
    let mut a = dynamic_circle(0, 0, 10 * SCALE, SCALE, SCALE);
    a.linear_velocity = c_vect(4 * SCALE, 0);
    let mut b = dynamic_circle(15 * SCALE, 0, 10 * SCALE, 4 * SCALE, SCALE);
    b.linear_velocity = c_vect(-SCALE, 0);
    let before = fx_mul(a.mass, a.linear_velocity.x) + fx_mul(b.mass, b.linear_velocity.x);
    let mut bodies = vec![a, b];
    let mani = init_manifold(0, 1, c_vect(SCALE, 0), 5 * SCALE, c_vect(10 * SCALE, 0),
        vec_zero(), 1);
    resolve_collision_basic(&mut bodies, mani);
    let after = fx_mul(bodies[0].mass, bodies[0].linear_velocity.x)
        + fx_mul(bodies[1].mass, bodies[1].linear_velocity.x);
    assert_eq!(before, after);
}

#[test]
fn separation_moves_only_dynamic_bodies() {
    let wall = static_box(0, 0, 10 * SCALE, 10 * SCALE);
    let mut ball = dynamic_circle(6 * SCALE, 0, 2 * SCALE, 5 * SCALE, SCALE / 2);
    let mut bodies = vec![wall, ball];
    separate_bodies(&mut bodies, 0, 1, c_vect(SCALE, 0), SCALE);
    assert_eq!(bodies[0].position, c_vect(0, 0));
    assert_eq!(bodies[1].position, c_vect(7 * SCALE, 0));
}

#[test]
fn static_body_never_moves_across_steps() {
    let mut ws = WorkSpace::new();
    ws.add_body(static_box(0, 30 * SCALE, 40 * SCALE, 4 * SCALE));
    let mut ball = dynamic_circle(0, 0, 3 * SCALE, 5 * SCALE, SCALE / 2);
    ball.angular_velocity = SCALE / 10;
    ws.add_body(ball);
    let wall_before = (ws.body_list[0].position, ws.body_list[0].linear_velocity,
        ws.body_list[0].angular_velocity, ws.body_list[0].angle);
    for _ in 0..100 {
        ws.step(16_000_000, 4);
    }
    let wall_after = (ws.body_list[0].position, ws.body_list[0].linear_velocity,
        ws.body_list[0].angular_velocity, ws.body_list[0].angle);
    assert_eq!(wall_before, wall_after);
}

#[test]
fn falling_circle_rests_on_floor() {
    // gravity pulls toward negative y; a static floor's top edge sits at
    // y zero; the ball's bottom edge never sinks below it by more than a
    // hair
    let mut ws = WorkSpace::new();
    ws.gravity = c_vect(0, -9_810_000_000);
    ws.add_body(static_box(0, -5 * SCALE, 100 * SCALE, 10 * SCALE));
    ws.add_body(dynamic_circle(0, 40 * SCALE, 5 * SCALE, 5 * SCALE, 0));
    let radius = 5 * SCALE;
    let eps = SCALE / 10;
    for _ in 0..300 {
        ws.step(16_000_000, 8);
        let bottom = ws.body_list[1].position.y - radius;
        assert!(bottom >= -eps, "ball sank below the floor: {}", bottom);
    }
}

#[test]
fn body_creation_validates_world_bounds() {
    let ws = WorkSpace::new();
    let ok = create_circle_body_check(5 * SCALE, vec_zero(), SCALE, false, SCALE / 2, &ws);
    assert!(ok.is_some());
    let body = ok.unwrap();
    assert_eq!(body.radius, 5 * SCALE);
    assert!(!body.is_static);
    assert!(body.inv_mass > 0);
    // a tiny area is rejected by the world's lower bound
    let small = create_circle_body_check(1000, vec_zero(), SCALE, false, SCALE / 2, &ws);
    assert!(small.is_none());
    // an out-of-range density is rejected
    let dense = create_circle_body_check(5 * SCALE, vec_zero(), 100 * SCALE, false, 0, &ws);
    assert!(dense.is_none());
    let okb = create_box_body_check(4 * SCALE, 4 * SCALE, vec_zero(), SCALE, true, 0, &ws);
    assert!(okb.is_some());
    assert_eq!(okb.unwrap().inv_mass, 0);
}

#[test]
fn arena_add_remove_reindexes() {
    let mut ws = WorkSpace::new();
    ws.add_body(static_box(0, 0, 10 * SCALE, 10 * SCALE));
    ws.add_body(static_box(20 * SCALE, 0, 10 * SCALE, 10 * SCALE));
    ws.add_body(static_box(40 * SCALE, 0, 10 * SCALE, 10 * SCALE));
    assert_eq!(ws.body_count, 3);
    assert_eq!(ws.body_list[2].index, 2);
    assert!(ws.remove_body(1));
    assert_eq!(ws.body_count, 2);
    assert_eq!(ws.body_list[1].position, c_vect(40 * SCALE, 0));
    assert_eq!(ws.body_list[1].index, 1);
    assert!(!ws.remove_body(5));
}

#[test]
fn rigid_snapshot_is_stable_without_a_step() {
    let mut sim = RigidSimulation::new(c_vect(200 * SCALE, 200 * SCALE), None);
    sim.initialize(c_vect(200 * SCALE, 200 * SCALE),
        Some(vec![c_vect(100 * SCALE, 50 * SCALE), c_vect(60 * SCALE, 90 * SCALE)]));
    sim.update(16_000_000);
    let one = sim.get_render_snapshot();
    let two = sim.get_render_snapshot();
    assert_eq!(one, two);
    assert_eq!(one.len(), 6);
    assert!(one[4].shape);
}

#[test]
fn stepping_applies_gravity_to_dynamic_bodies() {
    let mut ws = WorkSpace::new();
    ws.add_body(dynamic_circle(0, 0, 3 * SCALE, 5 * SCALE, SCALE / 2));
    ws.step(SCALE, 1);
    // one second of default gravity at one substep
    assert_eq!(ws.body_list[0].linear_velocity, c_vect(0, 9_810_000_000));
    assert_eq!(ws.body_list[0].position, c_vect(0, 9_810_000_000));
}
