//! Collision resolution: positional separation and velocity impulses with
//! restitution and angular response.

use vstd::prelude::*;
use crate::fxp::{
    fx_add, fx_add_s, fx_sub_s, fx_mul, fx_mul_s, fx_div, fx_div_s, fx_neg, fx_neg_s, sabs, SCALE,
};
use crate::vec2::{
    Vector2D, mn, sm, dot_s, vec_zero, spec_mn, spec_sm, spec_scale, spec_dot, spec_cross,
    spec_vec,
};
use crate::body::RigidBody;
use crate::contact::ManiFold;

verus! {

/// Pushes two overlapping bodies apart along the collision normal: a
/// static partner leaves the whole depth to the dynamic body; two dynamic
/// bodies each move half the depth.
pub fn separate_bodies(
    body_list: &mut Vec<RigidBody>,
    idx_a: usize,
    idx_b: usize,
    norm: Vector2D,
    depth: i64,
)
    requires
        idx_a < old(body_list)@.len(),
        idx_b < old(body_list)@.len(),
        idx_a != idx_b,
        old(body_list)@[idx_a as int].wf(),
        old(body_list)@[idx_b as int].wf(),
        !(old(body_list)@[idx_a as int].is_static && old(body_list)@[idx_b as int].is_static),
    ensures
        final(body_list)@.len() == old(body_list)@.len(),
        forall|i: int| 0 <= i < old(body_list)@.len() && i != idx_a && i != idx_b
            ==> final(body_list)@[i] == old(body_list)@[i],
        final(body_list)@[idx_a as int].wf(),
        final(body_list)@[idx_b as int].wf(),
        ({
            let a = old(body_list)@[idx_a as int];
            let b = old(body_list)@[idx_b as int];
            let fa = final(body_list)@[idx_a as int];
            let fb = final(body_list)@[idx_b as int];
            if a.is_static {
                fa == a && fb == (RigidBody {
                    position: spec_sm(b.position, spec_scale(norm, depth as int)),
                    tfv_required: true,
                    aabb_update: true,
                    ..b
                })
            } else if b.is_static {
                fb == b && fa == (RigidBody {
                    position: spec_sm(a.position,
                        spec_scale(spec_scale(norm, -(SCALE as int)), depth as int)),
                    tfv_required: true,
                    aabb_update: true,
                    ..a
                })
            } else {
                let half = fx_div_s(depth as int, 2 * (SCALE as int));
                fa == (RigidBody {
                    position: spec_sm(a.position,
                        spec_scale(spec_scale(norm, -(SCALE as int)), half)),
                    tfv_required: true,
                    aabb_update: true,
                    ..a
                }) && fb == (RigidBody {
                    position: spec_sm(b.position, spec_scale(norm, half)),
                    tfv_required: true,
                    aabb_update: true,
                    ..b
                })
            }
        }),
        forall|i: int| 0 <= i < old(body_list)@.len()
            ==> (#[trigger] final(body_list)@[i]).linear_velocity
                    == old(body_list)@[i].linear_velocity
                && final(body_list)@[i].angular_velocity
                    == old(body_list)@[i].angular_velocity,
{
    let a_static: bool = body_list[idx_a].is_static;
    let b_static: bool = body_list[idx_b].is_static;
    if a_static {
        let mut b: RigidBody = body_list.remove(idx_b);
        b.moves(dot_s(norm, depth));
        body_list.insert(idx_b, b);
    } else if b_static {
        let mut a: RigidBody = body_list.remove(idx_a);
        a.moves(dot_s(dot_s(norm, -SCALE), depth));
        body_list.insert(idx_a, a);
    } else {
        let half: i64 = fx_div(depth, 2 * SCALE);
        let mut a: RigidBody = body_list.remove(idx_a);
        a.moves(dot_s(dot_s(norm, -SCALE), half));
        body_list.insert(idx_a, a);
        let mut b: RigidBody = body_list.remove(idx_b);
        b.moves(dot_s(norm, half));
        body_list.insert(idx_b, b);
    }
}

/// The linear impulse magnitude of a contactless resolution, in
/// specifications, and the velocities after it. With a separating pair or
/// two static bodies nothing changes.
pub open spec fn spec_resolve_basic(a: RigidBody, b: RigidBody, normal: Vector2D)
    -> (Vector2D, Vector2D) {
    let e = if a.restitution < b.restitution { a.restitution as int } else { b.restitution as int };
    let rv = spec_mn(b.linear_velocity, a.linear_velocity);
    let d = spec_dot(rv, normal);
    let denom = fx_add_s(a.inv_mass as int, b.inv_mass as int);
    if d > 0 || denom == 0 {
        (a.linear_velocity, b.linear_velocity)
    } else {
        let j = fx_div_s(fx_neg_s(fx_mul_s(fx_add_s(SCALE as int, e), d)), denom);
        let impulse = spec_scale(normal, j);
        (
            spec_mn(a.linear_velocity, spec_scale(impulse, a.inv_mass as int)),
            spec_sm(b.linear_velocity, spec_scale(impulse, b.inv_mass as int)),
        )
    }
}

/// Applies a velocity impulse without angular response: the impulse is
/// the relative normal velocity scaled by the shared restitution, split
/// by the inverse masses. A separating pair is left alone; a static body
/// never changes velocity.
#[verifier::rlimit(60)]
pub fn resolve_collision_basic(body_s: &mut Vec<RigidBody>, mani: ManiFold)
    requires
        mani.body_a < old(body_s)@.len(),
        mani.body_b < old(body_s)@.len(),
        mani.body_a != mani.body_b,
        old(body_s)@[mani.body_a as int].wf(),
        old(body_s)@[mani.body_b as int].wf(),
    ensures
        final(body_s)@.len() == old(body_s)@.len(),
        forall|i: int| 0 <= i < old(body_s)@.len() && i != mani.body_a && i != mani.body_b
            ==> final(body_s)@[i] == old(body_s)@[i],
        ({
            let a = old(body_s)@[mani.body_a as int];
            let b = old(body_s)@[mani.body_b as int];
            let out = spec_resolve_basic(a, b, mani.normal);
            final(body_s)@[mani.body_a as int] == (RigidBody { linear_velocity: out.0, ..a })
                && final(body_s)@[mani.body_b as int] == (RigidBody { linear_velocity: out.1, ..b })
        }),
        old(body_s)@[mani.body_a as int].is_static
            ==> final(body_s)@[mani.body_a as int] == old(body_s)@[mani.body_a as int],
        old(body_s)@[mani.body_b as int].is_static
            ==> final(body_s)@[mani.body_b as int] == old(body_s)@[mani.body_b as int],
{
    let idx_a: usize = mani.get_body_a();
    let idx_b: usize = mani.get_body_b();
    let normal: Vector2D = mani.get_normal();
    let rest_a: i64 = body_s[idx_a].restitution;
    let rest_b: i64 = body_s[idx_b].restitution;
    let e: i64 = if rest_a < rest_b { rest_a } else { rest_b };
    let va: Vector2D = body_s[idx_a].linear_velocity;
    let vb: Vector2D = body_s[idx_b].linear_velocity;
    let inv_ma: i64 = body_s[idx_a].inv_mass;
    let inv_mb: i64 = body_s[idx_b].inv_mass;
    let rv: Vector2D = mn(vb, va);
    let d: i64 = rv.dot(normal);
    let denom: i64 = fx_add(inv_ma, inv_mb);
    if d > 0 || denom == 0 {
        proof {
            lemma_scale_by_zero_inv(spec_scale(normal, 0), 0);
        }
        return;
    }
    let j: i64 = fx_div(fx_neg(fx_mul(fx_add(SCALE, e), d)), denom);
    let impulse: Vector2D = dot_s(normal, j);
    let mut a: RigidBody = body_s.remove(idx_a);
    a.linear_velocity = mn(a.linear_velocity, dot_s(impulse, inv_ma));
    body_s.insert(idx_a, a);
    let mut b: RigidBody = body_s.remove(idx_b);
    b.linear_velocity = sm(b.linear_velocity, dot_s(impulse, inv_mb));
    body_s.insert(idx_b, b);
    proof {
        lemma_scale_by_zero_inv(impulse, 0);
    }
}

/// The impulse vector of one contact point, in specifications, computed
/// from the pre-impulse velocities of the pair: the relative velocity of
/// the contact point (linear plus angular contribution) against the
/// normal, scaled by the shared restitution, divided by the combined
/// inverse masses and inertial terms and split over the contact count.
/// A separating contact, a fully static pair, or an empty manifold
/// contributes no impulse.
#[verifier::opaque]
pub open spec fn spec_impulse_for(
    a: RigidBody, b: RigidBody, normal: Vector2D, contact: Vector2D, e: int, cn: int,
) -> Vector2D {
    let ra = spec_mn(contact, a.position);
    let rb = spec_mn(contact, b.position);
    let ra_perp = spec_vec(fx_neg_s(ra.y as int), ra.x as int);
    let rb_perp = spec_vec(fx_neg_s(rb.y as int), rb.x as int);
    let alv_a = spec_scale(ra_perp, a.angular_velocity as int);
    let alv_b = spec_scale(rb_perp, b.angular_velocity as int);
    let rel = spec_mn(
        spec_sm(b.linear_velocity, alv_b),
        spec_sm(a.linear_velocity, alv_a),
    );
    let cvm = spec_dot(rel, normal);
    let rpn_a = spec_dot(ra_perp, normal);
    let rpn_b = spec_dot(rb_perp, normal);
    let denom = fx_add_s(
        fx_add_s(a.inv_mass as int, b.inv_mass as int),
        fx_add_s(
            fx_mul_s(fx_mul_s(rpn_a, rpn_a), a.inv_inertia as int),
            fx_mul_s(fx_mul_s(rpn_b, rpn_b), b.inv_inertia as int),
        ),
    );
    if cvm > 0 || denom == 0 || cn <= 0 {
        Vector2D { x: 0i64, y: 0i64 }
    } else {
        let j = fx_div_s(
            fx_div_s(fx_neg_s(fx_mul_s(fx_add_s(SCALE as int, e), cvm)), denom),
            cn * (SCALE as int),
        );
        spec_scale(normal, j)
    }
}

/// The velocity state of a pair after one impulse is applied at a contact
/// point, in specifications: the impulse scaled by each inverse mass goes
/// into the linear velocities (backward for the first body), and its
/// cross product with each contact offset scaled by the inverse inertia
/// goes into the angular velocities.
pub open spec fn spec_apply_impulse(
    st: ((Vector2D, int), (Vector2D, int)),
    imp: Vector2D,
    ra: Vector2D,
    rb: Vector2D,
    inv_ma: int,
    inv_ia: int,
    inv_mb: int,
    inv_ib: int,
) -> ((Vector2D, int), (Vector2D, int)) {
    (
        (
            spec_sm(st.0.0, spec_scale(spec_scale(imp, -(SCALE as int)), inv_ma)),
            fx_add_s(st.0.1, fx_mul_s(fx_neg_s(spec_cross(ra, imp)), inv_ia)),
        ),
        (
            spec_sm(st.1.0, spec_scale(imp, inv_mb)),
            fx_add_s(st.1.1, fx_mul_s(spec_cross(rb, imp), inv_ib)),
        ),
    )
}

/// The velocity state of a pair after a manifold is resolved with
/// rotation, in specifications: both contact impulses are computed from
/// the pre-impulse state, then applied in order.
pub open spec fn spec_resolve_rotation(a: RigidBody, b: RigidBody, mani: ManiFold)
    -> ((Vector2D, int), (Vector2D, int)) {
    let e = if a.restitution < b.restitution { a.restitution as int } else { b.restitution as int };
    let cn = mani.contact_count as int;
    let zero = Vector2D { x: 0i64, y: 0i64 };
    let imp1 = if cn >= 1 { spec_impulse_for(a, b, mani.normal, mani.contact1, e, cn) } else { zero };
    let imp2 = if cn >= 2 { spec_impulse_for(a, b, mani.normal, mani.contact2, e, cn) } else { zero };
    let ra1 = spec_mn(mani.contact1, a.position);
    let rb1 = spec_mn(mani.contact1, b.position);
    let ra2 = spec_mn(mani.contact2, a.position);
    let rb2 = spec_mn(mani.contact2, b.position);
    let st0 = ((a.linear_velocity, a.angular_velocity as int), (b.linear_velocity, b.angular_velocity as int));
    let st1 = spec_apply_impulse(st0, imp1, ra1, rb1,
        a.inv_mass as int, a.inv_inertia as int, b.inv_mass as int, b.inv_inertia as int);
    spec_apply_impulse(st1, imp2, ra2, rb2,
        a.inv_mass as int, a.inv_inertia as int, b.inv_mass as int, b.inv_inertia as int)
}

/// Applies the velocity impulses of a manifold with angular response.
/// A static body's linear and angular velocity never change.
#[verifier::rlimit(100)]
#[verifier::spinoff_prover]
pub fn resolve_collision_with_rotation(body_s: &mut Vec<RigidBody>, mani: ManiFold)
    requires
        mani.body_a < old(body_s)@.len(),
        mani.body_b < old(body_s)@.len(),
        mani.body_a != mani.body_b,
        old(body_s)@[mani.body_a as int].wf(),
        old(body_s)@[mani.body_b as int].wf(),
    ensures
        final(body_s)@.len() == old(body_s)@.len(),
        forall|i: int| 0 <= i < old(body_s)@.len() && i != mani.body_a && i != mani.body_b
            ==> final(body_s)@[i] == old(body_s)@[i],
        ({
            let a = old(body_s)@[mani.body_a as int];
            let b = old(body_s)@[mani.body_b as int];
            let out = spec_resolve_rotation(a, b, mani);
            final(body_s)@[mani.body_a as int] == (RigidBody {
                linear_velocity: out.0.0,
                angular_velocity: out.0.1 as i64,
                ..a
            }) && final(body_s)@[mani.body_b as int] == (RigidBody {
                linear_velocity: out.1.0,
                angular_velocity: out.1.1 as i64,
                ..b
            })
        }),
        old(body_s)@[mani.body_a as int].is_static
            ==> final(body_s)@[mani.body_a as int] == old(body_s)@[mani.body_a as int],
        old(body_s)@[mani.body_b as int].is_static
            ==> final(body_s)@[mani.body_b as int] == old(body_s)@[mani.body_b as int],
{
    let idx_a: usize = mani.get_body_a();
    let idx_b: usize = mani.get_body_b();
    let normal: Vector2D = mani.get_normal();
    let c1: Vector2D = mani.get_contact1();
    let c2: Vector2D = mani.get_contact2();
    let cn: i32 = mani.get_contact_count();

    let pos_a: Vector2D = body_s[idx_a].position;
    let pos_b: Vector2D = body_s[idx_b].position;
    let rest_a: i64 = body_s[idx_a].restitution;
    let rest_b: i64 = body_s[idx_b].restitution;
    let inv_ma: i64 = body_s[idx_a].inv_mass;
    let inv_mb: i64 = body_s[idx_b].inv_mass;
    let inv_ia: i64 = body_s[idx_a].inv_inertia;
    let inv_ib: i64 = body_s[idx_b].inv_inertia;
    let va: Vector2D = body_s[idx_a].linear_velocity;
    let vb: Vector2D = body_s[idx_b].linear_velocity;
    let wa: i64 = body_s[idx_a].angular_velocity;
    let wb: i64 = body_s[idx_b].angular_velocity;
    let e: i64 = if rest_a < rest_b { rest_a } else { rest_b };

    let zero: Vector2D = vec_zero();
    let imp1: Vector2D = if cn >= 1 {
        contact_impulse(Ghost(old(body_s)@[mani.body_a as int]),
            Ghost(old(body_s)@[mani.body_b as int]),
            pos_a, pos_b, va, wa, vb, wb, inv_ma, inv_mb, inv_ia, inv_ib,
            normal, c1, e, cn)
    } else {
        zero
    };
    let imp2: Vector2D = if cn >= 2 {
        contact_impulse(Ghost(old(body_s)@[mani.body_a as int]),
            Ghost(old(body_s)@[mani.body_b as int]),
            pos_a, pos_b, va, wa, vb, wb, inv_ma, inv_mb, inv_ia, inv_ib,
            normal, c2, e, cn)
    } else {
        zero
    };
    let ghost aa = old(body_s)@[mani.body_a as int];
    let ghost bb = old(body_s)@[mani.body_b as int];
    let ghost cnn = mani.contact_count as int;
    let ghost zerov = Vector2D { x: 0i64, y: 0i64 };
    let ghost gimp1 = if cnn >= 1 {
        spec_impulse_for(aa, bb, mani.normal, mani.contact1, e as int, cnn)
    } else { zerov };
    let ghost gimp2 = if cnn >= 2 {
        spec_impulse_for(aa, bb, mani.normal, mani.contact2, e as int, cnn)
    } else { zerov };
    proof {
        assert(imp1 == gimp1);
        assert(imp2 == gimp2);
    }

    let ra1: Vector2D = mn(c1, pos_a);
    let rb1: Vector2D = mn(c1, pos_b);
    let ra2: Vector2D = mn(c2, pos_a);
    let rb2: Vector2D = mn(c2, pos_b);

    let ghost st0 = ((aa.linear_velocity, aa.angular_velocity as int),
        (bb.linear_velocity, bb.angular_velocity as int));
    let ghost st1 = spec_apply_impulse(st0, gimp1, spec_mn(mani.contact1, aa.position),
        spec_mn(mani.contact1, bb.position),
        aa.inv_mass as int, aa.inv_inertia as int, bb.inv_mass as int, bb.inv_inertia as int);
    let ghost st2 = spec_apply_impulse(st1, gimp2, spec_mn(mani.contact2, aa.position),
        spec_mn(mani.contact2, bb.position),
        aa.inv_mass as int, aa.inv_inertia as int, bb.inv_mass as int, bb.inv_inertia as int);

    let mut new_va: Vector2D = sm(va, dot_s(dot_s(imp1, -SCALE), inv_ma));
    let mut new_wa: i64 = fx_add(wa, fx_mul(fx_neg(ra1.cross(imp1)), inv_ia));
    let mut new_vb: Vector2D = sm(vb, dot_s(imp1, inv_mb));
    let mut new_wb: i64 = fx_add(wb, fx_mul(rb1.cross(imp1), inv_ib));
    proof {
        assert(new_va == st1.0.0);
        assert(new_wa == st1.0.1);
        assert(new_vb == st1.1.0);
        assert(new_wb == st1.1.1);
    }

    new_va = sm(new_va, dot_s(dot_s(imp2, -SCALE), inv_ma));
    new_wa = fx_add(new_wa, fx_mul(fx_neg(ra2.cross(imp2)), inv_ia));
    new_vb = sm(new_vb, dot_s(imp2, inv_mb));
    new_wb = fx_add(new_wb, fx_mul(rb2.cross(imp2), inv_ib));
    proof {
        assert(new_va == st2.0.0);
        assert(new_wa == st2.0.1);
        assert(new_vb == st2.1.0);
        assert(new_wb == st2.1.1);
        assert(st2 == spec_resolve_rotation(aa, bb, mani));
    }

    set_velocity(body_s, idx_a, new_va, new_wa);
    set_velocity(body_s, idx_b, new_vb, new_wb);

    proof {
        if old(body_s)@[mani.body_a as int].is_static {
            lemma_static_untouched_by_impulses(va, wa, imp1, imp2, ra1, ra2, true);
        }
        if old(body_s)@[mani.body_b as int].is_static {
            lemma_static_untouched_by_impulses(vb, wb, imp1, imp2, rb1, rb2, false);
        }
    }
}

/// The impulse vector of one contact point, computed from the pair's
/// current velocities.
fn contact_impulse(
    ghost_a: Ghost<RigidBody>,
    ghost_b: Ghost<RigidBody>,
    pos_a: Vector2D,
    pos_b: Vector2D,
    va: Vector2D,
    wa: i64,
    vb: Vector2D,
    wb: i64,
    inv_ma: i64,
    inv_mb: i64,
    inv_ia: i64,
    inv_ib: i64,
    normal: Vector2D,
    contact: Vector2D,
    e: i64,
    cn: i32,
) -> (r: Vector2D)
    requires
        cn >= 1,
        ghost_a@.position == pos_a,
        ghost_b@.position == pos_b,
        ghost_a@.linear_velocity == va,
        ghost_b@.linear_velocity == vb,
        ghost_a@.angular_velocity == wa,
        ghost_b@.angular_velocity == wb,
        ghost_a@.inv_mass == inv_ma,
        ghost_b@.inv_mass == inv_mb,
        ghost_a@.inv_inertia == inv_ia,
        ghost_b@.inv_inertia == inv_ib,
    ensures
        r == spec_impulse_for(ghost_a@, ghost_b@, normal, contact, e as int, cn as int),
{
    proof {
        reveal(spec_impulse_for);
    }
    let ra: Vector2D = mn(contact, pos_a);
    let rb: Vector2D = mn(contact, pos_b);
    let ra_perp: Vector2D = Vector2D { x: fx_neg(ra.y), y: ra.x };
    let rb_perp: Vector2D = Vector2D { x: fx_neg(rb.y), y: rb.x };
    let alv_a: Vector2D = dot_s(ra_perp, wa);
    let alv_b: Vector2D = dot_s(rb_perp, wb);
    let rel: Vector2D = mn(sm(vb, alv_b), sm(va, alv_a));
    let cvm: i64 = rel.dot(normal);
    let rpn_a: i64 = ra_perp.dot(normal);
    let rpn_b: i64 = rb_perp.dot(normal);
    let denom: i64 = fx_add(
        fx_add(inv_ma, inv_mb),
        fx_add(fx_mul(fx_mul(rpn_a, rpn_a), inv_ia), fx_mul(fx_mul(rpn_b, rpn_b), inv_ib)),
    );
    if cvm > 0 || denom == 0 {
        return vec_zero();
    }
    let j: i64 = fx_div(
        fx_div(fx_neg(fx_mul(fx_add(SCALE, e), cvm)), denom),
        (cn as i64) * SCALE,
    );
    dot_s(normal, j)
}

/// A body with zero inverse mass and inertia gains nothing from any pair
/// of impulses.
proof fn lemma_static_untouched_by_impulses(
    v: Vector2D, w: i64, imp1: Vector2D, imp2: Vector2D, r1: Vector2D, r2: Vector2D, first: bool,
)
    ensures
        first ==> spec_sm(
            spec_sm(v, spec_scale(spec_scale(imp1, -(SCALE as int)), 0)),
            spec_scale(spec_scale(imp2, -(SCALE as int)), 0)) == v,
        !first ==> spec_sm(spec_sm(v, spec_scale(imp1, 0)), spec_scale(imp2, 0)) == v,
        fx_add_s(
            fx_add_s(w as int, fx_mul_s(fx_neg_s(spec_cross(r1, imp1)), 0)),
            fx_mul_s(fx_neg_s(spec_cross(r2, imp2)), 0)) == w,
        fx_add_s(
            fx_add_s(w as int, fx_mul_s(spec_cross(r1, imp1), 0)),
            fx_mul_s(spec_cross(r2, imp2), 0)) == w,
{
    lemma_scale_by_zero_inv(spec_scale(imp1, -(SCALE as int)), 0);
    lemma_scale_by_zero_inv(spec_scale(imp2, -(SCALE as int)), 0);
    lemma_scale_by_zero_inv(imp1, 0);
    lemma_scale_by_zero_inv(imp2, 0);
    assert(sabs(fx_neg_s(spec_cross(r1, imp1))) * sabs(0) == 0) by (nonlinear_arith);
    assert(sabs(fx_neg_s(spec_cross(r2, imp2))) * sabs(0) == 0) by (nonlinear_arith);
    assert(sabs(spec_cross(r1, imp1)) * sabs(0) == 0) by (nonlinear_arith);
    assert(sabs(spec_cross(r2, imp2)) * sabs(0) == 0) by (nonlinear_arith);
}

/// Exact division scaled: dividing an exact multiple and multiplying back
/// restores the number.
proof fn lemma_exact_div_mul(x: int, d: int)
    requires
        d > 0,
        x % d == 0,
    ensures
        (x / d) * d == x,
{
    vstd::arithmetic::div_mod::lemma_fundamental_div_mod(x, d);
    assert((x / d) * d == d * (x / d)) by (nonlinear_arith);
}

/// Law: a velocity impulse conserves linear momentum for a two-body,
/// dynamic pair. Each body's velocity moves by the impulse component
/// scaled by its inverse mass, the first backward and the second forward,
/// exactly as the resolvers state; the masses' momentum gains cancel.
/// The law holds per velocity component, wherever the fixed-point
/// divisions are exact (the masses divide the squared scale and the
/// scaled impulse) and no value saturates; rounded divisions conserve
/// momentum only up to quantization.
pub proof fn lemma_impulse_conserves_momentum(va: int, vb: int, ma: int, mb: int, p: int)
    requires
        0 < ma <= i64::MAX,
        0 < mb <= i64::MAX,
        -i64::MAX <= p <= i64::MAX,
        ((SCALE as int) * (SCALE as int)) % ma == 0,
        ((SCALE as int) * (SCALE as int)) % mb == 0,
        (p * (SCALE as int)) % ma == 0,
        (p * (SCALE as int)) % mb == 0,
        -i64::MAX <= p * (SCALE as int) / ma <= i64::MAX,
        -i64::MAX <= p * (SCALE as int) / mb <= i64::MAX,
        i64::MIN <= va - p * (SCALE as int) / ma <= i64::MAX,
        i64::MIN <= vb + p * (SCALE as int) / mb <= i64::MAX,
    ensures
        ({
            let inv_ma = fx_div_s(SCALE as int, ma);
            let inv_mb = fx_div_s(SCALE as int, mb);
            let va2 = fx_sub_s(va, fx_mul_s(p, inv_ma));
            let vb2 = fx_add_s(vb, fx_mul_s(p, inv_mb));
            ma * (va2 - va) + mb * (vb2 - vb) == 0
        }),
{
    let s = SCALE as int;
    lemma_exact_scaled_velocity_change(ma, p);
    lemma_exact_scaled_velocity_change(mb, p);
    let dva = fx_mul_s(p, fx_div_s(s, ma));
    let dvb = fx_mul_s(p, fx_div_s(s, mb));
    assert(dva == p * s / ma);
    assert(dvb == p * s / mb);
    let va2 = fx_sub_s(va, dva);
    let vb2 = fx_add_s(vb, dvb);
    assert(va2 == va - dva);
    assert(vb2 == vb + dvb);
    lemma_exact_div_mul(p * s, ma);
    lemma_exact_div_mul(p * s, mb);
    assert(ma * (va2 - va) + mb * (vb2 - vb) == 0) by (nonlinear_arith)
        requires
            va2 - va == -(dva as int),
            vb2 - vb == dvb,
            dva * ma == p * s,
            dvb * mb == p * s,
    ;
}

/// The fixed-point impulse-over-mass product is the exact quotient
/// `p * SCALE / m` when the divisions are exact and nothing saturates.
proof fn lemma_exact_scaled_velocity_change(m: int, p: int)
    requires
        0 < m <= i64::MAX,
        -i64::MAX <= p <= i64::MAX,
        ((SCALE as int) * (SCALE as int)) % m == 0,
        (p * (SCALE as int)) % m == 0,
        -i64::MAX <= p * (SCALE as int) / m <= i64::MAX,
    ensures
        fx_mul_s(p, fx_div_s(SCALE as int, m)) == p * (SCALE as int) / m,
{
    let s = SCALE as int;
    let inv = fx_div_s(s, m);
    assert(s * s / m >= 0) by {
        vstd::arithmetic::div_mod::lemma_div_is_ordered(0, s * s, m);
    }
    assert(s * s / m <= s * s) by {
        vstd::arithmetic::div_mod::lemma_div_is_ordered_by_denominator(s * s, 1, m);
    }
    assert(inv == s * s / m);
    // the magnitude of the scaled impulse, divided exactly by the mass
    let k = sabs(p) * s / m;
    assert((sabs(p) * s) % m == 0 && sabs(p) * s == sabs(p * s)) by {
        assert(sabs(p) * s == sabs(p * s)) by (nonlinear_arith)
            requires
                s > 0,
        ;
        if p < 0 {
            let x = p * s;
            vstd::arithmetic::div_mod::lemma_fundamental_div_mod(x, m);
            assert(-x == m * (-(x / m))) by (nonlinear_arith)
                requires
                    x == m * (x / m),
            ;
            vstd::arithmetic::div_mod::lemma_fundamental_div_mod_converse(-x, m, -(x / m), 0);
        }
    }
    lemma_exact_div_mul(sabs(p) * s, m);
    assert(sabs(p) * (s * s / m) == k * s) by (nonlinear_arith)
        requires
            (s * s) % m == 0,
            k * m == sabs(p) * s,
            m > 0,
            s > 0,
            k >= 0,
    {
        lemma_exact_div_mul(s * s, m);
        assert(sabs(p) * (s * s / m) * m == sabs(p) * (s * s));
        assert(k * s * m == sabs(p) * s * s);
    }
    assert(k * s / s == k) by {
        vstd::arithmetic::div_mod::lemma_div_multiples_vanish(k, s);
        assert(s * k == k * s) by (nonlinear_arith);
    }
    assert(sabs(p) * inv / s == k);
    // signs: the truncating product carries the sign of the impulse
    lemma_exact_div_mul(p * s, m);
    if p >= 0 {
        assert(p * s >= 0) by (nonlinear_arith)
            requires
                p >= 0,
                s > 0,
        ;
        vstd::arithmetic::div_mod::lemma_div_is_ordered(0, p * s, m);
        assert(p * s / m == k) by (nonlinear_arith)
            requires
                (p * s / m) * m == p * s,
                k * m == sabs(p) * s,
                sabs(p) * s == p * s,
                p * s / m >= 0,
                k >= 0,
                m > 0,
        ;
        assert(fx_mul_s(p, inv) == k);
    } else {
        assert(p * s < 0) by (nonlinear_arith)
            requires
                p < 0,
                s > 0,
        ;
        vstd::arithmetic::div_mod::lemma_div_is_ordered(p * s, 0, m);
        assert(p * s / m == -k) by (nonlinear_arith)
            requires
                (p * s / m) * m == p * s,
                k * m == sabs(p) * s,
                sabs(p) * s == -(p * s),
                p * s / m <= 0,
                k >= 0,
                m > 0,
        ;
        assert(fx_mul_s(p, inv) == -k);
    }
    assert(fx_mul_s(p, inv) == p * s / m);
}

/// Overwrites the velocity state of one body of the arena.
fn set_velocity(body_s: &mut Vec<RigidBody>, idx: usize, v: Vector2D, w: i64)
    requires
        idx < old(body_s)@.len(),
    ensures
        final(body_s)@.len() == old(body_s)@.len(),
        forall|i: int| 0 <= i < old(body_s)@.len() && i != idx
            ==> final(body_s)@[i] == old(body_s)@[i],
        final(body_s)@[idx as int] == (RigidBody {
            linear_velocity: v,
            angular_velocity: w,
            ..old(body_s)@[idx as int]
        }),
{
    let mut b: RigidBody = body_s.remove(idx);
    b.linear_velocity = v;
    b.angular_velocity = w;
    body_s.insert(idx, b);
}

/// Scaling any vector by a zero scalar gives the zero vector, so a static
/// body's velocity never moves.
pub proof fn lemma_scale_by_zero_inv(v: Vector2D, z: int)
    requires
        z == 0,
    ensures
        spec_scale(v, z) == (Vector2D { x: 0i64, y: 0i64 }),
        forall|w: Vector2D| #[trigger] spec_sm(w, spec_scale(v, z)) == w,
        forall|w: Vector2D| #[trigger] spec_mn(w, spec_scale(v, z)) == w,
{
    assert(sabs(v.x as int) * sabs(0) == 0) by (nonlinear_arith);
    assert(sabs(v.y as int) * sabs(0) == 0) by (nonlinear_arith);
    assert(fx_mul_s(v.x as int, 0) == 0);
    assert(fx_mul_s(v.y as int, 0) == 0);
    assert forall|w: Vector2D| #[trigger] spec_sm(w, spec_scale(v, z)) == w by {
        assert(spec_sm(w, spec_scale(v, z)).x == w.x);
        assert(spec_sm(w, spec_scale(v, z)).y == w.y);
    }
    assert forall|w: Vector2D| #[trigger] spec_mn(w, spec_scale(v, z)) == w by {
        assert(spec_mn(w, spec_scale(v, z)).x == w.x);
        assert(spec_mn(w, spec_scale(v, z)).y == w.y);
    }
}

} // verus!
