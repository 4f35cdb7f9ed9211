//! Global laws of the simulation, each proved from the specifications of
//! the world pipeline: immovable bodies never move, free fall accumulates
//! exactly one gravity increment per sub-step, a central head-on collision
//! against an immovable body reduces to the one-dimensional restitution
//! formula (restitution one negates the approach velocity exactly,
//! restitution zero absorbs it exactly), eviction keeps exactly the
//! in-bounds bodies, and an update over zero elapsed time changes nothing.

use vstd::prelude::*;
use crate::body::BodyView;
use crate::body::body_ok;
use crate::body::update_s;
use crate::collision::Collision;
use crate::collision_box::BoundingBox;
use crate::fx::SCALE;
use crate::fx::fx_add_s;
use crate::fx::fx_div_s;
use crate::fx::fx_idiv_s;
use crate::fx::fx_mul_s;
use crate::fx::fx_neg_s;
use crate::fx::fx_ok;
use crate::fx::fx_sub_s;
use crate::fx::pos_part;
use crate::vec3::Vec3;
use crate::vec3::v3_add_s;
use crate::vec3::v3_cross_s;
use crate::vec3::v3_dot_s;
use crate::vec3::v3_neg_s;
use crate::vec3::v3_sub_s;
use crate::vec3::v3_div_scalar_s;
use crate::vec3::v3_ok;
use crate::vec3::v3_scale_s;
use crate::vec3::v3_zero_s;
use crate::world::gravity_applied_s;
use crate::world::in_bounds_s;
use crate::world::integrate_all_s;
use crate::world::pair_collisions_s;
use crate::world::resolve_all_s;
use crate::world::resolve_s;
use crate::world::retained_s;
use crate::world::world_substep_s;
use crate::world::world_update_s;

verus! {

/// All collision entries produced by the pair enumeration carry indices
/// `0 <= i < j < len`.
pub proof fn lemma_pair_collisions_bounds(bodies: Seq<BodyView>, i: int, j: int)
    ensures
        forall|m: int|
            0 <= m < pair_collisions_s(bodies, i, j).len() ==> {
                let e = #[trigger] pair_collisions_s(bodies, i, j)[m];
                0 <= e.0 < e.1 < bodies.len()
            },
    decreases bodies.len() - i, bodies.len() - j,
{
    if i < 0 || j <= i || i >= bodies.len() {
    } else if j >= bodies.len() {
        lemma_pair_collisions_bounds(bodies, i + 1, i + 2);
        assert forall|m: int| 0 <= m < pair_collisions_s(bodies, i, j).len() implies {
            let e = #[trigger] pair_collisions_s(bodies, i, j)[m];
            0 <= e.0 < e.1 < bodies.len()
        } by {
            assert(pair_collisions_s(bodies, i, j)[m] == pair_collisions_s(bodies, i + 1, i + 2)[m]);
        }
    } else {
        lemma_pair_collisions_bounds(bodies, i, j + 1);
        let rest = pair_collisions_s(bodies, i, j + 1);
        let whole = pair_collisions_s(bodies, i, j);
        match crate::world::get_collision_s(bodies[i], bodies[j]) {
            Option::Some(c) => {
                assert(whole == seq![(i, j, c)] + rest);
                assert forall|m: int| 0 <= m < whole.len() implies {
                    let e = #[trigger] whole[m];
                    0 <= e.0 < e.1 < bodies.len()
                } by {
                    if m == 0 {
                        assert(whole[0] == (i, j, c));
                    } else {
                        assert(whole[m] == rest[m - 1]);
                    }
                }
            },
            Option::None => {
                assert forall|m: int| 0 <= m < whole.len() implies {
                    let e = #[trigger] whole[m];
                    0 <= e.0 < e.1 < bodies.len()
                } by {
                    assert(whole[m] == rest[m]);
                }
            },
        }
    }
}

/// Resolution leaves an immovable body exactly as it was.
proof fn lemma_resolve_all_static(
    bodies: Seq<BodyView>,
    cols: Seq<(int, int, Collision)>,
    gravity: Vec3,
    h: int,
    i: int,
)
    requires
        0 <= i < bodies.len(),
        !bodies[i].movable,
    ensures
        resolve_all_s(bodies, cols, gravity, h).len() == bodies.len(),
        resolve_all_s(bodies, cols, gravity, h)[i] == bodies[i],
    decreases cols.len(),
{
    if cols.len() == 0 {
    } else {
        let e = cols.first();
        if 0 <= e.0 < bodies.len() && 0 <= e.1 < bodies.len() {
            let rr = resolve_s(bodies[e.0], bodies[e.1], e.2, gravity, h);
            let updated = bodies.update(e.0, rr.0).update(e.1, rr.1);
            assert(updated[i] == bodies[i]);
            lemma_resolve_all_static(updated, cols.drop_first(), gravity, h, i);
        } else {
            lemma_resolve_all_static(bodies, cols.drop_first(), gravity, h, i);
        }
    }
}

/// One sub-step leaves an immovable body exactly as it was.
proof fn lemma_substep_static(bodies: Seq<BodyView>, gravity: Vec3, h: int, i: int)
    requires
        0 <= i < bodies.len(),
        !bodies[i].movable,
    ensures
        world_substep_s(bodies, gravity, h).len() == bodies.len(),
        world_substep_s(bodies, gravity, h)[i] == bodies[i],
{
    let integrated = integrate_all_s(bodies, gravity, h);
    assert(integrated[i] == bodies[i]);
    lemma_resolve_all_static(integrated, pair_collisions_s(integrated, 0, 1), gravity, h, i);
}

/// An immovable (static) body is never changed by the simulation: its
/// position, velocity, and every other attribute are the same after any
/// number of sub-steps.  In particular, for any pair of static bodies,
/// an update changes neither body.
pub proof fn lemma_static_body_fixed(
    bodies: Seq<BodyView>,
    gravity: Vec3,
    h: int,
    dt: int,
    i: int,
)
    requires
        0 <= i < bodies.len(),
        !bodies[i].movable,
    ensures
        world_update_s(bodies, gravity, h, dt).len() == bodies.len(),
        world_update_s(bodies, gravity, h, dt)[i] == bodies[i],
    decreases pos_part(dt),
{
    if dt <= 0 || h <= 0 {
    } else {
        lemma_substep_static(bodies, gravity, h, i);
        lemma_static_body_fixed(world_substep_s(bodies, gravity, h), gravity, h, dt - h, i);
    }
}

/// Velocity accumulated by repeated addition of a fixed per-step gain.
pub open spec fn fall_velocity_s(v: Vec3, gain: Vec3, h: int, dt: int) -> Vec3
    decreases pos_part(dt),
{
    if dt <= 0 || h <= 0 {
        v
    } else {
        fall_velocity_s(v3_add_s(v, gain), gain, h, dt - h)
    }
}

/// Scaling gravity up by a unit mass and dividing by it again is exact.
pub proof fn lemma_unit_mass_accel(gravity: Vec3)
    requires
        v3_ok(gravity),
    ensures
        v3_div_scalar_s(v3_scale_s(gravity, SCALE as int), SCALE as int) == gravity,
{
    let scaled = v3_scale_s(gravity, SCALE as int);
    assert(fx_mul_s(gravity.x as int, SCALE as int) == gravity.x as int) by (nonlinear_arith)
        requires -1_000_000_000_000_000_000 <= gravity.x as int <= 1_000_000_000_000_000_000;
    assert(fx_mul_s(gravity.y as int, SCALE as int) == gravity.y as int) by (nonlinear_arith)
        requires -1_000_000_000_000_000_000 <= gravity.y as int <= 1_000_000_000_000_000_000;
    assert(fx_mul_s(gravity.z as int, SCALE as int) == gravity.z as int) by (nonlinear_arith)
        requires -1_000_000_000_000_000_000 <= gravity.z as int <= 1_000_000_000_000_000_000;
    assert(fx_div_s(gravity.x as int, SCALE as int) == gravity.x as int) by (nonlinear_arith)
        requires -1_000_000_000_000_000_000 <= gravity.x as int <= 1_000_000_000_000_000_000;
    assert(fx_div_s(gravity.y as int, SCALE as int) == gravity.y as int) by (nonlinear_arith)
        requires -1_000_000_000_000_000_000 <= gravity.y as int <= 1_000_000_000_000_000_000;
    assert(fx_div_s(gravity.z as int, SCALE as int) == gravity.z as int) by (nonlinear_arith)
        requires -1_000_000_000_000_000_000 <= gravity.z as int <= 1_000_000_000_000_000_000;
}

/// Free fall: a single movable, gravity-affected body with no accumulated
/// force gains exactly one fixed-point gravity increment `gravity * h` of
/// velocity per sub-step (provided its mass divides the gravity force back
/// out exactly, as a unit mass does), before any collision response.
pub proof fn lemma_free_fall_velocity(b: BodyView, gravity: Vec3, h: int, dt: int)
    requires
        body_ok(b),
        v3_ok(gravity),
        b.movable,
        b.gravity,
        b.forces == v3_zero_s(),
        v3_div_scalar_s(v3_scale_s(gravity, b.mass as int), b.mass as int) == gravity,
    ensures
        world_update_s(seq![b], gravity, h, dt).len() == 1,
        world_update_s(seq![b], gravity, h, dt)[0].velocity == fall_velocity_s(
            b.velocity,
            v3_scale_s(gravity, h),
            h,
            dt,
        ),
    decreases pos_part(dt),
{
    if dt <= 0 || h <= 0 {
    } else {
        let after_gravity = gravity_applied_s(b, gravity);
        assert(after_gravity.forces == v3_scale_s(gravity, b.mass as int)) by {
            crate::vec3::lemma_v3_ops_ok(gravity, gravity, b.mass as int);
        }
        let stepped = update_s(after_gravity, h);
        assert(stepped.velocity == v3_add_s(b.velocity, v3_scale_s(gravity, h)));
        let integrated = integrate_all_s(seq![b], gravity, h);
        assert(integrated =~= seq![stepped]);
        assert(pair_collisions_s(integrated, 1, 2) =~= Seq::<(int, int, Collision)>::empty());
        assert(pair_collisions_s(integrated, 0, 1) =~= Seq::<(int, int, Collision)>::empty());
        assert(world_substep_s(seq![b], gravity, h) =~= seq![stepped]);
        assert(stepped.forces == v3_zero_s());
        assert(body_ok(stepped)) by {
            crate::body::lemma_update_ok(after_gravity, h);
        }
        lemma_free_fall_velocity(stepped, gravity, h, dt - h);
        assert(world_update_s(seq![stepped], gravity, h, dt - h)
            == world_update_s(seq![b], gravity, h, dt));
    }
}

/// Every body that survives eviction is within the bound, and every
/// in-bounds body survives.
pub proof fn lemma_retained_in_bounds(bodies: Seq<BodyView>, bound: int)
    ensures
        forall|k: int|
            0 <= k < retained_s(bodies, bound).len()
                ==> in_bounds_s(#[trigger] retained_s(bodies, bound)[k], bound),
        forall|i: int|
            0 <= i < bodies.len() && in_bounds_s(#[trigger] bodies[i], bound) ==> retained_s(
                bodies,
                bound,
            ).contains(bodies[i]),
    decreases bodies.len(),
{
    if bodies.len() == 0 {
    } else {
        lemma_retained_in_bounds(bodies.drop_last(), bound);
        let rest = retained_s(bodies.drop_last(), bound);
        let whole = retained_s(bodies, bound);
        assert forall|i: int|
            0 <= i < bodies.len() && in_bounds_s(#[trigger] bodies[i], bound) implies whole
            .contains(bodies[i]) by {
            if i < bodies.len() - 1 {
                assert(bodies.drop_last()[i] == bodies[i]);
                assert(rest.contains(bodies[i]));
                let w = choose|w: int| 0 <= w < rest.len() && rest[w] == bodies[i];
                assert(whole[w] == bodies[i]);
            } else {
                assert(in_bounds_s(bodies.last(), bound));
                assert(whole[whole.len() - 1] == bodies[i]);
            }
        }
    }
}

/// When every body is in bounds, eviction keeps them all, unchanged and in
/// order.
pub proof fn lemma_retained_all_in_bounds(bodies: Seq<BodyView>, bound: int)
    requires
        forall|i: int| 0 <= i < bodies.len() ==> in_bounds_s(#[trigger] bodies[i], bound),
    ensures
        retained_s(bodies, bound) == bodies,
    decreases bodies.len(),
{
    if bodies.len() == 0 {
        assert(retained_s(bodies, bound) =~= bodies);
    } else {
        lemma_retained_all_in_bounds(bodies.drop_last(), bound);
        assert(in_bounds_s(bodies.last(), bound));
        assert(bodies.drop_last().push(bodies.last()) =~= bodies);
    }
}

/// Updating over zero (or negative) elapsed time runs no sub-step, so a
/// world whose bodies are all in bounds is left exactly as it was.
pub proof fn lemma_update_zero_dt(bodies: Seq<BodyView>, gravity: Vec3, h: int, bound: int)
    requires
        forall|i: int| 0 <= i < bodies.len() ==> in_bounds_s(#[trigger] bodies[i], bound),
    ensures
        retained_s(world_update_s(bodies, gravity, h, 0), bound) == bodies,
{
    assert(world_update_s(bodies, gravity, h, 0) == bodies);
    lemma_retained_all_in_bounds(bodies, bound);
}

/// A central head-on collision along the vertical axis against an
/// immovable body reduces to the one-dimensional restitution formula: the
/// immovable body is untouched; the moving body keeps its forces and
/// torque (the lever arm is zero, so neither friction force nor any torque
/// arises), keeps a zero angular velocity, and its velocity along the
/// normal becomes the impulse formula value over the inverse mass of the
/// moving body alone (the immovable body acts as infinite mass), computed
/// in fixed point and then damped by one sub-step factor.
#[verifier::rlimit(100)]
#[verifier::spinoff_prover]
pub proof fn lemma_head_on_restitution(
    a: BodyView,
    b: BodyView,
    c: Collision,
    gravity: Vec3,
    h: int,
)
    requires
        body_ok(a),
        body_ok(b),
        a.movable,
        !b.movable,
        c.normal == (Vec3 { x: 0, y: SCALE, z: 0 }),
        c.contact_point == a.position,
        c.contact_point == b.position,
        a.velocity.x == 0,
        a.velocity.z == 0,
        a.angular_velocity == v3_zero_s(),
        b.velocity == v3_zero_s(),
        b.angular_velocity == v3_zero_s(),
    ensures
        resolve_s(a, b, c, gravity, h).1 == b,
        resolve_s(a, b, c, gravity, h).0.forces == a.forces,
        resolve_s(a, b, c, gravity, h).0.torque == a.torque,
        resolve_s(a, b, c, gravity, h).0.angular_velocity == v3_zero_s(),
        ({
            let va = a.velocity.y as int;
            let e = fx_idiv_s(fx_add_s(a.bounciness as int, b.bounciness as int), 2);
            let impulse = fx_div_s(
                fx_mul_s(fx_neg_s(fx_add_s(SCALE as int, e)), -va),
                fx_add_s(fx_div_s(SCALE as int, a.mass as int), 0),
            );
            resolve_s(a, b, c, gravity, h).0.velocity == (Vec3 {
                x: 0,
                y: fx_mul_s(fx_sub_s(va, fx_div_s(impulse, a.mass as int)), fx_sub_s(SCALE as int, h))
                    as i64,
                z: 0,
            })
        }),
{
    let va = a.velocity.y as int;
    let rr = resolve_s(a, b, c, gravity, h);
    let zero = v3_zero_s();
    let r_a = v3_sub_s(c.contact_point, a.position);
    let r_b = v3_sub_s(c.contact_point, b.position);
    assert(r_a == zero);
    assert(r_b == zero);
    assert(v3_cross_s(zero, a.angular_velocity) == zero);
    assert(v3_cross_s(zero, b.angular_velocity) == zero);
    let relative_velocity = v3_sub_s(
        v3_add_s(b.velocity, v3_cross_s(r_b, b.angular_velocity)),
        v3_add_s(a.velocity, v3_cross_s(r_a, a.angular_velocity)),
    );
    assert(v3_add_s(a.velocity, zero) == a.velocity);
    assert(relative_velocity == (Vec3 { x: 0, y: fx_neg_s(va) as i64, z: 0 }));
    let normal = c.normal;
    assert(v3_dot_s(relative_velocity, normal) == -va) by (nonlinear_arith)
        requires
            relative_velocity == (Vec3 { x: 0, y: fx_neg_s(va) as i64, z: 0 }),
            normal == (Vec3 { x: 0, y: SCALE, z: 0 }),
            -1_000_000_000_000_000_000 <= va <= 1_000_000_000_000_000_000;
    let e = fx_idiv_s(fx_add_s(a.bounciness as int, b.bounciness as int), 2);
    let impulse_magnitude = fx_div_s(
        fx_mul_s(fx_neg_s(fx_add_s(SCALE as int, e)), -va),
        fx_add_s(fx_div_s(SCALE as int, a.mass as int), 0),
    );
    let impulse = v3_scale_s(normal, impulse_magnitude);
    assert(fx_ok(impulse_magnitude));
    assert(impulse == (Vec3 { x: 0, y: impulse_magnitude as i64, z: 0 })) by (nonlinear_arith)
        requires
            impulse == v3_scale_s((Vec3 { x: 0, y: SCALE, z: 0 }), impulse_magnitude),
            fx_ok(impulse_magnitude);
    let vy1 = fx_sub_s(va, fx_div_s(impulse_magnitude, a.mass as int));
    let a1_velocity = v3_sub_s(a.velocity, v3_div_scalar_s(impulse, a.mass as int));
    assert(a1_velocity == (Vec3 { x: 0, y: vy1 as i64, z: 0 }));
    assert(v3_cross_s(r_a, v3_div_scalar_s(impulse, h)) == zero);
    assert(v3_cross_s(r_a, v3_scale_s(gravity, a.mass as int)) == zero);
    assert(v3_neg_s(zero) == zero);
    assert(v3_add_s(a.torque, zero) == a.torque);

    // Friction sees a purely normal contact velocity, so the tangential
    // part vanishes and no force or torque is applied.
    let rel2 = v3_add_s(a1_velocity, v3_cross_s(zero, r_a));
    assert(v3_cross_s(zero, r_a) == zero);
    assert(rel2 == a1_velocity);
    assert(v3_dot_s(rel2, normal) == vy1) by (nonlinear_arith)
        requires
            rel2 == (Vec3 { x: 0, y: vy1 as i64, z: 0 }),
            normal == (Vec3 { x: 0, y: SCALE, z: 0 }),
            fx_ok(vy1);
    assert(v3_scale_s(normal, vy1) == (Vec3 { x: 0, y: vy1 as i64, z: 0 })) by (nonlinear_arith)
        requires
            normal == (Vec3 { x: 0, y: SCALE, z: 0 }),
            fx_ok(vy1);
    let tang = v3_sub_s(rel2, v3_scale_s(normal, vy1));
    assert(tang == zero);
    assert(crate::vec3::v3_mag_s(zero) == 0);
    assert(v3_neg_s(zero) == zero);
    let mu = crate::fx::fx_sqrt_s(
        fx_mul_s(a.friction_coefficient as int, b.friction_coefficient as int),
    );
    crate::vec3::lemma_v3_scale_zero(mu);
    crate::vec3::lemma_v3_scale_zero(a.mass as int);
    assert(v3_scale_s(v3_scale_s(zero, mu), a.mass as int) == zero);
    assert(v3_cross_s(zero, zero) == zero);
    let keep = fx_sub_s(SCALE as int, h);
    crate::vec3::lemma_v3_scale_zero(keep);
    assert(v3_scale_s(zero, keep) == zero);
    assert(rr.0.velocity == v3_scale_s(a1_velocity, keep));
    assert(v3_scale_s(a1_velocity, keep) == (Vec3 {
        x: 0,
        y: fx_mul_s(vy1, keep) as i64,
        z: 0,
    })) by {
        assert(fx_mul_s(0, keep) == 0);
    }
    assert(rr.0.forces == v3_add_s(a.forces, zero));
    assert(v3_add_s(a.forces, zero) == a.forces);
    assert(rr.0.torque == a.torque);
    assert(rr.0.angular_velocity == zero);
    assert(rr.1 == b);
}

/// Restitution one conserves the approach speed exactly: a unit-mass body
/// hitting an immovable body head-on rebounds with its velocity negated,
/// then damped by one sub-step factor.
pub proof fn lemma_perfect_rebound(a: BodyView, b: BodyView, c: Collision, gravity: Vec3, h: int)
    requires
        body_ok(a),
        body_ok(b),
        a.movable,
        !b.movable,
        a.mass == SCALE,
        a.bounciness == SCALE,
        b.bounciness == SCALE,
        c.normal == (Vec3 { x: 0, y: SCALE, z: 0 }),
        c.contact_point == a.position,
        c.contact_point == b.position,
        a.velocity.x == 0,
        a.velocity.z == 0,
        fx_ok(2 * a.velocity.y as int),
        a.angular_velocity == v3_zero_s(),
        b.velocity == v3_zero_s(),
        b.angular_velocity == v3_zero_s(),
    ensures
        resolve_s(a, b, c, gravity, h).1 == b,
        resolve_s(a, b, c, gravity, h).0.velocity == (Vec3 {
            x: 0,
            y: fx_mul_s(-(a.velocity.y as int), fx_sub_s(SCALE as int, h)) as i64,
            z: 0,
        }),
{
    lemma_head_on_restitution(a, b, c, gravity, h);
    let va = a.velocity.y as int;
    let e = fx_idiv_s(fx_add_s(SCALE as int, SCALE as int), 2);
    assert(e == SCALE as int);
    crate::fx::lemma_tdiv_mul_cancel(SCALE as int, SCALE as int);
    assert(fx_div_s(SCALE as int, SCALE as int) == SCALE as int);
    let denom = fx_add_s(fx_div_s(SCALE as int, a.mass as int), 0);
    assert(denom == SCALE as int);
    assert((-(2 * SCALE as int)) * (-va) == (2 * va) * SCALE as int) by (nonlinear_arith);
    crate::fx::lemma_tdiv_mul_cancel(2 * va, SCALE as int);
    assert(fx_mul_s(fx_neg_s(fx_add_s(SCALE as int, e)), -va) == 2 * va);
    crate::fx::lemma_tdiv_mul_cancel(2 * va, SCALE as int);
    assert(fx_div_s(2 * va, SCALE as int) == 2 * va);
    let impulse = fx_div_s(fx_mul_s(fx_neg_s(fx_add_s(SCALE as int, e)), -va), denom);
    assert(impulse == 2 * va);
    assert(fx_div_s(impulse, a.mass as int) == 2 * va);
    assert(fx_sub_s(va, 2 * va) == -va);
}

/// Restitution zero absorbs the whole normal speed exactly: a unit-mass
/// body hitting an immovable body head-on is left with zero velocity.
pub proof fn lemma_inelastic_stop(a: BodyView, b: BodyView, c: Collision, gravity: Vec3, h: int)
    requires
        body_ok(a),
        body_ok(b),
        a.movable,
        !b.movable,
        a.mass == SCALE,
        a.bounciness == 0,
        b.bounciness == 0,
        c.normal == (Vec3 { x: 0, y: SCALE, z: 0 }),
        c.contact_point == a.position,
        c.contact_point == b.position,
        a.velocity.x == 0,
        a.velocity.z == 0,
        a.angular_velocity == v3_zero_s(),
        b.velocity == v3_zero_s(),
        b.angular_velocity == v3_zero_s(),
    ensures
        resolve_s(a, b, c, gravity, h).1 == b,
        resolve_s(a, b, c, gravity, h).0.velocity == v3_zero_s(),
{
    lemma_head_on_restitution(a, b, c, gravity, h);
    let va = a.velocity.y as int;
    let e = fx_idiv_s(fx_add_s(0, 0), 2);
    assert(e == 0);
    crate::fx::lemma_tdiv_mul_cancel(SCALE as int, SCALE as int);
    assert(fx_div_s(SCALE as int, SCALE as int) == SCALE as int);
    let denom = fx_add_s(fx_div_s(SCALE as int, a.mass as int), 0);
    assert(denom == SCALE as int);
    assert((-(SCALE as int)) * (-va) == va * SCALE as int) by (nonlinear_arith);
    crate::fx::lemma_tdiv_mul_cancel(va, SCALE as int);
    assert(fx_mul_s(fx_neg_s(fx_add_s(SCALE as int, e)), -va) == va);
    assert(fx_div_s(va, SCALE as int) == va);
    let impulse = fx_div_s(fx_mul_s(fx_neg_s(fx_add_s(SCALE as int, e)), -va), denom);
    assert(impulse == va);
    assert(fx_div_s(impulse, a.mass as int) == va);
    assert(fx_sub_s(va, va) == 0);
    assert(fx_mul_s(0, fx_sub_s(SCALE as int, h)) == 0);
}

/// A box-box axis scan that starts from a positive minimum can only
/// report a positive minimum.
proof fn lemma_bb_scan_positive(
    p: crate::collision::BoxPair,
    axes: Seq<Vec3>,
    i: int,
    min_overlap: int,
    normal: Vec3,
)
    requires
        0 < min_overlap <= i64::MAX,
    ensures
        crate::collision::bb_scan_s(p, axes, i, min_overlap, normal) matches Some(best)
            ==> 0 < best.0 <= i64::MAX,
    decreases axes.len() - i,
{
    if i < 0 || i >= axes.len() {
    } else {
        let axis = axes[i];
        if crate::vec3::v3_mag2_s(axis) < crate::collision::AXIS_EPS {
            lemma_bb_scan_positive(p, axes, i + 1, min_overlap, normal);
        } else {
            let axis_n = crate::vec3::v3_normalize_s(axis);
            let overlap = crate::collision::bb_overlap_on_s(p, axis_n);
            if overlap <= 0 {
            } else if overlap < min_overlap {
                lemma_bb_scan_positive(p, axes, i + 1, overlap, axis_n);
            } else {
                lemma_bb_scan_positive(p, axes, i + 1, min_overlap, normal);
            }
        }
    }
}

/// A sphere-box axis scan that starts from a positive minimum can only
/// report a positive minimum.
proof fn lemma_sb_scan_positive(
    p: crate::collision::SphereBoxPair,
    axes: Seq<Vec3>,
    i: int,
    min_overlap: int,
    normal: Vec3,
)
    requires
        0 < min_overlap <= i64::MAX,
    ensures
        crate::collision::sb_scan_s(p, axes, i, min_overlap, normal) matches Some(best)
            ==> 0 < best.0 <= i64::MAX,
    decreases axes.len() - i,
{
    if i < 0 || i >= axes.len() {
    } else {
        let axis = axes[i];
        if crate::vec3::v3_mag2_s(axis) < crate::collision::AXIS_EPS {
            lemma_sb_scan_positive(p, axes, i + 1, min_overlap, normal);
        } else {
            let axis_n = crate::vec3::v3_normalize_s(axis);
            let overlap = crate::collision::sb_overlap_on_s(p, axis_n);
            if overlap <= 0 {
            } else if overlap < min_overlap {
                lemma_sb_scan_positive(p, axes, i + 1, overlap, axis_n);
            } else {
                lemma_sb_scan_positive(p, axes, i + 1, min_overlap, normal);
            }
        }
    }
}

/// A reported collision always carries a positive penetration depth,
/// whatever the shape pair: the detectors return nothing otherwise.
pub proof fn lemma_detect_positive_overlap(
    shape_a: crate::collision_box::CollisionBox,
    shape_b: crate::collision_box::CollisionBox,
    rotation_a: crate::quat::Quat,
    rotation_b: crate::quat::Quat,
)
    ensures
        crate::collision::detect_s(shape_a, shape_b, rotation_a, rotation_b) matches Some(c)
            ==> c.overlap > 0,
{
    reveal(crate::collision::detect_s);
    match (shape_a, shape_b) {
        (
            crate::collision_box::CollisionBox::Sphere(_),
            crate::collision_box::CollisionBox::Sphere(_),
        ) => {
        },
        (
            crate::collision_box::CollisionBox::BoundingBox(ba),
            crate::collision_box::CollisionBox::BoundingBox(bb),
        ) => {
            lemma_bb_scan_positive(
                crate::collision::box_pair_s(ba, bb, rotation_a, rotation_b),
                crate::collision::box_axes_s(rotation_a, rotation_b),
                0,
                i64::MAX as int,
                v3_zero_s(),
            );
        },
        (
            crate::collision_box::CollisionBox::Sphere(s),
            crate::collision_box::CollisionBox::BoundingBox(bx),
        ) => {
            lemma_sb_scan_positive(
                crate::collision::sphere_box_pair_s(bx, s, rotation_b),
                crate::collision::sphere_box_axes_s(
                    rotation_b,
                    crate::collision::sphere_box_pair_s(bx, s, rotation_b).diff,
                ),
                0,
                i64::MAX as int,
                v3_zero_s(),
            );
        },
        (
            crate::collision_box::CollisionBox::BoundingBox(bx),
            crate::collision_box::CollisionBox::Sphere(s),
        ) => {
            lemma_sb_scan_positive(
                crate::collision::sphere_box_pair_s(bx, s, rotation_a),
                crate::collision::sphere_box_axes_s(
                    rotation_a,
                    crate::collision::sphere_box_pair_s(bx, s, rotation_a).diff,
                ),
                0,
                i64::MAX as int,
                v3_zero_s(),
            );
        },
    }
}

/// The rotation matrix of the identity rotation has the coordinate axes
/// as columns.
proof fn lemma_identity_axes()
    ensures
        crate::quat::q_axis_x_s(crate::quat::q_one_s()) == (Vec3 { x: SCALE, y: 0, z: 0 }),
        crate::quat::q_axis_y_s(crate::quat::q_one_s()) == (Vec3 { x: 0, y: SCALE, z: 0 }),
        crate::quat::q_axis_z_s(crate::quat::q_one_s()) == (Vec3 { x: 0, y: 0, z: SCALE }),
{
}

/// A coordinate axis has unit squared length and normalizes to itself.
proof fn lemma_unit_axis_eval(v: Vec3)
    requires
        v == (Vec3 { x: SCALE, y: 0, z: 0 }) || v == (Vec3 { x: 0, y: SCALE, z: 0 }) || v == (
        Vec3 { x: 0, y: 0, z: SCALE }),
    ensures
        crate::vec3::v3_mag2_s(v) == SCALE,
        crate::vec3::v3_normalize_s(v) == v,
{
    crate::fx::lemma_tdiv_mul_cancel(SCALE as int, SCALE as int);
    crate::fx::lemma_sqrt_floor_unique((SCALE as int) * (SCALE as int), SCALE as int);
}

/// Dotting an in-band vector with a coordinate axis selects the matching
/// component, and scaling an in-band scalar by one keeps it.
proof fn lemma_axis_projection(w: Vec3)
    requires
        crate::vec3::v3_ok(w),
    ensures
        v3_dot_s(w, Vec3 { x: SCALE, y: 0, z: 0 }) == w.x,
        v3_dot_s(w, Vec3 { x: 0, y: SCALE, z: 0 }) == w.y,
        v3_dot_s(w, Vec3 { x: 0, y: 0, z: SCALE }) == w.z,
{
    crate::fx::lemma_tdiv_mul_cancel(w.x as int, SCALE as int);
    crate::fx::lemma_tdiv_mul_cancel(w.y as int, SCALE as int);
    crate::fx::lemma_tdiv_mul_cancel(w.z as int, SCALE as int);
    assert(w.x * SCALE + w.y * 0 + w.z * 0 == w.x * SCALE) by (nonlinear_arith);
    assert(w.x * 0 + w.y * SCALE + w.z * 0 == w.y * SCALE) by (nonlinear_arith);
    assert(w.x * 0 + w.y * 0 + w.z * SCALE == w.z * SCALE) by (nonlinear_arith);
}

/// An axis on which an axis test already failed refutes the whole scan,
/// whatever running minimum it arrives with.
proof fn lemma_bb_scan_none_here(p: crate::collision::BoxPair, axes: Seq<Vec3>, i: int)
    requires
        0 <= i < axes.len(),
        crate::vec3::v3_mag2_s(axes[i]) >= crate::collision::AXIS_EPS,
        crate::collision::bb_overlap_on_s(p, crate::vec3::v3_normalize_s(axes[i])) <= 0,
    ensures
        forall|mo: int, n: Vec3|
            #[trigger] crate::collision::bb_scan_s(p, axes, i, mo, n) is None,
{
}

/// A refutation further down the axis list propagates to the front of the
/// scan.
proof fn lemma_bb_scan_none_propagates(p: crate::collision::BoxPair, axes: Seq<Vec3>, i: int)
    requires
        0 <= i < axes.len(),
        forall|mo: int, n: Vec3|
            #[trigger] crate::collision::bb_scan_s(p, axes, i + 1, mo, n) is None,
    ensures
        forall|mo: int, n: Vec3|
            #[trigger] crate::collision::bb_scan_s(p, axes, i, mo, n) is None,
{
    assert forall|mo: int, n: Vec3|
        #[trigger] crate::collision::bb_scan_s(p, axes, i, mo, n) is None by {
        let axis = axes[i];
        if crate::vec3::v3_mag2_s(axis) < crate::collision::AXIS_EPS {
            assert(crate::collision::bb_scan_s(p, axes, i + 1, mo, n) is None);
        } else {
            let axis_n = crate::vec3::v3_normalize_s(axis);
            let overlap = crate::collision::bb_overlap_on_s(p, axis_n);
            if overlap > 0 {
                assert(crate::collision::bb_scan_s(p, axes, i + 1, overlap, axis_n) is None);
                assert(crate::collision::bb_scan_s(p, axes, i + 1, mo, n) is None);
            }
        }
    }
}

/// Separation of two axis-aligned boxes on one of the coordinate axes:
/// the center distance along that axis reaches the sum of the half
/// extents.
pub open spec fn separated_on_axis_s(a: BoundingBox, b: BoundingBox, axis: int) -> bool {
    let ha = crate::collision_box::bbox_half_s(a);
    let hb = crate::collision_box::bbox_half_s(b);
    let diff = v3_sub_s(crate::collision_box::bbox_center_s(b), crate::collision_box::bbox_center_s(a));
    if axis == 0 {
        ha.x + hb.x <= crate::fx::fx_abs_s(diff.x as int)
    } else if axis == 1 {
        ha.y + hb.y <= crate::fx::fx_abs_s(diff.y as int)
    } else {
        ha.z + hb.z <= crate::fx::fx_abs_s(diff.z as int)
    }
}

/// Two unrotated (axis-aligned) boxes separated along any single
/// coordinate axis are never reported as colliding: that axis refutes the
/// separating-axis scan.
#[verifier::rlimit(100)]
#[verifier::spinoff_prover]
pub proof fn lemma_axis_aligned_separation(a: BoundingBox, b: BoundingBox, axis: int)
    requires
        0 <= axis < 3,
        separated_on_axis_s(a, b, axis),
    ensures
        crate::collision::box_box_s(a, b, crate::quat::q_one_s(), crate::quat::q_one_s())
            is None,
{
    let q = crate::quat::q_one_s();
    let p = crate::collision::box_pair_s(a, b, q, q);
    let axes = crate::collision::box_axes_s(q, q);
    let ux = Vec3 { x: SCALE, y: 0, z: 0 };
    let uy = Vec3 { x: 0, y: SCALE, z: 0 };
    let uz = Vec3 { x: 0, y: 0, z: SCALE };
    lemma_identity_axes();
    assert(axes[0] == ux && axes[1] == uy && axes[2] == uz);
    lemma_unit_axis_eval(ux);
    lemma_unit_axis_eval(uy);
    lemma_unit_axis_eval(uz);
    let ha = crate::collision_box::bbox_half_s(a);
    let hb = crate::collision_box::bbox_half_s(b);
    lemma_axis_projection(ha);
    lemma_axis_projection(hb);
    lemma_axis_projection(p.diff);
    lemma_axis_projection(ux);
    lemma_axis_projection(uy);
    lemma_axis_projection(uz);
    crate::fx::lemma_tdiv_mul_cancel(ha.x as int, SCALE as int);
    crate::fx::lemma_tdiv_mul_cancel(ha.y as int, SCALE as int);
    crate::fx::lemma_tdiv_mul_cancel(ha.z as int, SCALE as int);
    crate::fx::lemma_tdiv_mul_cancel(hb.x as int, SCALE as int);
    crate::fx::lemma_tdiv_mul_cancel(hb.y as int, SCALE as int);
    crate::fx::lemma_tdiv_mul_cancel(hb.z as int, SCALE as int);
    if axis == 0 {
        assert(crate::collision::bb_overlap_on_s(p, ux) <= 0);
        lemma_bb_scan_none_here(p, axes, 0);
    } else if axis == 1 {
        assert(crate::collision::bb_overlap_on_s(p, uy) <= 0);
        lemma_bb_scan_none_here(p, axes, 1);
        lemma_bb_scan_none_propagates(p, axes, 0);
    } else {
        assert(crate::collision::bb_overlap_on_s(p, uz) <= 0);
        lemma_bb_scan_none_here(p, axes, 2);
        lemma_bb_scan_none_propagates(p, axes, 1);
        lemma_bb_scan_none_propagates(p, axes, 0);
    }
    assert(crate::collision::bb_scan_s(p, axes, 0, i64::MAX as int, v3_zero_s()) is None);
}

} // verus!
