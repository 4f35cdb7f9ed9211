//! The physics world: owns every body, drives fixed-timestep integration,
//! enumerates all unordered body pairs for collision detection, resolves
//! each detected collision by impulse, gravity-compensating torque, surface
//! friction and a scheduled positional correction, and finally evicts
//! bodies that left the world bound.
//!
//! Detection of a sub-step completes over a read-only snapshot before any
//! resolution mutates a body, so the resolution order is the fixed pair
//! order and nothing ever races.

use vstd::prelude::*;
use crate::body::BodyView;
use crate::body::RigidBody;
use crate::body::apply_surface_friction_s;
use crate::body::body_ok;
use crate::body::update_s;
use crate::collision::Collision;
use crate::collision::detect_s;
use crate::collision_box::CollisionBox;
use crate::fx::FX_HALF;
use crate::fx::SCALE;
use crate::fx::fx_add;
use crate::fx::fx_add_s;
use crate::fx::fx_div;
use crate::fx::fx_div_s;
use crate::fx::fx_idiv;
use crate::fx::fx_idiv_s;
use crate::fx::fx_mul;
use crate::fx::fx_mul_s;
use crate::fx::fx_neg;
use crate::fx::fx_neg_s;
use crate::fx::fx_ok;
use crate::fx::fx_sqrt;
use crate::fx::fx_sqrt_s;
use crate::fx::pos_part;
use crate::quat::Quat;
use crate::vec3::Vec3;
use crate::vec3::v3_add;
use crate::vec3::v3_add_s;
use crate::vec3::v3_cross;
use crate::vec3::v3_cross_s;
use crate::vec3::v3_div_scalar;
use crate::vec3::v3_div_scalar_s;
use crate::vec3::v3_dot;
use crate::vec3::v3_dot_s;
use crate::vec3::v3_mag;
use crate::vec3::v3_mag_s;
use crate::vec3::v3_neg;
use crate::vec3::v3_neg_s;
use crate::vec3::v3_ok;
use crate::vec3::v3_scale;
use crate::vec3::v3_scale_s;
use crate::vec3::v3_sub;
use crate::vec3::v3_sub_s;

verus! {

/// Sub-step duration of a fresh world: one millisecond.
pub const DEFAULT_DELTA_TIME: i64 = 1_000;

/// World bound radius of a fresh world: a thousand units.
pub const DEFAULT_BOUNDS: i64 = 1_000_000_000;

pub struct PhysicsWorld {
    pub bodies: Vec<RigidBody>,
    pub gravity: Vec3,
    pub delta_time: i64,
    pub bounds: i64,
}

/// Mathematical model of the world: the bodies as a sequence of body
/// models.
#[verifier::ext_equal]
pub struct WorldView {
    pub bodies: Seq<BodyView>,
    pub gravity: Vec3,
    pub delta_time: i64,
    pub bounds: i64,
}

impl View for PhysicsWorld {
    type V = WorldView;

    open spec fn view(&self) -> WorldView {
        WorldView {
            bodies: self.bodies@.map_values(|b: RigidBody| b@),
            gravity: self.gravity,
            delta_time: self.delta_time,
            bounds: self.bounds,
        }
    }
}

/// Well-formedness: every body well formed, the gravity vector in band,
/// a positive sub-step and a nonnegative bound.
pub open spec fn world_ok(w: WorldView) -> bool {
    &&& forall|i: int| 0 <= i < w.bodies.len() ==> body_ok(#[trigger] w.bodies[i])
    &&& v3_ok(w.gravity)
    &&& 0 < w.delta_time
    &&& fx_ok(w.delta_time as int)
    &&& 0 <= w.bounds
    &&& fx_ok(w.bounds as int)
}

/// Gravity acts as an accumulated force on movable, gravity-affected
/// bodies.
pub open spec fn gravity_applied_s(b: BodyView, gravity: Vec3) -> BodyView {
    if b.gravity && b.movable {
        BodyView { forces: v3_add_s(b.forces, v3_scale_s(gravity, b.mass as int)), ..b }
    } else {
        b
    }
}

/// One integration pass: every body receives gravity and one sub-step.
pub open spec fn integrate_all_s(bodies: Seq<BodyView>, gravity: Vec3, h: int) -> Seq<BodyView> {
    bodies.map_values(|b: BodyView| update_s(gravity_applied_s(b, gravity), h))
}

/// First collision between two bodies' shape lists, scanning shapes of `a`
/// in the outer position, from position (i, j) on.
pub open spec fn shapes_collision_s(
    sa: Seq<CollisionBox>,
    sb: Seq<CollisionBox>,
    ra: Quat,
    rb: Quat,
    i: int,
    j: int,
) -> Option<Collision>
    decreases sa.len() - i, sb.len() - j,
{
    if i < 0 || j < 0 || i >= sa.len() {
        None
    } else if j >= sb.len() {
        shapes_collision_s(sa, sb, ra, rb, i + 1, 0)
    } else {
        match detect_s(sa[i], sb[j], ra, rb) {
            Option::Some(c) => Some(c),
            Option::None => shapes_collision_s(sa, sb, ra, rb, i, j + 1),
        }
    }
}

/// Collision between two bodies: skipped entirely when both are immovable,
/// otherwise the first detected shape-pair contact.
pub open spec fn get_collision_s(a: BodyView, b: BodyView) -> Option<Collision> {
    if !a.movable && !b.movable {
        None
    } else {
        shapes_collision_s(a.collision_box, b.collision_box, a.rotation, b.rotation, 0, 0)
    }
}

/// All detected collisions over the unordered pairs (i, j), i < j, in pair
/// order, starting from the pair (i, j).
pub open spec fn pair_collisions_s(bodies: Seq<BodyView>, i: int, j: int) -> Seq<
    (int, int, Collision),
>
    decreases bodies.len() - i, bodies.len() - j,
{
    if i < 0 || j <= i || i >= bodies.len() {
        Seq::empty()
    } else if j >= bodies.len() {
        pair_collisions_s(bodies, i + 1, i + 2)
    } else {
        let rest = pair_collisions_s(bodies, i, j + 1);
        match get_collision_s(bodies[i], bodies[j]) {
            Option::Some(c) => seq![(i, j, c)] + rest,
            Option::None => rest,
        }
    }
}

/// Inverse mass used by resolution: an immovable body acts as infinite
/// mass, so its inverse is zero and impulses never move it.
pub open spec fn inverse_mass_s(b: BodyView) -> int {
    if b.movable {
        fx_div_s(SCALE as int, b.mass as int)
    } else {
        0
    }
}

/// Impulse-based resolution of one collision between bodies `a` and `b`
/// (normal pointing from `a` to `b`): equal and opposite linear impulses
/// scaled by the averaged restitution over the summed inverse masses,
/// torque from the contact lever arm, a torque opposing gravity's torque
/// about the contact, surface friction with the geometric-mean
/// coefficient, and a scheduled positional correction split by the
/// inverse-mass fraction, directed so that each body moves out of the
/// overlap (`a` against the normal, `b` along it).  An immovable body is
/// returned unchanged.
pub open spec fn resolve_s(a: BodyView, b: BodyView, c: Collision, gravity: Vec3, h: int) -> (
    BodyView,
    BodyView,
) {
    let r_a = v3_sub_s(c.contact_point, a.position);
    let r_b = v3_sub_s(c.contact_point, b.position);
    let relative_velocity = v3_sub_s(
        v3_add_s(b.velocity, v3_cross_s(r_b, b.angular_velocity)),
        v3_add_s(a.velocity, v3_cross_s(r_a, a.angular_velocity)),
    );
    let normal = c.normal;
    let bounciness = fx_idiv_s(fx_add_s(a.bounciness as int, b.bounciness as int), 2);
    let inv_a = inverse_mass_s(a);
    let inv_b = inverse_mass_s(b);
    let inv_sum = fx_add_s(inv_a, inv_b);
    let impulse_magnitude = fx_div_s(
        fx_mul_s(fx_neg_s(fx_add_s(SCALE as int, bounciness)), v3_dot_s(relative_velocity, normal)),
        inv_sum,
    );
    let impulse = v3_scale_s(normal, impulse_magnitude);
    let friction_coefficient = fx_sqrt_s(
        fx_mul_s(a.friction_coefficient as int, b.friction_coefficient as int),
    );
    let a_res = if a.movable {
        let a1 = BodyView {
            velocity: v3_sub_s(a.velocity, v3_div_scalar_s(impulse, a.mass as int)),
            ..a
        };
        let a2 = BodyView {
            torque: v3_add_s(a1.torque, v3_neg_s(v3_cross_s(r_a, v3_div_scalar_s(impulse, h)))),
            ..a1
        };
        let a3 = BodyView {
            torque: v3_add_s(
                a2.torque,
                v3_neg_s(v3_cross_s(r_a, v3_scale_s(gravity, a.mass as int))),
            ),
            ..a2
        };
        let a4 = apply_surface_friction_s(a3, normal, c.contact_point, friction_coefficient, h);
        BodyView {
            correction: v3_neg_s(
                v3_scale_s(
                    normal,
                    fx_mul_s(fx_mul_s(c.overlap as int, fx_div_s(inv_a, inv_sum)), FX_HALF as int),
                ),
            ),
            ..a4
        }
    } else {
        a
    };
    let b_res = if b.movable {
        let b1 = BodyView {
            velocity: v3_add_s(b.velocity, v3_div_scalar_s(impulse, b.mass as int)),
            ..b
        };
        let b2 = BodyView {
            torque: v3_add_s(b1.torque, v3_neg_s(v3_cross_s(r_b, v3_div_scalar_s(impulse, h)))),
            ..b1
        };
        let b3 = BodyView {
            torque: v3_add_s(
                b2.torque,
                v3_neg_s(v3_cross_s(r_b, v3_scale_s(gravity, b.mass as int))),
            ),
            ..b2
        };
        let b4 = apply_surface_friction_s(b3, normal, c.contact_point, friction_coefficient, h);
        BodyView {
            correction: v3_scale_s(
                normal,
                fx_mul_s(fx_mul_s(c.overlap as int, fx_div_s(inv_b, inv_sum)), FX_HALF as int),
            ),
            ..b4
        }
    } else {
        b
    };
    (a_res, b_res)
}

/// Sequential resolution of a collision list, each step reading the bodies
/// as left by the previous resolutions.
pub open spec fn resolve_all_s(
    bodies: Seq<BodyView>,
    cols: Seq<(int, int, Collision)>,
    gravity: Vec3,
    h: int,
) -> Seq<BodyView>
    decreases cols.len(),
{
    if cols.len() == 0 {
        bodies
    } else {
        let e = cols.first();
        if 0 <= e.0 < bodies.len() && 0 <= e.1 < bodies.len() {
            let rr = resolve_s(bodies[e.0], bodies[e.1], e.2, gravity, h);
            resolve_all_s(bodies.update(e.0, rr.0).update(e.1, rr.1), cols.drop_first(), gravity, h)
        } else {
            resolve_all_s(bodies, cols.drop_first(), gravity, h)
        }
    }
}

/// One fixed sub-step: integrate every body, then detect all pair
/// collisions over the integrated snapshot, then resolve them in pair
/// order.
pub open spec fn world_substep_s(bodies: Seq<BodyView>, gravity: Vec3, h: int) -> Seq<BodyView> {
    let integrated = integrate_all_s(bodies, gravity, h);
    resolve_all_s(integrated, pair_collisions_s(integrated, 0, 1), gravity, h)
}

/// Fixed-timestep accumulation: sub-steps are taken while time remains, so
/// a frame of elapsed time `dt` runs `ceil(dt / h)` sub-steps.
pub open spec fn world_update_s(bodies: Seq<BodyView>, gravity: Vec3, h: int, dt: int) -> Seq<
    BodyView,
>
    decreases pos_part(dt),
{
    if dt <= 0 || h <= 0 {
        bodies
    } else {
        world_update_s(world_substep_s(bodies, gravity, h), gravity, h, dt - h)
    }
}

/// A body is in bounds while its distance from the origin does not exceed
/// the world bound.
pub open spec fn in_bounds_s(b: BodyView, bound: int) -> bool {
    v3_mag_s(b.position) <= bound
}

/// The bodies that remain after eviction, in their original order.
pub open spec fn retained_s(bodies: Seq<BodyView>, bound: int) -> Seq<BodyView>
    decreases bodies.len(),
{
    if bodies.len() == 0 {
        Seq::empty()
    } else {
        let rest = retained_s(bodies.drop_last(), bound);
        if in_bounds_s(bodies.last(), bound) {
            rest.push(bodies.last())
        } else {
            rest
        }
    }
}

/// Projection of collected collision entries into the model's index type.
pub open spec fn cols_view_s(s: Seq<(usize, usize, Collision)>) -> Seq<(int, int, Collision)> {
    s.map_values(|t: (usize, usize, Collision)| (t.0 as int, t.1 as int, t.2))
}

/// Well-formed bodies stay well formed through collision resolution.
#[verifier::rlimit(100)]
#[verifier::spinoff_prover]
pub proof fn lemma_resolve_ok(a: BodyView, b: BodyView, c: Collision, gravity: Vec3, h: int)
    requires
        body_ok(a),
        body_ok(b),
    ensures
        body_ok(resolve_s(a, b, c, gravity, h).0),
        body_ok(resolve_s(a, b, c, gravity, h).1),
{
    let rr = resolve_s(a, b, c, gravity, h);
    let r_a = v3_sub_s(c.contact_point, a.position);
    let r_b = v3_sub_s(c.contact_point, b.position);
    let relative_velocity = v3_sub_s(
        v3_add_s(b.velocity, v3_cross_s(r_b, b.angular_velocity)),
        v3_add_s(a.velocity, v3_cross_s(r_a, a.angular_velocity)),
    );
    let normal = c.normal;
    let bounciness = fx_idiv_s(fx_add_s(a.bounciness as int, b.bounciness as int), 2);
    let inv_a = inverse_mass_s(a);
    let inv_b = inverse_mass_s(b);
    let inv_sum = fx_add_s(inv_a, inv_b);
    let impulse_magnitude = fx_div_s(
        fx_mul_s(fx_neg_s(fx_add_s(SCALE as int, bounciness)), v3_dot_s(relative_velocity, normal)),
        inv_sum,
    );
    let impulse = v3_scale_s(normal, impulse_magnitude);
    let friction_coefficient = fx_sqrt_s(
        fx_mul_s(a.friction_coefficient as int, b.friction_coefficient as int),
    );
    if a.movable {
        let a1 = BodyView {
            velocity: v3_sub_s(a.velocity, v3_div_scalar_s(impulse, a.mass as int)),
            ..a
        };
        let a2 = BodyView {
            torque: v3_add_s(a1.torque, v3_neg_s(v3_cross_s(r_a, v3_div_scalar_s(impulse, h)))),
            ..a1
        };
        let a3 = BodyView {
            torque: v3_add_s(
                a2.torque,
                v3_neg_s(v3_cross_s(r_a, v3_scale_s(gravity, a.mass as int))),
            ),
            ..a2
        };
        assert(body_ok(a3));
        crate::body::lemma_friction_ok(a3, normal, c.contact_point, friction_coefficient, h);
        assert(rr.0 == (BodyView {
            correction: v3_neg_s(
                v3_scale_s(
                    normal,
                    fx_mul_s(fx_mul_s(c.overlap as int, fx_div_s(inv_a, inv_sum)), FX_HALF as int),
                ),
            ),
            ..apply_surface_friction_s(a3, normal, c.contact_point, friction_coefficient, h)
        }));
        assert(body_ok(rr.0));
    }
    if b.movable {
        let b1 = BodyView {
            velocity: v3_add_s(b.velocity, v3_div_scalar_s(impulse, b.mass as int)),
            ..b
        };
        let b2 = BodyView {
            torque: v3_add_s(b1.torque, v3_neg_s(v3_cross_s(r_b, v3_div_scalar_s(impulse, h)))),
            ..b1
        };
        let b3 = BodyView {
            torque: v3_add_s(
                b2.torque,
                v3_neg_s(v3_cross_s(r_b, v3_scale_s(gravity, b.mass as int))),
            ),
            ..b2
        };
        assert(body_ok(b3));
        crate::body::lemma_friction_ok(b3, normal, c.contact_point, friction_coefficient, h);
        assert(rr.1 == (BodyView {
            correction: v3_scale_s(
                normal,
                fx_mul_s(fx_mul_s(c.overlap as int, fx_div_s(inv_b, inv_sum)), FX_HALF as int),
            ),
            ..apply_surface_friction_s(b3, normal, c.contact_point, friction_coefficient, h)
        }));
        assert(body_ok(rr.1));
    }
}

/// Sequential resolution preserves the body count and well-formedness.
pub proof fn lemma_resolve_all_ok(
    bodies: Seq<BodyView>,
    cols: Seq<(int, int, Collision)>,
    gravity: Vec3,
    h: int,
)
    requires
        forall|i: int| 0 <= i < bodies.len() ==> body_ok(#[trigger] bodies[i]),
    ensures
        resolve_all_s(bodies, cols, gravity, h).len() == bodies.len(),
        forall|i: int|
            0 <= i < bodies.len() ==> body_ok(#[trigger] resolve_all_s(bodies, cols, gravity, h)[i]),
    decreases cols.len(),
{
    if cols.len() == 0 {
    } else {
        let e = cols.first();
        if 0 <= e.0 < bodies.len() && 0 <= e.1 < bodies.len() {
            lemma_resolve_ok(bodies[e.0], bodies[e.1], e.2, gravity, h);
            let rr = resolve_s(bodies[e.0], bodies[e.1], e.2, gravity, h);
            let updated = bodies.update(e.0, rr.0).update(e.1, rr.1);
            assert(forall|i: int| 0 <= i < updated.len() ==> body_ok(#[trigger] updated[i]));
            lemma_resolve_all_ok(updated, cols.drop_first(), gravity, h);
        } else {
            lemma_resolve_all_ok(bodies, cols.drop_first(), gravity, h);
        }
    }
}

impl PhysicsWorld {
    /// A world with no bodies, the given gravity, a millisecond sub-step
    /// and the default bound.
    pub fn new(gravity: Vec3) -> (r: PhysicsWorld)
        ensures
            r@ == (WorldView {
                bodies: Seq::<BodyView>::empty(),
                gravity,
                delta_time: DEFAULT_DELTA_TIME,
                bounds: DEFAULT_BOUNDS,
            }),
            v3_ok(gravity) ==> world_ok(r@),
    {
        let r = PhysicsWorld {
            bodies: Vec::new(),
            gravity,
            delta_time: DEFAULT_DELTA_TIME,
            bounds: DEFAULT_BOUNDS,
        };
        proof {
            assert(r@.bodies =~= Seq::<BodyView>::empty());
            assert(r@ =~= (WorldView {
                bodies: Seq::<BodyView>::empty(),
                gravity,
                delta_time: DEFAULT_DELTA_TIME,
                bounds: DEFAULT_BOUNDS,
            }));
        }
        r
    }

    pub fn set_gravity(&mut self, gravity: Vec3)
        ensures
            final(self)@ == (WorldView { gravity, ..old(self)@ }),
    {
        self.gravity = gravity;
        proof {
            assert(self@ =~= (WorldView { gravity, ..old(self)@ }));
        }
    }

    /// Sets the sub-step duration to the reciprocal of `frequency` (in
    /// steps per second).  The frequency must be positive and at most one
    /// million steps per second so that the sub-step stays positive.
    pub fn set_refresh_frequency(&mut self, frequency: i64)
        requires
            0 < frequency <= 1_000_000_000_000,
        ensures
            final(self)@ == (WorldView {
                delta_time: fx_div_s(SCALE as int, frequency as int) as i64,
                ..old(self)@
            }),
    {
        self.delta_time = fx_div(SCALE, frequency);
        proof {
            assert(self@ =~= (WorldView { delta_time: self.delta_time, ..old(self)@ }));
        }
    }

    pub fn add_body(&mut self, body: RigidBody)
        ensures
            final(self)@ == (WorldView {
                bodies: old(self)@.bodies.push(body@),
                ..old(self)@
            }),
            world_ok(old(self)@) && body_ok(body@) ==> world_ok(final(self)@),
    {
        let ghost bv = body@;
        self.bodies.push(body);
        proof {
            assert(self@.bodies =~= old(self)@.bodies.push(bv));
            assert(self@ =~= (WorldView { bodies: old(self)@.bodies.push(bv), ..old(self)@ }));
        }
    }

    /// Number of bodies currently owned by the world.
    pub fn body_count(&self) -> (r: usize)
        ensures
            r == self@.bodies.len(),
    {
        self.bodies.len()
    }

    /// Read-back access to one body.
    pub fn body(&self, i: usize) -> (r: &RigidBody)
        requires
            i < self@.bodies.len(),
        ensures
            r@ == self@.bodies[i as int],
    {
        &self.bodies[i]
    }

    /// External force injection onto one body between updates.
    pub fn apply_body_force(&mut self, i: usize, force: Vec3)
        requires
            i < old(self)@.bodies.len(),
        ensures
            final(self)@ == (WorldView {
                bodies: old(self)@.bodies.update(
                    i as int,
                    BodyView {
                        forces: v3_add_s(old(self)@.bodies[i as int].forces, force),
                        ..old(self)@.bodies[i as int]
                    },
                ),
                ..old(self)@
            }),
    {
        let mut b = self.bodies[i].duplicate();
        b.apply_force(force);
        self.bodies[i] = b;
        proof {
            assert(self@.bodies =~= old(self)@.bodies.update(
                i as int,
                BodyView {
                    forces: v3_add_s(old(self)@.bodies[i as int].forces, force),
                    ..old(self)@.bodies[i as int]
                },
            ));
            assert(self@ =~= (WorldView { bodies: self@.bodies, ..old(self)@ }));
        }
    }

    /// First contact between two bodies' shape lists; `None` when both are
    /// immovable or no shape pair touches.
    fn get_collision(&self, i: usize, j: usize) -> (r: Option<Collision>)
        requires
            i < self@.bodies.len(),
            j < self@.bodies.len(),
        ensures
            r == get_collision_s(self@.bodies[i as int], self@.bodies[j as int]),
            r matches Some(c) ==> v3_ok(c.normal),
    {
        let body_a = &self.bodies[i];
        let body_b = &self.bodies[j];
        proof {
            assert(body_a@ == self@.bodies[i as int]);
            assert(body_b@ == self@.bodies[j as int]);
        }
        if !body_a.movable && !body_b.movable {
            return None;
        }
        let ghost sa = body_a@.collision_box;
        let ghost sb = body_b@.collision_box;
        let ghost ra = body_a@.rotation;
        let ghost rb = body_b@.rotation;
        let mut si: usize = 0;
        while si < body_a.collision_box.len()
            invariant
                si <= sa.len(),
                sa == body_a@.collision_box,
                sb == body_b@.collision_box,
                ra == body_a@.rotation,
                rb == body_b@.rotation,
                body_a == &self.bodies[i as int],
                body_b == &self.bodies[j as int],
                body_a.movable || body_b.movable,
                i < self@.bodies.len(),
                j < self@.bodies.len(),
                shapes_collision_s(sa, sb, ra, rb, 0, 0) == shapes_collision_s(
                    sa,
                    sb,
                    ra,
                    rb,
                    si as int,
                    0,
                ),
            decreases sa.len() - si,
        {
            let mut sj: usize = 0;
            while sj < body_b.collision_box.len()
                invariant
                    si < sa.len(),
                    sj <= sb.len(),
                    sa == body_a@.collision_box,
                    sb == body_b@.collision_box,
                    ra == body_a@.rotation,
                    rb == body_b@.rotation,
                    body_a == &self.bodies[i as int],
                    body_b == &self.bodies[j as int],
                    body_a.movable || body_b.movable,
                    i < self@.bodies.len(),
                    j < self@.bodies.len(),
                    shapes_collision_s(sa, sb, ra, rb, 0, 0) == shapes_collision_s(
                        sa,
                        sb,
                        ra,
                        rb,
                        si as int,
                        sj as int,
                    ),
                decreases sb.len() - sj,
            {
                let found = Collision::detect(
                    &body_a.collision_box[si],
                    &body_b.collision_box[sj],
                    &body_a.rotation,
                    &body_b.rotation,
                );
                match found {
                    Option::Some(c) => {
                        proof {
                            assert(shapes_collision_s(sa, sb, ra, rb, si as int, sj as int)
                                == Some(c));
                            assert(sa == self@.bodies[i as int].collision_box);
                            assert(sb == self@.bodies[j as int].collision_box);
                            assert(ra == self@.bodies[i as int].rotation);
                            assert(rb == self@.bodies[j as int].rotation);
                            assert(self@.bodies[i as int].movable
                                || self@.bodies[j as int].movable);
                            assert(get_collision_s(
                                self@.bodies[i as int],
                                self@.bodies[j as int],
                            ) == Some(c));
                        }
                        return Some(c);
                    },
                    Option::None => {},
                }
                sj += 1;
            }
            si += 1;
        }
        None
    }

    /// Applies the full resolution of one detected collision to the two
    /// bodies.
    #[verifier::rlimit(100)]
    #[verifier::spinoff_prover]
    fn resolve_collision(&mut self, i: usize, j: usize, collision: Collision)
        requires
            i < old(self)@.bodies.len(),
            j < old(self)@.bodies.len(),
            i != j,
            body_ok(old(self)@.bodies[i as int]),
            body_ok(old(self)@.bodies[j as int]),
            v3_ok(collision.normal),
        ensures
            ({
                let rr = resolve_s(
                    old(self)@.bodies[i as int],
                    old(self)@.bodies[j as int],
                    collision,
                    old(self)@.gravity,
                    old(self)@.delta_time as int,
                );
                final(self)@ == (WorldView {
                    bodies: old(self)@.bodies.update(i as int, rr.0).update(j as int, rr.1),
                    ..old(self)@
                })
            }),
    {
        let body_a = self.bodies[i].duplicate();
        let body_b = self.bodies[j].duplicate();
        let mass_a = body_a.mass;
        let mass_b = body_b.mass;

        let r_a = v3_sub(collision.contact_point, body_a.position);
        let r_b = v3_sub(collision.contact_point, body_b.position);
        let relative_velocity = v3_sub(
            v3_add(body_b.velocity, v3_cross(r_b, body_b.angular_velocity)),
            v3_add(body_a.velocity, v3_cross(r_a, body_a.angular_velocity)),
        );
        let normal = collision.normal;

        let bounciness = fx_idiv(fx_add(body_a.bounciness, body_b.bounciness), 2);
        let inv_a: i64 = if body_a.movable {
            fx_div(SCALE, mass_a)
        } else {
            0
        };
        let inv_b: i64 = if body_b.movable {
            fx_div(SCALE, mass_b)
        } else {
            0
        };
        let inv_sum = fx_add(inv_a, inv_b);
        let impulse_magnitude = fx_div(
            fx_mul(fx_neg(fx_add(SCALE, bounciness)), v3_dot(relative_velocity, normal)),
            inv_sum,
        );
        let impulse = v3_scale(normal, impulse_magnitude);

        let friction_coefficient = fx_sqrt(
            fx_mul(body_a.friction_coefficient, body_b.friction_coefficient),
        );

        let ghost rr = resolve_s(
            old(self)@.bodies[i as int],
            old(self)@.bodies[j as int],
            collision,
            old(self)@.gravity,
            old(self)@.delta_time as int,
        );

        if body_a.movable {
            let mut a = body_a;
            a.velocity = v3_sub(a.velocity, v3_div_scalar(impulse, mass_a));
            let torque_a = v3_neg(v3_cross(r_a, v3_div_scalar(impulse, self.delta_time)));
            a.apply_torque(torque_a);
            let gravity_torque = v3_neg(v3_cross(r_a, v3_scale(self.gravity, mass_a)));
            a.apply_torque(gravity_torque);
            a.apply_surface_friction(
                normal,
                collision.contact_point,
                friction_coefficient,
                self.delta_time,
            );
            a.correction = v3_neg(v3_scale(
                normal,
                fx_mul(fx_mul(collision.overlap, fx_div(inv_a, inv_sum)), FX_HALF),
            ));
            proof {
                assert(a@ == rr.0);
            }
            self.bodies[i] = a;
        } else {
            proof {
                assert(body_a@ == rr.0);
            }
            self.bodies[i] = body_a;
        }

        if body_b.movable {
            let mut b = body_b;
            b.velocity = v3_add(b.velocity, v3_div_scalar(impulse, mass_b));
            let torque_b = v3_neg(v3_cross(r_b, v3_div_scalar(impulse, self.delta_time)));
            b.apply_torque(torque_b);
            let gravity_torque = v3_neg(v3_cross(r_b, v3_scale(self.gravity, mass_b)));
            b.apply_torque(gravity_torque);
            b.apply_surface_friction(
                normal,
                collision.contact_point,
                friction_coefficient,
                self.delta_time,
            );
            b.correction = v3_scale(
                normal,
                fx_mul(fx_mul(collision.overlap, fx_div(inv_b, inv_sum)), FX_HALF),
            );
            proof {
                assert(b@ == rr.1);
            }
            self.bodies[j] = b;
        } else {
            proof {
                assert(body_b@ == rr.1);
            }
            self.bodies[j] = body_b;
        }
        proof {
            assert(self@.bodies =~= old(self)@.bodies.update(i as int, rr.0).update(
                j as int,
                rr.1,
            ));
            assert(self@ =~= (WorldView {
                bodies: old(self)@.bodies.update(i as int, rr.0).update(j as int, rr.1),
                ..old(self)@
            }));
        }
    }

    /// One collision pass: all pair collisions are detected over the
    /// current (read-only) body states, then resolved sequentially in pair
    /// order.
    fn handle_collisions(&mut self)
        requires
            forall|k: int|
                0 <= k < old(self)@.bodies.len() ==> body_ok(#[trigger] old(self)@.bodies[k]),
            v3_ok(old(self)@.gravity),
        ensures
            final(self)@ == (WorldView {
                bodies: resolve_all_s(
                    old(self)@.bodies,
                    pair_collisions_s(old(self)@.bodies, 0, 1),
                    old(self)@.gravity,
                    old(self)@.delta_time as int,
                ),
                ..old(self)@
            }),
            forall|k: int|
                0 <= k < final(self)@.bodies.len() ==> body_ok(#[trigger] final(self)@.bodies[k]),
    {
        let ghost start_bodies = self@.bodies;
        let ghost g = self@.gravity;
        let ghost h = self@.delta_time as int;
        let body_count = self.bodies.len();

        let mut collisions: Vec<(usize, usize, Collision)> = Vec::new();
        let mut i: usize = 0;
        while i < body_count
            invariant
                self@ == old(self)@,
                start_bodies == self@.bodies,
                body_count == start_bodies.len(),
                i <= body_count,
                forall|m: int|
                    0 <= m < collisions@.len() ==> {
                        let e = #[trigger] collisions@[m];
                        e.0 < e.1 < body_count && v3_ok(e.2.normal)
                    },
                cols_view_s(collisions@) + pair_collisions_s(start_bodies, i as int, i as int + 1)
                    == pair_collisions_s(start_bodies, 0, 1),
            decreases body_count - i,
        {
            let mut j: usize = i + 1;
            while j < body_count
                invariant
                    self@ == old(self)@,
                    start_bodies == self@.bodies,
                    body_count == start_bodies.len(),
                    i < body_count,
                    i + 1 <= j <= body_count,
                    forall|m: int|
                        0 <= m < collisions@.len() ==> {
                            let e = #[trigger] collisions@[m];
                            e.0 < e.1 < body_count && v3_ok(e.2.normal)
                        },
                    cols_view_s(collisions@) + pair_collisions_s(start_bodies, i as int, j as int)
                        == pair_collisions_s(start_bodies, 0, 1),
                decreases body_count - j,
            {
                let found = self.get_collision(i, j);
                match found {
                    Option::Some(c) => {
                        proof {
                            assert(pair_collisions_s(start_bodies, i as int, j as int)
                                == seq![(i as int, j as int, c)] + pair_collisions_s(
                                start_bodies,
                                i as int,
                                j as int + 1,
                            ));
                            assert(cols_view_s(collisions@.push((i, j, c))) =~= cols_view_s(
                                collisions@,
                            ).push((i as int, j as int, c)));
                            assert(cols_view_s(collisions@).push((i as int, j as int, c))
                                + pair_collisions_s(start_bodies, i as int, j as int + 1)
                                =~= cols_view_s(collisions@) + (seq![(i as int, j as int, c)]
                                + pair_collisions_s(start_bodies, i as int, j as int + 1)));
                        }
                        collisions.push((i, j, c));
                    },
                    Option::None => {},
                }
                j += 1;
            }
            i += 1;
        }
        proof {
            assert(pair_collisions_s(start_bodies, body_count as int, body_count as int + 1)
                =~= Seq::<(int, int, Collision)>::empty());
            assert(cols_view_s(collisions@) + Seq::<(int, int, Collision)>::empty()
                =~= cols_view_s(collisions@));
        }
        let ghost full = pair_collisions_s(start_bodies, 0, 1);
        proof {
            assert(cols_view_s(collisions@).skip(0) =~= cols_view_s(collisions@));
        }
        let mut k: usize = 0;
        while k < collisions.len()
            invariant
                cols_view_s(collisions@) == full,
                self@.gravity == g,
                self@.delta_time as int == h,
                self@.bounds == old(self)@.bounds,
                self@.bodies.len() == start_bodies.len(),
                body_count == start_bodies.len(),
                k <= collisions@.len(),
                forall|m: int|
                    0 <= m < collisions@.len() ==> {
                        let e = #[trigger] collisions@[m];
                        e.0 < e.1 < body_count && v3_ok(e.2.normal)
                    },
                forall|m: int|
                    0 <= m < self@.bodies.len() ==> body_ok(#[trigger] self@.bodies[m]),
                resolve_all_s(start_bodies, full, g, h) == resolve_all_s(
                    self@.bodies,
                    cols_view_s(collisions@).skip(k as int),
                    g,
                    h,
                ),
            decreases collisions@.len() - k,
        {
            let e = collisions[k];
            let ghost pre = self@.bodies;
            let ghost remaining = cols_view_s(collisions@).skip(k as int);
            proof {
                assert(remaining.first() == (e.0 as int, e.1 as int, e.2));
                lemma_resolve_ok(pre[e.0 as int], pre[e.1 as int], e.2, g, h);
            }
            self.resolve_collision(e.0, e.1, e.2);
            proof {
                let rr = resolve_s(pre[e.0 as int], pre[e.1 as int], e.2, g, h);
                assert(self@.bodies == pre.update(e.0 as int, rr.0).update(e.1 as int, rr.1));
                assert(remaining.drop_first() =~= cols_view_s(collisions@).skip(k as int + 1));
                assert(resolve_all_s(pre, remaining, g, h) == resolve_all_s(
                    self@.bodies,
                    remaining.drop_first(),
                    g,
                    h,
                ));
            }
            k += 1;
        }
        proof {
            assert(cols_view_s(collisions@).skip(collisions@.len() as int)
                =~= Seq::<(int, int, Collision)>::empty());
            assert(self@.bodies == resolve_all_s(start_bodies, full, g, h));
            assert(self@ =~= (WorldView {
                bodies: resolve_all_s(
                    old(self)@.bodies,
                    pair_collisions_s(old(self)@.bodies, 0, 1),
                    old(self)@.gravity,
                    old(self)@.delta_time as int,
                ),
                ..old(self)@
            }));
        }
    }

    /// Evicts every body whose distance from the origin exceeds the world
    /// bound; the others keep their order.
    fn filter_bodies(&mut self)
        requires
            forall|k: int|
                0 <= k < old(self)@.bodies.len() ==> body_ok(#[trigger] old(self)@.bodies[k]),
        ensures
            final(self)@ == (WorldView {
                bodies: retained_s(old(self)@.bodies, old(self)@.bounds as int),
                ..old(self)@
            }),
            forall|k: int|
                0 <= k < final(self)@.bodies.len() ==> body_ok(#[trigger] final(self)@.bodies[k])
                    && in_bounds_s(final(self)@.bodies[k], final(self)@.bounds as int),
    {
        let ghost start_bodies = self@.bodies;
        let ghost bound = self@.bounds as int;
        let mut kept: Vec<RigidBody> = Vec::new();
        let mut i: usize = 0;
        while i < self.bodies.len()
            invariant
                self@ == old(self)@,
                start_bodies == self@.bodies,
                i <= start_bodies.len(),
                bound == self@.bounds as int,
                forall|k: int|
                    0 <= k < start_bodies.len() ==> body_ok(#[trigger] start_bodies[k]),
                kept@.map_values(|b: RigidBody| b@) == retained_s(
                    start_bodies.subrange(0, i as int),
                    bound,
                ),
                forall|k: int|
                    0 <= k < kept@.len() ==> body_ok(#[trigger] kept@[k]@) && in_bounds_s(
                        kept@[k]@,
                        bound,
                    ),
            decreases start_bodies.len() - i,
        {
            let b = self.bodies[i].duplicate();
            proof {
                assert(b@ == start_bodies[i as int]);
                assert(body_ok(b@));
            }
            let m = v3_mag(b.position);
            proof {
                assert(start_bodies.subrange(0, i as int + 1).drop_last() =~= start_bodies
                    .subrange(0, i as int));
                assert(start_bodies.subrange(0, i as int + 1).last() == start_bodies[i as int]);
            }
            if m <= self.bounds {
                kept.push(b);
                proof {
                    assert(kept@.map_values(|bb: RigidBody| bb@) =~= retained_s(
                        start_bodies.subrange(0, i as int),
                        bound,
                    ).push(start_bodies[i as int]));
                }
            }
            i += 1;
        }
        proof {
            assert(start_bodies.subrange(0, start_bodies.len() as int) =~= start_bodies);
        }
        self.bodies = kept;
        proof {
            assert(self@ =~= (WorldView {
                bodies: retained_s(old(self)@.bodies, old(self)@.bounds as int),
                ..old(self)@
            }));
        }
    }

    /// Advances the simulation by `dt` seconds of frame time: while time
    /// remains, every body receives gravity and one fixed sub-step of
    /// integration, then one full collision pass runs; afterwards
    /// out-of-bounds bodies are evicted.
    #[verifier::rlimit(100)]
    pub fn update(&mut self, dt: i64)
        requires
            world_ok(old(self)@),
        ensures
            final(self)@ == (WorldView {
                bodies: retained_s(
                    world_update_s(
                        old(self)@.bodies,
                        old(self)@.gravity,
                        old(self)@.delta_time as int,
                        dt as int,
                    ),
                    old(self)@.bounds as int,
                ),
                ..old(self)@
            }),
            world_ok(final(self)@),
            forall|k: int|
                0 <= k < final(self)@.bodies.len()
                    ==> in_bounds_s(#[trigger] final(self)@.bodies[k], final(self)@.bounds as int),
    {
        let ghost start_bodies = self@.bodies;
        let ghost g = self@.gravity;
        let ghost h = self@.delta_time as int;
        let mut remaining = dt;
        while remaining > 0
            invariant
                self@.gravity == g,
                self@.delta_time as int == h,
                self@.bounds == old(self)@.bounds,
                g == old(self)@.gravity,
                v3_ok(g),
                0 < h,
                fx_ok(h),
                forall|k: int|
                    0 <= k < self@.bodies.len() ==> body_ok(#[trigger] self@.bodies[k]),
                world_update_s(start_bodies, g, h, dt as int) == world_update_s(
                    self@.bodies,
                    g,
                    h,
                    remaining as int,
                ),
            decreases pos_part(remaining as int),
        {
            let ghost pre = self@.bodies;
            let mut k: usize = 0;
            while k < self.bodies.len()
                invariant
                    self@.bodies.len() == pre.len(),
                    k <= pre.len(),
                    self@.gravity == g,
                    self@.delta_time as int == h,
                    self@.bounds == old(self)@.bounds,
                    v3_ok(g),
                    0 < h,
                    fx_ok(h),
                    forall|m: int|
                        0 <= m < k ==> #[trigger] self@.bodies[m] == update_s(
                            gravity_applied_s(pre[m], g),
                            h,
                        ) && body_ok(self@.bodies[m]),
                    forall|m: int|
                        k <= m < pre.len() ==> #[trigger] self@.bodies[m] == pre[m] && body_ok(
                            pre[m],
                        ),
                decreases pre.len() - k,
            {
                proof {
                    assert(self@.bodies[k as int] == pre[k as int]);
                }
                let mut b = self.bodies[k].duplicate();
                proof {
                    assert(b@ == pre[k as int]);
                }
                if b.gravity && b.movable {
                    let mass = b.mass;
                    b.apply_force(v3_scale(self.gravity, mass));
                }
                proof {
                    assert(b@ == gravity_applied_s(pre[k as int], g));
                    assert(body_ok(b@));
                }
                b.update(self.delta_time);
                proof {
                    crate::body::lemma_update_ok(gravity_applied_s(pre[k as int], g), h);
                }
                let ghost cur = self@.bodies;
                self.bodies[k] = b;
                proof {
                    assert(self@.bodies =~= cur.update(k as int, b@));
                    assert forall|m: int| k as int + 1 <= m < pre.len() implies #[trigger] self@
                        .bodies[m] == pre[m] && body_ok(pre[m]) by {
                        assert(cur[m] == pre[m]);
                    }
                    assert forall|m: int| 0 <= m < k as int + 1 implies #[trigger] self@.bodies[m]
                        == update_s(gravity_applied_s(pre[m], g), h) && body_ok(
                        self@.bodies[m],
                    ) by {
                        if m < k as int {
                            assert(cur[m] == update_s(gravity_applied_s(pre[m], g), h));
                            assert(body_ok(cur[m]));
                        }
                    }
                }
                k += 1;
            }
            proof {
                assert(self@.bodies =~= integrate_all_s(pre, g, h));
            }
            self.handle_collisions();
            proof {
                assert(self@.bodies == world_substep_s(pre, g, h));
                assert(world_update_s(pre, g, h, remaining as int) == world_update_s(
                    self@.bodies,
                    g,
                    h,
                    remaining as int - h,
                ));
            }
            remaining = remaining - self.delta_time;
        }
        proof {
            assert(world_update_s(self@.bodies, g, h, remaining as int) == self@.bodies);
        }
        self.filter_bodies();
    }
}

} // verus!