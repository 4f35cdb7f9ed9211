//! Rigid-body state and single-step semi-implicit (symplectic) Euler
//! integration: velocity is advanced from the accumulated forces first and
//! the position is then advanced with the already-updated velocity.
//!
//! The inertia tensor of boxes and spheres is diagonal, so it is stored as
//! the vector of its diagonal entries; a singular tensor inverts to the zero
//! vector, which disables angular response instead of failing.

use vstd::prelude::*;
use crate::collision_box::BoundingBox;
use crate::collision_box::CollisionBox;
use crate::collision_box::Sphere;
use crate::collision_box::bbox_size_s;
use crate::collision_box::calculate_bounding_box;
use crate::collision_box::calculate_sphere;
use crate::collision_box::cb_shift;
use crate::collision_box::cb_shift_s;
use crate::fx::SCALE;
use crate::fx::fx_add;
use crate::fx::fx_add_s;
use crate::fx::fx_idiv;
use crate::fx::fx_idiv_s;
use crate::fx::fx_mul;
use crate::fx::fx_mul_s;
use crate::fx::fx_ok;
use crate::fx::fx_sub;
use crate::fx::fx_sub_s;
use crate::quat::Quat;
use crate::quat::q_from_angle_x;
use crate::quat::q_from_angle_x_s;
use crate::quat::q_from_angle_y;
use crate::quat::q_from_angle_y_s;
use crate::quat::q_from_angle_z;
use crate::quat::q_from_angle_z_s;
use crate::quat::q_mul;
use crate::quat::q_mul_s;
use crate::quat::q_normalize;
use crate::quat::q_normalize_s;
use crate::quat::q_ok;
use crate::quat::q_one;
use crate::quat::q_one_s;
use crate::vec3::Vec3;
use crate::vec3::v3_add;
use crate::vec3::v3_add_s;
use crate::vec3::v3_cross;
use crate::vec3::v3_cross_s;
use crate::vec3::v3_div_scalar;
use crate::vec3::v3_div_scalar_s;
use crate::vec3::v3_dot;
use crate::vec3::v3_dot_s;
use crate::vec3::v3_mag;
use crate::vec3::v3_mag_s;
use crate::vec3::v3_mul_elem;
use crate::vec3::v3_mul_elem_s;
use crate::vec3::v3_neg;
use crate::vec3::v3_neg_s;
use crate::vec3::v3_normalize;
use crate::vec3::v3_normalize_s;
use crate::vec3::v3_ok;
use crate::vec3::v3_scale;
use crate::vec3::v3_scale_s;
use crate::vec3::v3_sub;
use crate::vec3::v3_sub_s;
use crate::vec3::v3_zero;
use crate::vec3::v3_zero_s;

verus! {

/// Tangential speeds below this threshold (0.1 units/s) use the raw
/// tangential vector for friction instead of its normalized direction, so
/// that near-zero velocities are not amplified.
pub const FRICTION_EPS: i64 = 100_000;

/// Default bounciness of a new body: one half.
pub const DEFAULT_BOUNCINESS: i64 = 500_000;

#[derive(Debug)]
pub struct RigidBody {
    pub position: Vec3,
    pub correction: Vec3,
    pub velocity: Vec3,
    pub acceleration: Vec3,
    pub mass: i64,
    pub forces: Vec3,
    pub gravity: bool,
    pub movable: bool,
    pub collision_box: Vec<CollisionBox>,
    pub rotation: Quat,
    pub angular_velocity: Vec3,
    pub angular_acceleration: Vec3,
    pub torque: Vec3,
    pub inertia_tensor: Vec3,
    pub inverse_inertia_tensor: Vec3,
    pub bounciness: i64,
    pub friction_coefficient: i64,
}

/// Mathematical model of a body: the exec fields with the shape list as a
/// sequence.
#[verifier::ext_equal]
pub struct BodyView {
    pub position: Vec3,
    pub correction: Vec3,
    pub velocity: Vec3,
    pub acceleration: Vec3,
    pub mass: i64,
    pub forces: Vec3,
    pub gravity: bool,
    pub movable: bool,
    pub collision_box: Seq<CollisionBox>,
    pub rotation: Quat,
    pub angular_velocity: Vec3,
    pub angular_acceleration: Vec3,
    pub torque: Vec3,
    pub inertia_tensor: Vec3,
    pub inverse_inertia_tensor: Vec3,
    pub bounciness: i64,
    pub friction_coefficient: i64,
}

impl View for RigidBody {
    type V = BodyView;

    open spec fn view(&self) -> BodyView {
        BodyView {
            position: self.position,
            correction: self.correction,
            velocity: self.velocity,
            acceleration: self.acceleration,
            mass: self.mass,
            forces: self.forces,
            gravity: self.gravity,
            movable: self.movable,
            collision_box: self.collision_box@,
            rotation: self.rotation,
            angular_velocity: self.angular_velocity,
            angular_acceleration: self.angular_acceleration,
            torque: self.torque,
            inertia_tensor: self.inertia_tensor,
            inverse_inertia_tensor: self.inverse_inertia_tensor,
            bounciness: self.bounciness,
            friction_coefficient: self.friction_coefficient,
        }
    }
}

/// Well-formedness: all quantities in the representable band, a strictly
/// positive mass, bounciness in [0, 1] and a nonnegative friction
/// coefficient.
pub open spec fn body_ok(b: BodyView) -> bool {
    &&& v3_ok(b.position)
    &&& v3_ok(b.correction)
    &&& v3_ok(b.velocity)
    &&& v3_ok(b.acceleration)
    &&& v3_ok(b.forces)
    &&& v3_ok(b.angular_velocity)
    &&& v3_ok(b.angular_acceleration)
    &&& v3_ok(b.torque)
    &&& v3_ok(b.inertia_tensor)
    &&& v3_ok(b.inverse_inertia_tensor)
    &&& q_ok(b.rotation)
    &&& 0 < b.mass
    &&& fx_ok(b.mass as int)
    &&& 0 <= b.bounciness <= SCALE
    &&& 0 <= b.friction_coefficient
    &&& fx_ok(b.friction_coefficient as int)
}

/// Diagonal inertia of one shape: the solid-box formula per
/// axis for boxes, `(2/5) m r^2` on every axis for spheres.
pub open spec fn shape_inertia_s(c: CollisionBox, mass: int) -> Vec3 {
    match c {
        CollisionBox::BoundingBox(b) => {
            let size = bbox_size_s(b);
            let w = size.x as int;
            let h = size.y as int;
            let d = size.z as int;
            Vec3 {
                x: fx_idiv_s(fx_mul_s(mass, fx_add_s(fx_mul_s(h, h), fx_mul_s(d, d))), 12) as i64,
                y: fx_idiv_s(fx_mul_s(mass, fx_add_s(fx_mul_s(w, w), fx_mul_s(d, d))), 12) as i64,
                z: fx_idiv_s(fx_mul_s(mass, fx_add_s(fx_mul_s(w, w), fx_mul_s(h, h))), 12) as i64,
            }
        },
        CollisionBox::Sphere(s) => {
            let r2 = fx_mul_s(s.radius as int, s.radius as int);
            let m_r2 = fx_mul_s(mass, r2);
            let i = fx_idiv_s(fx_add_s(m_r2, m_r2), 5);
            Vec3 { x: i as i64, y: i as i64, z: i as i64 }
        },
    }
}

/// Sum of the diagonal inertia of every shape in a list.
pub open spec fn inertia_sum_s(shapes: Seq<CollisionBox>, mass: int) -> Vec3
    decreases shapes.len(),
{
    if shapes.len() == 0 {
        v3_zero_s()
    } else {
        v3_add_s(inertia_sum_s(shapes.drop_last(), mass), shape_inertia_s(shapes.last(), mass))
    }
}

/// Inverse of a diagonal tensor, or zero when it is singular.
pub open spec fn inverse_inertia_s(t: Vec3) -> Vec3 {
    if t.x == 0 || t.y == 0 || t.z == 0 {
        v3_zero_s()
    } else {
        Vec3 {
            x: crate::fx::fx_div_s(SCALE as int, t.x as int) as i64,
            y: crate::fx::fx_div_s(SCALE as int, t.y as int) as i64,
            z: crate::fx::fx_div_s(SCALE as int, t.z as int) as i64,
        }
    }
}

/// A freshly constructed body: unit mass, gravity on, movable, identity
/// rotation, bounciness one half, friction one, inertia derived from the
/// shapes.
pub open spec fn new_body_s(shapes: Seq<CollisionBox>) -> BodyView {
    let tensor = inertia_sum_s(shapes, SCALE as int);
    BodyView {
        position: v3_zero_s(),
        correction: v3_zero_s(),
        velocity: v3_zero_s(),
        acceleration: v3_zero_s(),
        mass: SCALE,
        forces: v3_zero_s(),
        gravity: true,
        movable: true,
        collision_box: shapes,
        rotation: q_one_s(),
        angular_velocity: v3_zero_s(),
        angular_acceleration: v3_zero_s(),
        torque: v3_zero_s(),
        inertia_tensor: tensor,
        inverse_inertia_tensor: inverse_inertia_s(tensor),
        bounciness: DEFAULT_BOUNCINESS,
        friction_coefficient: SCALE,
    }
}

/// Moving a body also translates every owned shape by the same delta, so
/// the shapes stay synchronized with the position.
pub open spec fn set_position_s(b: BodyView, position: Vec3) -> BodyView {
    let delta = v3_sub_s(position, b.position);
    BodyView {
        position,
        collision_box: b.collision_box.map_values(|c: CollisionBox| cb_shift_s(c, delta)),
        ..b
    }
}

/// One integration step of length `dt`: a no-op for immovable bodies;
/// otherwise velocity from forces, angular velocity from torque, an
/// incremental axis-angle rotation, position from the updated velocity plus
/// the pending correction, and the per-step accumulators reset.
pub open spec fn update_s(b: BodyView, dt: int) -> BodyView {
    if !b.movable {
        b
    } else {
        let accel = v3_div_scalar_s(b.forces, b.mass as int);
        let vel = v3_add_s(b.velocity, v3_scale_s(accel, dt));
        let ang_acc = v3_mul_elem_s(b.inverse_inertia_tensor, b.torque);
        let ang_vel = v3_add_s(b.angular_velocity, v3_scale_s(ang_acc, dt));
        let dq = q_mul_s(
            q_mul_s(
                q_from_angle_x_s(fx_mul_s(ang_vel.x as int, dt)),
                q_from_angle_y_s(fx_mul_s(ang_vel.y as int, dt)),
            ),
            q_from_angle_z_s(fx_mul_s(ang_vel.z as int, dt)),
        );
        let new_pos = v3_add_s(v3_add_s(b.position, v3_scale_s(vel, dt)), b.correction);
        let moved = set_position_s(
            BodyView {
                acceleration: accel,
                velocity: vel,
                angular_acceleration: ang_acc,
                angular_velocity: ang_vel,
                ..b
            },
            new_pos,
        );
        BodyView {
            rotation: q_normalize_s(q_mul_s(dq, b.rotation)),
            correction: v3_zero_s(),
            forces: v3_zero_s(),
            torque: v3_zero_s(),
            ..moved
        }
    }
}

/// Relative surface velocity at a contact point induced by rotation.
pub open spec fn tangential_velocity_s(b: BodyView, contact_point: Vec3) -> Vec3 {
    v3_cross_s(b.angular_velocity, v3_sub_s(contact_point, b.position))
}

/// Surface friction: an opposing force and torque from the tangential part
/// of the contact velocity, plus a damping factor on both velocities.
pub open spec fn apply_surface_friction_s(
    b: BodyView,
    contact_normal: Vec3,
    contact_point: Vec3,
    friction_coefficient: int,
    damping: int,
) -> BodyView {
    let rel = v3_add_s(b.velocity, tangential_velocity_s(b, contact_point));
    let tang = v3_sub_s(rel, v3_scale_s(contact_normal, v3_dot_s(rel, contact_normal)));
    let base = if v3_mag_s(tang) < FRICTION_EPS {
        v3_neg_s(tang)
    } else {
        v3_neg_s(v3_normalize_s(tang))
    };
    let friction_force = v3_scale_s(v3_scale_s(base, friction_coefficient), b.mass as int);
    let lever = v3_sub_s(contact_point, b.position);
    let keep = fx_sub_s(SCALE as int, damping);
    BodyView {
        forces: v3_add_s(b.forces, friction_force),
        torque: v3_add_s(b.torque, v3_cross_s(lever, friction_force)),
        velocity: v3_scale_s(b.velocity, keep),
        angular_velocity: v3_scale_s(b.angular_velocity, keep),
        ..b
    }
}

/// The accumulated inertia tensor is always in band.
pub proof fn lemma_inertia_sum_ok(shapes: Seq<CollisionBox>, mass: int)
    ensures
        v3_ok(inertia_sum_s(shapes, mass)),
    decreases shapes.len(),
{
    if shapes.len() == 0 {
    } else {
        lemma_inertia_sum_ok(shapes.drop_last(), mass);
    }
}

/// A well-formed body stays well formed through friction application.
pub proof fn lemma_friction_ok(
    b: BodyView,
    contact_normal: Vec3,
    contact_point: Vec3,
    friction_coefficient: int,
    damping: int,
)
    requires
        body_ok(b),
    ensures
        body_ok(apply_surface_friction_s(b, contact_normal, contact_point, friction_coefficient, damping)),
{
    let r = apply_surface_friction_s(b, contact_normal, contact_point, friction_coefficient, damping);
    crate::vec3::lemma_v3_ops_ok(b.velocity, b.forces, 0);
    assert(v3_ok(r.forces));
    assert(v3_ok(r.torque));
    assert(v3_ok(r.velocity));
    assert(v3_ok(r.angular_velocity));
}

/// A well-formed body stays well formed through one integration step.
pub proof fn lemma_update_ok(b: BodyView, dt: int)
    requires
        body_ok(b),
    ensures
        body_ok(update_s(b, dt)),
{
    let r = update_s(b, dt);
    if b.movable {
        crate::quat::lemma_q_ops_ok(b.rotation, b.rotation, 0);
        assert(q_ok(r.rotation));
        assert(v3_ok(r.position));
        assert(v3_ok(r.velocity));
        assert(v3_ok(r.acceleration));
        assert(v3_ok(r.angular_velocity));
        assert(v3_ok(r.angular_acceleration));
        assert(v3_ok(r.forces));
        assert(v3_ok(r.torque));
        assert(v3_ok(r.correction));
    }
}

impl RigidBody {
    /// An exact copy of the body.
    pub fn duplicate(&self) -> (r: RigidBody)
        ensures
            r@ == self@,
    {
        let mut shapes: Vec<CollisionBox> = Vec::new();
        let mut i: usize = 0;
        while i < self.collision_box.len()
            invariant
                i <= self.collision_box.len(),
                shapes@ == self.collision_box@.subrange(0, i as int),
            decreases self.collision_box.len() - i,
        {
            shapes.push(self.collision_box[i]);
            proof {
                assert(shapes@ =~= self.collision_box@.subrange(0, i + 1));
            }
            i += 1;
        }
        proof {
            assert(shapes@ =~= self.collision_box@);
        }
        RigidBody {
            position: self.position,
            correction: self.correction,
            velocity: self.velocity,
            acceleration: self.acceleration,
            mass: self.mass,
            forces: self.forces,
            gravity: self.gravity,
            movable: self.movable,
            collision_box: shapes,
            rotation: self.rotation,
            angular_velocity: self.angular_velocity,
            angular_acceleration: self.angular_acceleration,
            torque: self.torque,
            inertia_tensor: self.inertia_tensor,
            inverse_inertia_tensor: self.inverse_inertia_tensor,
            bounciness: self.bounciness,
            friction_coefficient: self.friction_coefficient,
        }
    }

    pub fn new(collision_box: Vec<CollisionBox>) -> (r: RigidBody)
        ensures
            r@ == new_body_s(collision_box@),
            body_ok(r@),
    {
        proof {
            lemma_inertia_sum_ok(collision_box@, SCALE as int);
        }
        let tensor = inertia_tensor_of(&collision_box, SCALE);
        let inverse = inverse_inertia(tensor);
        RigidBody {
            position: v3_zero(),
            correction: v3_zero(),
            velocity: v3_zero(),
            acceleration: v3_zero(),
            mass: SCALE,
            forces: v3_zero(),
            gravity: true,
            movable: true,
            collision_box,
            rotation: q_one(),
            angular_velocity: v3_zero(),
            angular_acceleration: v3_zero(),
            torque: v3_zero(),
            inertia_tensor: tensor,
            inverse_inertia_tensor: inverse,
            bounciness: DEFAULT_BOUNCINESS,
            friction_coefficient: SCALE,
        }
    }

    /// One bounding box per mesh, each fitted around that mesh's vertices.
    pub fn with_bboxes(meshes: &Vec<Vec<Vec3>>) -> (r: RigidBody)
        requires
            forall|i: int| 0 <= i < meshes@.len() ==> (#[trigger] meshes@[i])@.len() > 0,
            forall|i: int, j: int|
                0 <= i < meshes@.len() && 0 <= j < meshes@[i]@.len()
                    ==> v3_ok(#[trigger] meshes@[i]@[j]),
        ensures
            r@.collision_box.len() == meshes@.len(),
            forall|i: int|
                0 <= i < meshes@.len()
                    ==> ((#[trigger] r@.collision_box[i]) matches CollisionBox::BoundingBox(bx)
                        && crate::collision_box::bbox_ok(bx)
                        && crate::collision_box::fitted_bbox_s(bx, meshes@[i]@)),
            r@ == new_body_s(r@.collision_box),
    {
        let mut shapes: Vec<CollisionBox> = Vec::new();
        let mut i: usize = 0;
        while i < meshes.len()
            invariant
                i <= meshes@.len(),
                shapes@.len() == i,
                forall|k: int|
                    0 <= k < i ==> ((#[trigger] shapes@[k]) matches CollisionBox::BoundingBox(bx)
                        && crate::collision_box::bbox_ok(bx)
                        && crate::collision_box::fitted_bbox_s(bx, meshes@[k]@)),
                forall|k: int| 0 <= k < meshes@.len() ==> (#[trigger] meshes@[k])@.len() > 0,
                forall|k: int, j: int|
                    0 <= k < meshes@.len() && 0 <= j < meshes@[k]@.len()
                        ==> v3_ok(#[trigger] meshes@[k]@[j]),
            decreases meshes@.len() - i,
        {
            let b = calculate_bounding_box(&meshes[i]);
            shapes.push(CollisionBox::BoundingBox(b));
            i += 1;
        }
        RigidBody::new(shapes)
    }

    /// One bounding sphere per mesh, each fitted around that mesh's
    /// vertices.
    pub fn with_spheres(meshes: &Vec<Vec<Vec3>>) -> (r: RigidBody)
        requires
            forall|i: int| 0 <= i < meshes@.len() ==> (#[trigger] meshes@[i])@.len() > 0,
            forall|i: int, j: int|
                0 <= i < meshes@.len() && 0 <= j < meshes@[i]@.len()
                    ==> v3_ok(#[trigger] meshes@[i]@[j]),
        ensures
            r@.collision_box.len() == meshes@.len(),
            forall|i: int|
                0 <= i < meshes@.len()
                    ==> ((#[trigger] r@.collision_box[i]) matches CollisionBox::Sphere(sp)
                        && crate::collision_box::sphere_ok(sp)
                        && crate::collision_box::fitted_sphere_s(sp, meshes@[i]@)),
            r@ == new_body_s(r@.collision_box),
    {
        let mut shapes: Vec<CollisionBox> = Vec::new();
        let mut i: usize = 0;
        while i < meshes.len()
            invariant
                i <= meshes@.len(),
                shapes@.len() == i,
                forall|k: int|
                    0 <= k < i ==> ((#[trigger] shapes@[k]) matches CollisionBox::Sphere(sp)
                        && crate::collision_box::sphere_ok(sp)
                        && crate::collision_box::fitted_sphere_s(sp, meshes@[k]@)),
                forall|k: int| 0 <= k < meshes@.len() ==> (#[trigger] meshes@[k])@.len() > 0,
                forall|k: int, j: int|
                    0 <= k < meshes@.len() && 0 <= j < meshes@[k]@.len()
                        ==> v3_ok(#[trigger] meshes@[k]@[j]),
            decreases meshes@.len() - i,
        {
            let s = calculate_sphere(&meshes[i]);
            shapes.push(CollisionBox::Sphere(s));
            i += 1;
        }
        RigidBody::new(shapes)
    }

    /// A single bounding box fitted around all vertices.
    pub fn with_single_bbox(points: &Vec<Vec3>) -> (r: RigidBody)
        requires
            points@.len() > 0,
            forall|i: int| 0 <= i < points@.len() ==> v3_ok(#[trigger] points@[i]),
        ensures
            r@.collision_box.len() == 1,
            r@.collision_box[0] matches CollisionBox::BoundingBox(bx)
                && crate::collision_box::bbox_ok(bx)
                && crate::collision_box::fitted_bbox_s(bx, points@),
            r@ == new_body_s(r@.collision_box),
    {
        let b = calculate_bounding_box(points);
        let mut shapes: Vec<CollisionBox> = Vec::new();
        shapes.push(CollisionBox::BoundingBox(b));
        RigidBody::new(shapes)
    }

    /// A single bounding sphere fitted around all vertices.
    pub fn with_single_sphere(points: &Vec<Vec3>) -> (r: RigidBody)
        requires
            points@.len() > 0,
            forall|i: int| 0 <= i < points@.len() ==> v3_ok(#[trigger] points@[i]),
        ensures
            r@.collision_box.len() == 1,
            r@.collision_box[0] matches CollisionBox::Sphere(sp)
                && crate::collision_box::sphere_ok(sp)
                && crate::collision_box::fitted_sphere_s(sp, points@),
            r@ == new_body_s(r@.collision_box),
    {
        let s = calculate_sphere(points);
        let mut shapes: Vec<CollisionBox> = Vec::new();
        shapes.push(CollisionBox::Sphere(s));
        RigidBody::new(shapes)
    }

    pub fn set_position(&mut self, position: Vec3)
        ensures
            final(self)@ == set_position_s(old(self)@, position),
            body_ok(old(self)@) && v3_ok(position) ==> body_ok(final(self)@),
    {
        let delta = v3_sub(position, self.position);
        self.position = position;
        let ghost before = self.collision_box@;
        let mut i: usize = 0;
        while i < self.collision_box.len()
            invariant
                i <= self.collision_box.len(),
                self.collision_box@.len() == before.len(),
                self@ == (BodyView { position, collision_box: self.collision_box@, ..old(self)@ }),
                forall|k: int|
                    0 <= k < i ==> self.collision_box@[k] == cb_shift_s(#[trigger] before[k], delta),
                forall|k: int| i <= k < before.len() ==> self.collision_box@[k] == #[trigger] before[k],
            decreases self.collision_box.len() - i,
        {
            let shifted = cb_shift(&self.collision_box[i], delta);
            self.collision_box[i] = shifted;
            i += 1;
        }
        proof {
            assert(self.collision_box@ =~= before.map_values(|c: CollisionBox| cb_shift_s(c, delta)));
            assert(self.collision_box@ =~= old(self)@.collision_box.map_values(
                |c: CollisionBox| cb_shift_s(c, v3_sub_s(position, old(self)@.position)),
            ));
            assert(self@ =~= set_position_s(old(self)@, position));
        }
    }

    pub fn set_mass(&mut self, mass: i64)
        requires
            mass > 0,
        ensures
            final(self)@ == (BodyView {
                mass,
                inertia_tensor: inertia_sum_s(old(self)@.collision_box, mass as int),
                inverse_inertia_tensor: inverse_inertia_s(
                    inertia_sum_s(old(self)@.collision_box, mass as int),
                ),
                ..old(self)@
            }),
            body_ok(old(self)@) && fx_ok(mass as int) ==> body_ok(final(self)@),
    {
        proof {
            lemma_inertia_sum_ok(old(self)@.collision_box, mass as int);
        }
        self.mass = mass;
        let tensor = inertia_tensor_of(&self.collision_box, mass);
        self.inertia_tensor = tensor;
        self.inverse_inertia_tensor = inverse_inertia(tensor);
    }

    /// Bounciness is clamped into [0, 1].
    pub fn set_bounciness(&mut self, bounciness: i64)
        ensures
            final(self)@ == (BodyView {
                bounciness: if bounciness > SCALE {
                    SCALE
                } else if bounciness < 0 {
                    0
                } else {
                    bounciness
                },
                ..old(self)@
            }),
            body_ok(old(self)@) ==> body_ok(final(self)@),
    {
        if bounciness > SCALE {
            self.bounciness = SCALE;
        } else if bounciness < 0 {
            self.bounciness = 0;
        } else {
            self.bounciness = bounciness;
        }
    }

    /// The friction coefficient is clamped to be nonnegative.
    pub fn set_friction_coefficient(&mut self, friction_coefficient: i64)
        ensures
            final(self)@ == (BodyView {
                friction_coefficient: if friction_coefficient < 0 {
                    0
                } else {
                    friction_coefficient
                },
                ..old(self)@
            }),
            body_ok(old(self)@) && fx_ok(friction_coefficient as int) ==> body_ok(final(self)@),
    {
        if friction_coefficient < 0 {
            self.friction_coefficient = 0;
        } else {
            self.friction_coefficient = friction_coefficient;
        }
    }

    pub fn apply_force(&mut self, force: Vec3)
        ensures
            final(self)@ == (BodyView { forces: v3_add_s(old(self)@.forces, force), ..old(self)@ }),
            body_ok(old(self)@) ==> body_ok(final(self)@),
    {
        self.forces = v3_add(self.forces, force);
    }

    pub fn apply_torque(&mut self, torque: Vec3)
        ensures
            final(self)@ == (BodyView { torque: v3_add_s(old(self)@.torque, torque), ..old(self)@ }),
            body_ok(old(self)@) ==> body_ok(final(self)@),
    {
        self.torque = v3_add(self.torque, torque);
    }

    pub fn set_gravity(&mut self, gravity: bool) -> (r: RigidBody)
        ensures
            final(self)@ == (BodyView { gravity, ..old(self)@ }),
            r@ == final(self)@,
            body_ok(old(self)@) ==> body_ok(final(self)@),
    {
        self.gravity = gravity;
        self.duplicate()
    }

    /// One integration step of length `dt`.
    pub fn update(&mut self, dt: i64)
        requires
            q_ok(old(self)@.rotation),
        ensures
            final(self)@ == update_s(old(self)@, dt as int),
            body_ok(old(self)@) ==> body_ok(final(self)@),
    {
        proof {
            if body_ok(old(self)@) {
                lemma_update_ok(old(self)@, dt as int);
            }
        }
        if !self.movable {
            return ;
        }
        self.acceleration = v3_div_scalar(self.forces, self.mass);
        self.velocity = v3_add(self.velocity, v3_scale(self.acceleration, dt));

        self.angular_acceleration = v3_mul_elem(self.inverse_inertia_tensor, self.torque);
        self.angular_velocity = v3_add(self.angular_velocity, v3_scale(self.angular_acceleration, dt));

        let qx = q_from_angle_x(fx_mul(self.angular_velocity.x, dt));
        let qy = q_from_angle_y(fx_mul(self.angular_velocity.y, dt));
        let qz = q_from_angle_z(fx_mul(self.angular_velocity.z, dt));
        let delta_rotation = q_mul(q_mul(qx, qy), qz);

        let new_pos = v3_add(v3_add(self.position, v3_scale(self.velocity, dt)), self.correction);
        self.set_position(new_pos);
        self.rotation = q_normalize(q_mul(delta_rotation, self.rotation));

        self.correction = v3_zero();
        self.forces = v3_zero();
        self.torque = v3_zero();
    }

    /// Rotation-induced velocity of the body surface at a contact point.
    pub fn tangential_velocity(&self, contact_point: Vec3) -> (r: Vec3)
        requires
            v3_ok(self@.angular_velocity),
        ensures
            r == tangential_velocity_s(self@, contact_point),
    {
        v3_cross(self.angular_velocity, v3_sub(contact_point, self.position))
    }

    /// Applies an opposing friction force and torque at a contact, plus
    /// velocity damping against resolution jitter.
    pub fn apply_surface_friction(
        &mut self,
        contact_normal: Vec3,
        contact_point: Vec3,
        friction_coefficient: i64,
        damping: i64,
    )
        requires
            v3_ok(old(self)@.angular_velocity),
            v3_ok(contact_normal),
        ensures
            final(self)@ == apply_surface_friction_s(
                old(self)@,
                contact_normal,
                contact_point,
                friction_coefficient as int,
                damping as int,
            ),
    {
        let rel = v3_add(self.velocity, self.tangential_velocity(contact_point));
        let tang = v3_sub(rel, v3_scale(contact_normal, v3_dot(rel, contact_normal)));
        let base = if v3_mag(tang) < FRICTION_EPS {
            v3_neg(tang)
        } else {
            v3_neg(v3_normalize(tang))
        };
        let friction_force = v3_scale(v3_scale(base, friction_coefficient), self.mass);
        self.apply_force(friction_force);
        let lever = v3_sub(contact_point, self.position);
        let t = v3_cross(lever, friction_force);
        self.apply_torque(t);
        let keep = fx_sub(SCALE, damping);
        self.velocity = v3_scale(self.velocity, keep);
        self.angular_velocity = v3_scale(self.angular_velocity, keep);
    }
}

/// Accumulates the diagonal inertia tensor of a shape list.
fn inertia_tensor_of(shapes: &Vec<CollisionBox>, mass: i64) -> (r: Vec3)
    ensures
        r == inertia_sum_s(shapes@, mass as int),
{
    let mut acc = v3_zero();
    let mut i: usize = 0;
    while i < shapes.len()
        invariant
            i <= shapes@.len(),
            acc == inertia_sum_s(shapes@.subrange(0, i as int), mass as int),
        decreases shapes@.len() - i,
    {
        let part: Vec3 = match &shapes[i] {
            CollisionBox::BoundingBox(b) => {
                let size = b.size();
                let w = size.x;
                let h = size.y;
                let d = size.z;
                Vec3 {
                    x: fx_idiv(fx_mul(mass, fx_add(fx_mul(h, h), fx_mul(d, d))), 12),
                    y: fx_idiv(fx_mul(mass, fx_add(fx_mul(w, w), fx_mul(d, d))), 12),
                    z: fx_idiv(fx_mul(mass, fx_add(fx_mul(w, w), fx_mul(h, h))), 12),
                }
            },
            CollisionBox::Sphere(s) => {
                let r2 = fx_mul(s.radius, s.radius);
                let m_r2 = fx_mul(mass, r2);
                let i_diag = fx_idiv(fx_add(m_r2, m_r2), 5);
                Vec3 { x: i_diag, y: i_diag, z: i_diag }
            },
        };
        proof {
            assert(part == shape_inertia_s(shapes@[i as int], mass as int));
        }
        acc = v3_add(acc, part);
        proof {
            assert(shapes@.subrange(0, i + 1).drop_last() =~= shapes@.subrange(0, i as int));
            assert(shapes@.subrange(0, i + 1).last() == shapes@[i as int]);
        }
        i += 1;
    }
    proof {
        assert(shapes@.subrange(0, shapes@.len() as int) =~= shapes@);
    }
    acc
}

/// Inverts a diagonal tensor, falling back to zero when singular.
fn inverse_inertia(t: Vec3) -> (r: Vec3)
    ensures
        r == inverse_inertia_s(t),
{
    if t.x == 0 || t.y == 0 || t.z == 0 {
        v3_zero()
    } else {
        Vec3 {
            x: crate::fx::fx_div(SCALE, t.x),
            y: crate::fx::fx_div(SCALE, t.y),
            z: crate::fx::fx_div(SCALE, t.z),
        }
    }
}

} // verus!
