//! Body integration and world simulation scenarios.

use rusty_gears::body::RigidBody;
use rusty_gears::collision_box::CollisionBox;
use rusty_gears::collision_box::Sphere;
use rusty_gears::fx::SCALE;
use rusty_gears::gameloop::GameLoop;
use rusty_gears::vec3::v3;
use rusty_gears::world::PhysicsWorld;

fn sphere_body(x: i64, y: i64, z: i64, radius: i64) -> RigidBody {
    let mut shapes: Vec<CollisionBox> = Vec::new();
    shapes.push(CollisionBox::Sphere(Sphere::new(v3(x, y, z), radius)));
    RigidBody::new(shapes)
}

#[test]
fn new_body_defaults() {
    let b = RigidBody::new(Vec::new());
    assert_eq!(b.mass, SCALE);
    assert!(b.movable);
    assert!(b.gravity);
    assert_eq!(b.bounciness, 500_000);
    assert_eq!(b.friction_coefficient, SCALE);
    assert_eq!((b.position.x, b.position.y, b.position.z), (0, 0, 0));
    // An empty shape list leaves a singular tensor, inverted to zero.
    assert_eq!((b.inverse_inertia_tensor.x, b.inverse_inertia_tensor.y), (0, 0));
}

#[test]
fn sphere_inertia_is_two_fifths_mass_radius_squared() {
    let b = sphere_body(0, 0, 0, SCALE);
    assert_eq!(b.inertia_tensor.x, 400_000);
    assert_eq!(b.inertia_tensor.y, 400_000);
    assert_eq!(b.inertia_tensor.z, 400_000);
    assert_eq!(b.inverse_inertia_tensor.x, 2_500_000);
}

#[test]
fn bounciness_and_friction_are_clamped() {
    let mut b = RigidBody::new(Vec::new());
    b.set_bounciness(2_000_000);
    assert_eq!(b.bounciness, SCALE);
    b.set_bounciness(-5);
    assert_eq!(b.bounciness, 0);
    b.set_bounciness(123_456);
    assert_eq!(b.bounciness, 123_456);
    b.set_friction_coefficient(-1);
    assert_eq!(b.friction_coefficient, 0);
    b.set_friction_coefficient(300_000);
    assert_eq!(b.friction_coefficient, 300_000);
}

#[test]
fn forces_accumulate_until_the_step() {
    let mut b = RigidBody::new(Vec::new());
    b.apply_force(v3(1_000_000, 0, 0));
    b.apply_force(v3(500_000, 200, 0));
    assert_eq!((b.forces.x, b.forces.y), (1_500_000, 200));
    b.apply_torque(v3(0, 0, 700));
    assert_eq!(b.torque.z, 700);
    // One step of 0.5 s: velocity = F/m * dt = 1.5 * 0.5 = 0.75.
    b.update(500_000);
    assert_eq!(b.velocity.x, 750_000);
    // Accumulators reset afterwards.
    assert_eq!((b.forces.x, b.forces.y, b.forces.z), (0, 0, 0));
    assert_eq!((b.torque.x, b.torque.y, b.torque.z), (0, 0, 0));
}

#[test]
fn set_position_moves_the_shapes_along() {
    let mut b = sphere_body(0, 0, 0, SCALE);
    b.set_position(v3(2_000_000, -1_000_000, 0));
    match b.collision_box[0] {
        CollisionBox::Sphere(s) => {
            assert_eq!((s.center.x, s.center.y, s.center.z), (2_000_000, -1_000_000, 0));
        },
        CollisionBox::BoundingBox(_) => panic!("expected a sphere"),
    }
}

#[test]
fn immovable_bodies_never_move() {
    // Two overlapping static spheres: update leaves both untouched.
    let mut world = PhysicsWorld::new(v3(0, -10_000_000, 0));
    let mut a = sphere_body(0, 0, 0, SCALE);
    a.movable = false;
    let mut b = sphere_body(1_000_000, 0, 0, SCALE);
    b.movable = false;
    world.add_body(a);
    world.add_body(b);
    world.update(5_000);
    assert_eq!(world.body_count(), 2);
    for i in 0..2 {
        let body = world.body(i);
        assert_eq!((body.velocity.x, body.velocity.y, body.velocity.z), (0, 0, 0));
        assert_eq!(body.position.y, 0);
    }
    assert_eq!(world.body(0).position.x, 0);
    assert_eq!(world.body(1).position.x, 0);
}

#[test]
fn free_fall_gains_one_gravity_increment_per_substep() {
    // Gravity -10 units/s^2, sub-step 0.001 s, three sub-steps:
    // velocity == 3 * (-10 * 0.001) == -0.03.
    let mut world = PhysicsWorld::new(v3(0, -10_000_000, 0));
    world.add_body(RigidBody::new(Vec::new()));
    world.update(3_000);
    assert_eq!(world.body_count(), 1);
    let b = world.body(0);
    assert_eq!((b.velocity.x, b.velocity.y, b.velocity.z), (0, -30_000, 0));
    // Symplectic Euler: each sub-step moves by the updated velocity.
    assert_eq!(b.position.y, -60);
}

#[test]
fn restitution_one_rebounds_at_the_approach_speed() {
    // A sphere hits an immovable one head-on at 2.0 units/s with
    // restitution 1: the immovable body acts as infinite mass, so the
    // approach velocity is exactly negated, then damped by one sub-step
    // factor (0.999).
    let mut world = PhysicsWorld::new(v3(0, 0, 0));
    let mut a = sphere_body(0, 0, 0, 500_000);
    a.velocity = v3(0, 2_000_000, 0);
    a.set_bounciness(1_000_000);
    a.gravity = false;
    let mut b = sphere_body(0, 900_000, 0, 500_000);
    b.movable = false;
    b.set_bounciness(1_000_000);
    world.add_body(a);
    world.add_body(b);
    world.update(1_000);
    let hit = world.body(0);
    assert_eq!((hit.velocity.x, hit.velocity.y, hit.velocity.z), (0, -1_998_000, 0));
    // The immovable body never reacts.
    let wall = world.body(1);
    assert_eq!((wall.velocity.x, wall.velocity.y, wall.velocity.z), (0, 0, 0));
    assert_eq!(wall.position.y, 0);
}

#[test]
fn restitution_zero_absorbs_the_normal_speed() {
    // A perfectly inelastic head-on impact against an immovable body
    // leaves exactly zero velocity along the normal.
    let mut world = PhysicsWorld::new(v3(0, 0, 0));
    let mut a = sphere_body(0, 0, 0, 500_000);
    a.velocity = v3(0, 2_000_000, 0);
    a.set_bounciness(0);
    a.gravity = false;
    let mut b = sphere_body(0, 900_000, 0, 500_000);
    b.movable = false;
    b.set_bounciness(0);
    world.add_body(a);
    world.add_body(b);
    world.update(1_000);
    let hit = world.body(0);
    assert_eq!((hit.velocity.x, hit.velocity.y, hit.velocity.z), (0, 0, 0));
}

#[test]
fn bodies_beyond_the_world_bound_are_evicted() {
    let mut world = PhysicsWorld::new(v3(0, 0, 0));
    world.add_body(RigidBody::new(Vec::new()));
    let mut far = RigidBody::new(Vec::new());
    far.set_position(v3(1_500_000_000, 0, 0));
    world.add_body(far);
    world.update(1_000);
    assert_eq!(world.body_count(), 1);
    assert_eq!(world.body(0).position.x, 0);
}

#[test]
fn zero_elapsed_time_changes_nothing() {
    let mut world = PhysicsWorld::new(v3(0, -10_000_000, 0));
    let mut a = sphere_body(0, 0, 0, SCALE);
    a.velocity = v3(7, 8, 9);
    let mut b = sphere_body(5_000_000, 0, 0, SCALE);
    b.movable = false;
    world.add_body(a);
    world.add_body(b);
    world.update(0);
    assert_eq!(world.body_count(), 2);
    let first = world.body(0);
    assert_eq!((first.velocity.x, first.velocity.y, first.velocity.z), (7, 8, 9));
    assert_eq!((first.position.x, first.position.y, first.position.z), (0, 0, 0));
    assert_eq!(first.rotation.w, SCALE);
    let second = world.body(1);
    assert_eq!(second.position.x, 0);
    assert!(!second.movable);
}

#[test]
fn external_forces_reach_a_body_between_updates() {
    let mut world = PhysicsWorld::new(v3(0, 0, 0));
    world.add_body(RigidBody::new(Vec::new()));
    world.apply_body_force(0, v3(2_000_000, 0, 0));
    world.update(1_000);
    // One sub-step of 0.001 s with F/m = 2.0: velocity 0.002.
    assert_eq!(world.body(0).velocity.x, 2_000);
}

#[test]
fn refresh_frequency_sets_the_substep() {
    let mut world = PhysicsWorld::new(v3(0, 0, 0));
    world.set_refresh_frequency(500_000_000);
    // 1 / 500 s == 0.002.
    assert_eq!(world.delta_time, 2_000);
}

#[test]
fn the_game_loop_schedules_whole_substeps() {
    let frames = GameLoop::new();
    assert_eq!(frames.substeps(3_000, 1_000), 3);
    assert_eq!(frames.substeps(2_500, 1_000), 3);
    assert_eq!(frames.substeps(0, 1_000), 0);
    assert_eq!(frames.substeps(-5, 1_000), 0);
}

#[test]
fn bodies_built_from_vertices_carry_fitted_shapes() {
    let points = vec![v3(1_000_000, 0, 0), v3(-1_000_000, 0, 0)];
    let single = RigidBody::with_single_sphere(&points);
    assert_eq!(single.collision_box.len(), 1);
    match single.collision_box[0] {
        CollisionBox::Sphere(s) => assert_eq!(s.radius, 1_000_000),
        CollisionBox::BoundingBox(_) => panic!("expected a sphere"),
    }
    let boxed = RigidBody::with_single_bbox(&points);
    match boxed.collision_box[0] {
        CollisionBox::BoundingBox(b) => {
            assert_eq!(b.min.x, -1_000_000);
            assert_eq!(b.max.x, 1_000_000);
        },
        CollisionBox::Sphere(_) => panic!("expected a box"),
    }
    let meshes = vec![points.clone(), vec![v3(0, 2_000_000, 0)]];
    let per_mesh = RigidBody::with_spheres(&meshes);
    assert_eq!(per_mesh.collision_box.len(), 2);
    let per_mesh_boxes = RigidBody::with_bboxes(&meshes);
    assert_eq!(per_mesh_boxes.collision_box.len(), 2);
}

#[test]
fn frame_clock_smooths_and_counts() {
    let mut clock = rusty_gears::time::Time::new();
    assert_eq!(clock.delta_time(), 0);
    assert_eq!(clock.fps(), 0);
    // Ten frames of 0.1 s: smoothed delta reaches 0.1 exactly.
    for _ in 0..10 {
        clock.update(100_000);
    }
    assert_eq!(clock.delta_time(), 100_000);
    // One full second accumulated: ten frames in that second.
    assert_eq!(clock.fps(), 10);
    assert_eq!(clock.total_time(), 0);
    // One faster frame mixes into the average: (9 * 0.1 + 0.05) / 10.
    clock.update(50_000);
    assert_eq!(clock.delta_time(), 95_000);
    assert_eq!(clock.total_time(), 50_000);
}
