//! Narrow-phase collision detection scenarios.

use rusty_gears::collision_box::BoundingBox;
use rusty_gears::collision_box::CollisionBox;
use rusty_gears::collision_box::Sphere;
use rusty_gears::collision::Collision;
use rusty_gears::fx::SCALE;
use rusty_gears::quat::q_one;
use rusty_gears::vec3::v3;

fn unit_sphere_at(x: i64, y: i64, z: i64) -> CollisionBox {
    CollisionBox::Sphere(Sphere::new(v3(x, y, z), SCALE))
}

fn unit_box_at(x: i64, y: i64, z: i64) -> CollisionBox {
    CollisionBox::BoundingBox(BoundingBox::new(
        v3(x - 500_000, y - 500_000, z - 500_000),
        v3(x + 500_000, y + 500_000, z + 500_000),
    ))
}

#[test]
fn unit_spheres_at_distance_one_and_a_half_overlap_by_half() {
    let a = unit_sphere_at(0, 0, 0);
    let b = unit_sphere_at(1_500_000, 0, 0);
    let c = Collision::detect(&a, &b, &q_one(), &q_one()).expect("spheres should touch");
    assert_eq!(c.overlap, 500_000);
    assert_eq!((c.normal.x, c.normal.y, c.normal.z), (SCALE, 0, 0));
    assert_eq!((c.contact_point.x, c.contact_point.y, c.contact_point.z), (750_000, 0, 0));
}

#[test]
fn unit_spheres_at_distance_three_miss() {
    let a = unit_sphere_at(0, 0, 0);
    let b = unit_sphere_at(3_000_000, 0, 0);
    assert!(Collision::detect(&a, &b, &q_one(), &q_one()).is_none());
}

#[test]
fn unit_boxes_separated_by_three_miss_on_every_axis() {
    let a = unit_box_at(0, 0, 0);
    for axis in 0..3 {
        let b = match axis {
            0 => unit_box_at(3_000_000, 0, 0),
            1 => unit_box_at(0, 3_000_000, 0),
            _ => unit_box_at(0, 0, 3_000_000),
        };
        assert!(Collision::detect(&a, &b, &q_one(), &q_one()).is_none());
    }
}

#[test]
fn unit_boxes_overlapping_by_half_report_that_overlap() {
    let a = unit_box_at(0, 0, 0);
    let b = unit_box_at(500_000, 0, 0);
    let c = Collision::detect(&a, &b, &q_one(), &q_one()).expect("boxes should touch");
    assert_eq!(c.overlap, 500_000);
    assert_eq!((c.normal.x, c.normal.y, c.normal.z), (SCALE, 0, 0));
}

#[test]
fn sphere_box_contact_points_from_first_shape_to_second() {
    // A unit box at the origin and a unit sphere overlapping from +x.
    let b = unit_box_at(0, 0, 0);
    let s = unit_sphere_at(1_200_000, 0, 0);
    let hit = Collision::detect(&b, &s, &q_one(), &q_one()).expect("should touch");
    assert!(hit.overlap > 0);
    // Normal points from the box toward the sphere.
    assert!(hit.normal.x > 0);
    // With the shapes swapped the normal is flipped.
    let hit2 = Collision::detect(&s, &b, &q_one(), &q_one()).expect("should touch");
    assert_eq!(hit2.overlap, hit.overlap);
    assert_eq!(hit2.normal.x, -hit.normal.x);
}

#[test]
fn detected_collisions_have_positive_overlap() {
    let a = unit_sphere_at(0, 0, 0);
    let close = unit_sphere_at(100_000, 50_000, 0);
    let c = Collision::detect(&a, &close, &q_one(), &q_one()).expect("deep overlap");
    assert!(c.overlap > 0);
}
