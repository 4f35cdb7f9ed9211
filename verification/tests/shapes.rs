//! Collision shapes, shape fitting and the octree accelerator.

use rusty_gears::collision_box::BoundingBox;
use rusty_gears::collision_box::CollisionBox;
use rusty_gears::collision_box::Sphere;
use rusty_gears::collision_box::calculate_bounding_box;
use rusty_gears::collision_box::calculate_sphere;
use rusty_gears::fx::SCALE;
use rusty_gears::octree::Octree;
use rusty_gears::quat::q_one;
use rusty_gears::vec3::v3;

#[test]
fn closest_point_clamps_into_the_box() {
    let b = BoundingBox::new(v3(-SCALE, -SCALE, -SCALE), v3(SCALE, SCALE, SCALE));
    let p = b.closest_point(v3(2_000_000, 0, -3_000_000));
    assert_eq!((p.x, p.y, p.z), (SCALE, 0, -SCALE));
    let inside = b.closest_point(v3(100, 200, 300));
    assert_eq!((inside.x, inside.y, inside.z), (100, 200, 300));
}

#[test]
fn center_size_contains_intersects() {
    let b = BoundingBox::new(v3(0, 0, 0), v3(2_000_000, 4_000_000, 6_000_000));
    let c = b.center();
    assert_eq!((c.x, c.y, c.z), (1_000_000, 2_000_000, 3_000_000));
    let s = b.size();
    assert_eq!((s.x, s.y, s.z), (2_000_000, 4_000_000, 6_000_000));
    assert!(b.contains(v3(500_000, 500_000, 500_000)));
    assert!(!b.contains(v3(-1, 0, 0)));
    let other = BoundingBox::new(v3(1_000_000, 0, 0), v3(3_000_000, 1_000_000, 1_000_000));
    assert!(b.intersects(&other));
    let apart = BoundingBox::new(v3(9_000_000, 0, 0), v3(10_000_000, 1_000_000, 1_000_000));
    assert!(!b.intersects(&apart));
}

#[test]
fn rotated_points_of_identity_are_the_corners() {
    let b = BoundingBox::new(v3(-SCALE, -SCALE, -SCALE), v3(SCALE, SCALE, SCALE));
    let corners = b.rotated_points(&q_one());
    assert_eq!(corners.len(), 8);
    assert_eq!((corners[0].x, corners[0].y, corners[0].z), (-SCALE, -SCALE, -SCALE));
    assert_eq!((corners[7].x, corners[7].y, corners[7].z), (SCALE, SCALE, SCALE));
    assert_eq!((corners[1].x, corners[1].y, corners[1].z), (SCALE, -SCALE, -SCALE));
}

#[test]
fn bounding_box_fits_the_points() {
    let points = vec![
        v3(1_000_000, 2_000_000, 3_000_000),
        v3(-1_000_000, 5_000_000, 0),
        v3(0, -2_000_000, 9_000_000),
    ];
    let b = calculate_bounding_box(&points);
    assert_eq!((b.min.x, b.min.y, b.min.z), (-1_000_000, -2_000_000, 0));
    assert_eq!((b.max.x, b.max.y, b.max.z), (1_000_000, 5_000_000, 9_000_000));
}

#[test]
fn bounding_sphere_fits_the_points() {
    let points = vec![v3(1_000_000, 0, 0), v3(-1_000_000, 0, 0)];
    let s = calculate_sphere(&points);
    assert_eq!((s.center.x, s.center.y, s.center.z), (0, 0, 0));
    assert_eq!(s.radius, 1_000_000);
}

#[test]
fn sphere_constructor_keeps_its_fields() {
    let s = Sphere::new(v3(1, 2, 3), 7);
    assert_eq!((s.center.x, s.center.y, s.center.z), (1, 2, 3));
    assert_eq!(s.radius, 7);
    let shape = CollisionBox::Sphere(s);
    match shape {
        CollisionBox::Sphere(inner) => assert_eq!(inner.radius, 7),
        CollisionBox::BoundingBox(_) => panic!("expected a sphere"),
    }
}

#[test]
fn octree_accepts_only_contained_positions() {
    let bounds = BoundingBox::new(
        v3(-10_000_000, -10_000_000, -10_000_000),
        v3(10_000_000, 10_000_000, 10_000_000),
    );
    let mut tree = Octree::new(bounds, 2);
    assert!(tree.insert(0, v3(0, 0, 0)));
    assert!(tree.insert(1, v3(5_000_000, 0, 0)));
    assert!(!tree.insert(2, v3(50_000_000, 0, 0)));
}

#[test]
fn octree_subdivides_past_capacity_and_reports_by_range() {
    let bounds = BoundingBox::new(
        v3(-10_000_000, -10_000_000, -10_000_000),
        v3(10_000_000, 10_000_000, 10_000_000),
    );
    let mut tree = Octree::new(bounds, 1);
    assert!(tree.insert(7, v3(-5_000_000, -5_000_000, -5_000_000)));
    assert!(tree.insert(8, v3(5_000_000, 5_000_000, 5_000_000)));
    assert!(tree.insert(9, v3(5_000_000, -5_000_000, 5_000_000)));
    let mut found: Vec<usize> = Vec::new();
    tree.query(&bounds, &mut found);
    assert_eq!(found.len(), 3);
    assert!(found.contains(&7));
    assert!(found.contains(&8));
    assert!(found.contains(&9));
}
