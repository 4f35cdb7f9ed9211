//! Narrow-phase collision detection, dispatched on the shape pair:
//! sphere-sphere directly, box-box by the separating-axis test over the six
//! face normals and nine axis cross products, and sphere-box by the
//! separating-axis test over the box axes and their cross products with the
//! center difference.
//!
//! The reported contact normal always points from the first shape toward
//! the second; a detected collision always has positive overlap.

use vstd::prelude::*;
use crate::collision_box::BoundingBox;
use crate::collision_box::CollisionBox;
use crate::collision_box::Sphere;
use crate::collision_box::bbox_center_s;
use crate::collision_box::closest_point_s;
use crate::collision_box::rotated_point_s;
use crate::fx::FX_HALF;
use crate::fx::FX_MAX;
use crate::fx::fx_abs;
use crate::fx::fx_abs_s;
use crate::fx::fx_add;
use crate::fx::fx_add_s;
use crate::fx::fx_mul;
use crate::fx::fx_mul_s;
use crate::fx::fx_sub;
use crate::fx::fx_sub_s;
use crate::quat::Quat;
use crate::quat::q_axis_x;
use crate::quat::q_axis_x_s;
use crate::quat::q_axis_y;
use crate::quat::q_axis_y_s;
use crate::quat::q_axis_z;
use crate::quat::q_axis_z_s;
use crate::vec3::Vec3;
use crate::vec3::v3_add;
use crate::vec3::v3_add_s;
use crate::vec3::v3_cross;
use crate::vec3::v3_cross_s;
use crate::vec3::v3_dot;
use crate::vec3::v3_dot_s;
use crate::vec3::v3_mag;
use crate::vec3::v3_mag2;
use crate::vec3::v3_mag2_s;
use crate::vec3::v3_mag_s;
use crate::vec3::v3_neg;
use crate::vec3::v3_neg_s;
use crate::vec3::v3_normalize;
use crate::vec3::v3_normalize_s;
use crate::vec3::v3_ok;
use crate::vec3::v3_scale;
use crate::vec3::v3_scale_s;
use crate::vec3::v3_sub;
use crate::vec3::v3_sub_s;
use crate::vec3::v3_zero;
use crate::vec3::v3_zero_s;

verus! {

/// Candidate separating axes whose squared length falls below this
/// threshold (1e-6 in real units) are skipped as numerically degenerate.
pub const AXIS_EPS: i64 = 1;

#[derive(Clone, Copy, PartialEq, Eq, Structural, Debug)]
pub struct Collision {
    /// Unit contact normal, pointing from the first shape toward the
    /// second.
    pub normal: Vec3,
    /// Penetration depth; always positive for a reported collision.
    pub overlap: i64,
    /// Estimated world-space contact point.
    pub contact_point: Vec3,
}

/// Sphere-sphere: the overlap is the radius sum minus the center distance;
/// the normal points from the first center to the second and the contact
/// point is the center midpoint.
pub open spec fn sphere_sphere_s(a: Sphere, b: Sphere) -> Option<Collision> {
    let center_distance = v3_mag_s(v3_sub_s(a.center, b.center));
    let overlap = fx_sub_s(fx_add_s(a.radius as int, b.radius as int), center_distance);
    if overlap > 0 {
        Some(
            Collision {
                normal: v3_normalize_s(v3_sub_s(b.center, a.center)),
                overlap: overlap as i64,
                contact_point: v3_scale_s(v3_add_s(a.center, b.center), FX_HALF as int),
            },
        )
    } else {
        None
    }
}

/// Everything the box-box axis test reads: both boxes' half extents and
/// rotated axes, and the center difference.
pub struct BoxPair {
    pub half_a: Vec3,
    pub half_b: Vec3,
    pub ax_a: Vec3,
    pub ay_a: Vec3,
    pub az_a: Vec3,
    pub ax_b: Vec3,
    pub ay_b: Vec3,
    pub az_b: Vec3,
    pub diff: Vec3,
}

pub open spec fn box_pair_s(a: BoundingBox, b: BoundingBox, ra: Quat, rb: Quat) -> BoxPair {
    BoxPair {
        half_a: crate::collision_box::bbox_half_s(a),
        half_b: crate::collision_box::bbox_half_s(b),
        ax_a: q_axis_x_s(ra),
        ay_a: q_axis_y_s(ra),
        az_a: q_axis_z_s(ra),
        ax_b: q_axis_x_s(rb),
        ay_b: q_axis_y_s(rb),
        az_b: q_axis_z_s(rb),
        diff: v3_sub_s(bbox_center_s(b), bbox_center_s(a)),
    }
}

/// Projection radius of a box onto a unit axis: the half extents weighted
/// by the absolute axis alignments.
pub open spec fn box_projection_s(half: Vec3, ax: Vec3, ay: Vec3, az: Vec3, axis: Vec3) -> int {
    fx_add_s(
        fx_add_s(
            fx_mul_s(half.x as int, fx_abs_s(v3_dot_s(ax, axis))),
            fx_mul_s(half.y as int, fx_abs_s(v3_dot_s(ay, axis))),
        ),
        fx_mul_s(half.z as int, fx_abs_s(v3_dot_s(az, axis))),
    )
}

/// Overlap of the two boxes' projections on a unit axis; nonpositive means
/// the axis separates them.
pub open spec fn bb_overlap_on_s(p: BoxPair, axis: Vec3) -> int {
    fx_sub_s(
        fx_add_s(
            box_projection_s(p.half_a, p.ax_a, p.ay_a, p.az_a, axis),
            box_projection_s(p.half_b, p.ax_b, p.ay_b, p.az_b, axis),
        ),
        fx_abs_s(v3_dot_s(p.diff, axis)),
    )
}

/// The fifteen candidate axes of the box-box test: both boxes' face
/// normals and the nine pairwise cross products.
pub open spec fn box_axes_s(ra: Quat, rb: Quat) -> Seq<Vec3> {
    let ax = q_axis_x_s(ra);
    let ay = q_axis_y_s(ra);
    let az = q_axis_z_s(ra);
    let bx = q_axis_x_s(rb);
    let by = q_axis_y_s(rb);
    let bz = q_axis_z_s(rb);
    seq![
        ax,
        ay,
        az,
        bx,
        by,
        bz,
        v3_cross_s(ax, bx),
        v3_cross_s(ax, by),
        v3_cross_s(ax, bz),
        v3_cross_s(ay, bx),
        v3_cross_s(ay, by),
        v3_cross_s(ay, bz),
        v3_cross_s(az, bx),
        v3_cross_s(az, by),
        v3_cross_s(az, bz),
    ]
}

/// Scan of the candidate axes from index `i` on, carrying the smallest
/// overlap seen and its normalized axis; `None` as soon as an axis
/// separates the boxes.  Degenerate axes are skipped.
pub open spec fn bb_scan_s(
    p: BoxPair,
    axes: Seq<Vec3>,
    i: int,
    min_overlap: int,
    normal: Vec3,
) -> Option<(int, Vec3)>
    decreases axes.len() - i,
{
    if i < 0 || i >= axes.len() {
        Some((min_overlap, normal))
    } else {
        let axis = axes[i];
        if v3_mag2_s(axis) < AXIS_EPS {
            bb_scan_s(p, axes, i + 1, min_overlap, normal)
        } else {
            let axis_n = v3_normalize_s(axis);
            let overlap = bb_overlap_on_s(p, axis_n);
            if overlap <= 0 {
                None
            } else if overlap < min_overlap {
                bb_scan_s(p, axes, i + 1, overlap, axis_n)
            } else {
                bb_scan_s(p, axes, i + 1, min_overlap, normal)
            }
        }
    }
}

/// Scan of the rotated corners of `source` (from corner `i` on) against
/// the closest points on `target`, keeping the closest pair seen.
pub open spec fn corner_scan_s(
    source: BoundingBox,
    source_rot: Quat,
    target: BoundingBox,
    i: int,
    best_d: int,
    best_p: Vec3,
) -> (int, Vec3)
    decreases 8 - i,
{
    if i < 0 || i >= 8 {
        (best_d, best_p)
    } else {
        let corner = rotated_point_s(source, source_rot, i);
        let on_target = closest_point_s(target, corner);
        let d = v3_mag_s(v3_sub_s(corner, on_target));
        if d < best_d {
            corner_scan_s(source, source_rot, target, i + 1, d, on_target)
        } else {
            corner_scan_s(source, source_rot, target, i + 1, best_d, best_p)
        }
    }
}

/// Box-box separating-axis test.  `None` exactly when some valid axis
/// separates the projections; otherwise the axis of minimum overlap (first
/// such axis in enumeration order), sign-corrected to point from the first
/// box toward the second, with the contact point approximated by the
/// closest corner-to-box pair over both boxes' corners.
pub open spec fn box_box_s(a: BoundingBox, b: BoundingBox, ra: Quat, rb: Quat) -> Option<
    Collision,
> {
    let p = box_pair_s(a, b, ra, rb);
    match bb_scan_s(p, box_axes_s(ra, rb), 0, i64::MAX as int, v3_zero_s()) {
        Option::None => Option::None,
        Option::Some(best) => {
            let normal = if v3_dot_s(p.diff, best.1) < 0 {
                v3_neg_s(best.1)
            } else {
                best.1
            };
            let scan_a = corner_scan_s(a, ra, b, 0, FX_MAX as int + 1, v3_zero_s());
            let scan_b = corner_scan_s(b, rb, a, 0, scan_a.0, scan_a.1);
            Option::Some(
                Collision { normal, overlap: best.0 as i64, contact_point: scan_b.1 },
            )
        },
    }
}

/// The six candidate axes of the sphere-box test: the box's face normals
/// and their cross products with the center difference.
pub open spec fn sphere_box_axes_s(rb: Quat, diff: Vec3) -> Seq<Vec3> {
    let bx = q_axis_x_s(rb);
    let by = q_axis_y_s(rb);
    let bz = q_axis_z_s(rb);
    seq![
        bx,
        by,
        bz,
        v3_cross_s(bx, diff),
        v3_cross_s(by, diff),
        v3_cross_s(bz, diff),
    ]
}

/// Everything the sphere-box axis test reads.
pub struct SphereBoxPair {
    pub half: Vec3,
    pub ax: Vec3,
    pub ay: Vec3,
    pub az: Vec3,
    pub radius: i64,
    pub diff: Vec3,
}

pub open spec fn sphere_box_pair_s(bx: BoundingBox, s: Sphere, rb: Quat) -> SphereBoxPair {
    SphereBoxPair {
        half: crate::collision_box::bbox_half_s(bx),
        ax: q_axis_x_s(rb),
        ay: q_axis_y_s(rb),
        az: q_axis_z_s(rb),
        radius: s.radius,
        diff: v3_sub_s(s.center, bbox_center_s(bx)),
    }
}

/// Overlap of the box projection and the sphere radius on a unit axis.
pub open spec fn sb_overlap_on_s(p: SphereBoxPair, axis: Vec3) -> int {
    fx_sub_s(
        fx_add_s(box_projection_s(p.half, p.ax, p.ay, p.az, axis), p.radius as int),
        fx_abs_s(v3_dot_s(p.diff, axis)),
    )
}

/// Axis scan of the sphere-box test, as in `bb_scan_s`.
pub open spec fn sb_scan_s(
    p: SphereBoxPair,
    axes: Seq<Vec3>,
    i: int,
    min_overlap: int,
    normal: Vec3,
) -> Option<(int, Vec3)>
    decreases axes.len() - i,
{
    if i < 0 || i >= axes.len() {
        Some((min_overlap, normal))
    } else {
        let axis = axes[i];
        if v3_mag2_s(axis) < AXIS_EPS {
            sb_scan_s(p, axes, i + 1, min_overlap, normal)
        } else {
            let axis_n = v3_normalize_s(axis);
            let overlap = sb_overlap_on_s(p, axis_n);
            if overlap <= 0 {
                None
            } else if overlap < min_overlap {
                sb_scan_s(p, axes, i + 1, overlap, axis_n)
            } else {
                sb_scan_s(p, axes, i + 1, min_overlap, normal)
            }
        }
    }
}

/// Sphere-box separating-axis test, with the normal pointing from the box
/// toward the sphere and the contact point on the sphere surface along the
/// negated normal.
pub open spec fn sphere_box_s(bx: BoundingBox, s: Sphere, rb: Quat) -> Option<Collision> {
    let p = sphere_box_pair_s(bx, s, rb);
    match sb_scan_s(p, sphere_box_axes_s(rb, p.diff), 0, i64::MAX as int, v3_zero_s()) {
        Option::None => Option::None,
        Option::Some(best) => {
            let normal = if v3_dot_s(p.diff, best.1) < 0 {
                v3_neg_s(best.1)
            } else {
                best.1
            };
            Option::Some(
                Collision {
                    normal,
                    overlap: best.0 as i64,
                    contact_point: v3_sub_s(s.center, v3_scale_s(normal, s.radius as int)),
                },
            )
        },
    }
}

/// A collision with its normal reversed (used to keep the normal pointing
/// from the first shape toward the second).
pub open spec fn flip_normal_s(o: Option<Collision>) -> Option<Collision> {
    match o {
        Option::None => Option::None,
        Option::Some(c) => Option::Some(Collision { normal: v3_neg_s(c.normal), ..c }),
    }
}

/// Narrow-phase dispatch on the shape pair.
#[verifier::opaque]
pub open spec fn detect_s(
    shape_a: CollisionBox,
    shape_b: CollisionBox,
    rotation_a: Quat,
    rotation_b: Quat,
) -> Option<Collision> {
    match (shape_a, shape_b) {
        (CollisionBox::Sphere(sa), CollisionBox::Sphere(sb)) => sphere_sphere_s(sa, sb),
        (CollisionBox::BoundingBox(ba), CollisionBox::BoundingBox(bb)) => box_box_s(
            ba,
            bb,
            rotation_a,
            rotation_b,
        ),
        (CollisionBox::Sphere(s), CollisionBox::BoundingBox(bx)) => flip_normal_s(
            sphere_box_s(bx, s, rotation_b),
        ),
        (CollisionBox::BoundingBox(bx), CollisionBox::Sphere(s)) => sphere_box_s(
            bx,
            s,
            rotation_a,
        ),
    }
}

impl Collision {
    /// Tests two shapes under their owners' rotations; `None` means no
    /// contact.
    pub fn detect(
        shape_a: &CollisionBox,
        shape_b: &CollisionBox,
        rotation_a: &Quat,
        rotation_b: &Quat,
    ) -> (r: Option<Collision>)
        ensures
            r == detect_s(*shape_a, *shape_b, *rotation_a, *rotation_b),
            r matches Some(c) ==> v3_ok(c.normal),
    {
        proof {
            reveal(detect_s);
        }
        match (shape_a, shape_b) {
            (CollisionBox::Sphere(sa), CollisionBox::Sphere(sb)) => sphere_sphere(sa, sb),
            (CollisionBox::BoundingBox(ba), CollisionBox::BoundingBox(bb)) => box_box(
                ba,
                bb,
                rotation_a,
                rotation_b,
            ),
            (CollisionBox::Sphere(s), CollisionBox::BoundingBox(bx)) => {
                match sphere_box(bx, s, rotation_b) {
                    Option::None => Option::None,
                    Option::Some(c) => Option::Some(
                        Collision {
                            normal: v3_neg(c.normal),
                            overlap: c.overlap,
                            contact_point: c.contact_point,
                        },
                    ),
                }
            },
            (CollisionBox::BoundingBox(bx), CollisionBox::Sphere(s)) => sphere_box(
                bx,
                s,
                rotation_a,
            ),
        }
    }
}

fn sphere_sphere(sphere_a: &Sphere, sphere_b: &Sphere) -> (r: Option<Collision>)
    ensures
        r == sphere_sphere_s(*sphere_a, *sphere_b),
        r matches Some(c) ==> v3_ok(c.normal),
{
    let center_distance = v3_mag(v3_sub(sphere_a.center, sphere_b.center));
    let overlap = fx_sub(fx_add(sphere_a.radius, sphere_b.radius), center_distance);
    if overlap > 0 {
        Some(
            Collision {
                normal: v3_normalize(v3_sub(sphere_b.center, sphere_a.center)),
                overlap,
                contact_point: v3_scale(v3_add(sphere_a.center, sphere_b.center), FX_HALF),
            },
        )
    } else {
        None
    }
}

/// Projection radius of a box onto a unit axis.
fn box_projection(half: Vec3, ax: Vec3, ay: Vec3, az: Vec3, axis: Vec3) -> (r: i64)
    requires
        v3_ok(ax),
        v3_ok(ay),
        v3_ok(az),
        v3_ok(axis),
    ensures
        r as int == box_projection_s(half, ax, ay, az, axis),
{
    fx_add(
        fx_add(
            fx_mul(half.x, fx_abs(v3_dot(ax, axis))),
            fx_mul(half.y, fx_abs(v3_dot(ay, axis))),
        ),
        fx_mul(half.z, fx_abs(v3_dot(az, axis))),
    )
}

/// Runs the box-box axis scan over the prepared axis list.
fn bb_axis_scan(
    axes: &Vec<Vec3>,
    half_a: Vec3,
    ax_a: Vec3,
    ay_a: Vec3,
    az_a: Vec3,
    half_b: Vec3,
    ax_b: Vec3,
    ay_b: Vec3,
    az_b: Vec3,
    diff: Vec3,
    Ghost(pair): Ghost<BoxPair>,
) -> (r: Option<(i64, Vec3)>)
    requires
        pair == (BoxPair { half_a, ax_a, ay_a, az_a, half_b, ax_b, ay_b, az_b, diff }),
        v3_ok(ax_a) && v3_ok(ay_a) && v3_ok(az_a),
        v3_ok(ax_b) && v3_ok(ay_b) && v3_ok(az_b),
        v3_ok(diff),
        forall|k: int| 0 <= k < axes@.len() ==> v3_ok(#[trigger] axes@[k]),
    ensures
        ({
            let scan = bb_scan_s(pair, axes@, 0, i64::MAX as int, v3_zero_s());
            match r {
                Option::None => scan is None,
                Option::Some(p) => scan == Some((p.0 as int, p.1)) && v3_ok(p.1),
            }
        }),
{
    let mut min_overlap: i64 = i64::MAX;
    let mut normal: Vec3 = v3_zero();
    let mut i: usize = 0;
    while i < axes.len()
        invariant
            i <= axes@.len(),
            v3_ok(normal),
            pair == (BoxPair { half_a, ax_a, ay_a, az_a, half_b, ax_b, ay_b, az_b, diff }),
            v3_ok(ax_a) && v3_ok(ay_a) && v3_ok(az_a),
            v3_ok(ax_b) && v3_ok(ay_b) && v3_ok(az_b),
            v3_ok(diff),
            forall|k: int| 0 <= k < axes@.len() ==> v3_ok(#[trigger] axes@[k]),
            bb_scan_s(pair, axes@, 0, i64::MAX as int, v3_zero_s()) == bb_scan_s(
                pair,
                axes@,
                i as int,
                min_overlap as int,
                normal,
            ),
        decreases axes@.len() - i,
    {
        let axis = axes[i];
        if v3_mag2(axis) < AXIS_EPS {
            i += 1;
            continue ;
        }
        let axis_n = v3_normalize(axis);
        let projection_a = box_projection(half_a, ax_a, ay_a, az_a, axis_n);
        let projection_b = box_projection(half_b, ax_b, ay_b, az_b, axis_n);
        let distance = fx_abs(v3_dot(diff, axis_n));
        let overlap = fx_sub(fx_add(projection_a, projection_b), distance);
        proof {
            assert(overlap as int == bb_overlap_on_s(pair, axis_n));
        }
        if overlap <= 0 {
            return None;
        }
        if overlap < min_overlap {
            min_overlap = overlap;
            normal = axis_n;
        }
        i += 1;
    }
    Some((min_overlap, normal))
}

/// Scans the rotated corners of `source` against the closest points on
/// `target`, improving on a previous best pair.
fn closest_corner_scan(
    source: &BoundingBox,
    source_rot: &Quat,
    target: &BoundingBox,
    d0: i64,
    p0: Vec3,
) -> (r: (i64, Vec3))
    ensures
        (r.0 as int, r.1) == corner_scan_s(*source, *source_rot, *target, 0, d0 as int, p0),
{
    let corners = source.rotated_points(source_rot);
    let mut best_d: i64 = d0;
    let mut best_p: Vec3 = p0;
    let mut k: usize = 0;
    while k < 8
        invariant
            k <= 8,
            corners@.len() == 8,
            forall|j: int|
                0 <= j < 8 ==> corners@[j] == rotated_point_s(*source, *source_rot, j),
            corner_scan_s(*source, *source_rot, *target, k as int, best_d as int, best_p)
                == corner_scan_s(*source, *source_rot, *target, 0, d0 as int, p0),
        decreases 8 - k,
    {
        let corner = corners[k];
        let on_target = target.closest_point(corner);
        let dist = v3_mag(v3_sub(corner, on_target));
        if dist < best_d {
            best_d = dist;
            best_p = on_target;
        }
        k += 1;
    }
    (best_d, best_p)
}

#[verifier::rlimit(100)]
#[verifier::spinoff_prover]
fn box_box(
    box_a: &BoundingBox,
    box_b: &BoundingBox,
    rotation_a: &Quat,
    rotation_b: &Quat,
) -> (r: Option<Collision>)
    ensures
        r == box_box_s(*box_a, *box_b, *rotation_a, *rotation_b),
        r matches Some(c) ==> v3_ok(c.normal),
{
    let ax_a = q_axis_x(*rotation_a);
    let ay_a = q_axis_y(*rotation_a);
    let az_a = q_axis_z(*rotation_a);
    let ax_b = q_axis_x(*rotation_b);
    let ay_b = q_axis_y(*rotation_b);
    let az_b = q_axis_z(*rotation_b);

    let size_a = box_a.size();
    let half_a = Vec3 {
        x: crate::fx::fx_idiv(size_a.x, 2),
        y: crate::fx::fx_idiv(size_a.y, 2),
        z: crate::fx::fx_idiv(size_a.z, 2),
    };
    let size_b = box_b.size();
    let half_b = Vec3 {
        x: crate::fx::fx_idiv(size_b.x, 2),
        y: crate::fx::fx_idiv(size_b.y, 2),
        z: crate::fx::fx_idiv(size_b.z, 2),
    };
    let diff = v3_sub(box_b.center(), box_a.center());
    let ghost pair = box_pair_s(*box_a, *box_b, *rotation_a, *rotation_b);
    proof {
        assert(pair == (BoxPair { half_a, ax_a, ay_a, az_a, half_b, ax_b, ay_b, az_b, diff }));
    }

    let mut axes: Vec<Vec3> = Vec::new();
    axes.push(ax_a);
    axes.push(ay_a);
    axes.push(az_a);
    axes.push(ax_b);
    axes.push(ay_b);
    axes.push(az_b);
    axes.push(v3_cross(ax_a, ax_b));
    axes.push(v3_cross(ax_a, ay_b));
    axes.push(v3_cross(ax_a, az_b));
    axes.push(v3_cross(ay_a, ax_b));
    axes.push(v3_cross(ay_a, ay_b));
    axes.push(v3_cross(ay_a, az_b));
    axes.push(v3_cross(az_a, ax_b));
    axes.push(v3_cross(az_a, ay_b));
    axes.push(v3_cross(az_a, az_b));
    proof {
        assert(axes@ =~= box_axes_s(*rotation_a, *rotation_b));
    }

    let scanned = bb_axis_scan(
        &axes,
        half_a,
        ax_a,
        ay_a,
        az_a,
        half_b,
        ax_b,
        ay_b,
        az_b,
        diff,
        Ghost(pair),
    );
    match scanned {
        Option::None => Option::None,
        Option::Some(best) => {
            let (min_overlap, normal) = best;
            let d = v3_dot(diff, normal);
            let normal_corrected = if d < 0 {
                v3_neg(normal)
            } else {
                normal
            };
            // The initial best distance is one past the representable band,
            // so the first real corner distance always wins the strict
            // comparison.
            let first = closest_corner_scan(box_a, rotation_a, box_b, FX_MAX + 1, v3_zero());
            let second = closest_corner_scan(box_b, rotation_b, box_a, first.0, first.1);
            Option::Some(
                Collision {
                    normal: normal_corrected,
                    overlap: min_overlap,
                    contact_point: second.1,
                },
            )
        },
    }
}

/// Runs the sphere-box axis scan over the prepared axis list.
fn sb_axis_scan(
    axes: &Vec<Vec3>,
    half: Vec3,
    ax: Vec3,
    ay: Vec3,
    az: Vec3,
    radius: i64,
    diff: Vec3,
    Ghost(pair): Ghost<SphereBoxPair>,
) -> (r: Option<(i64, Vec3)>)
    requires
        pair == (SphereBoxPair { half, ax, ay, az, radius, diff }),
        v3_ok(ax) && v3_ok(ay) && v3_ok(az),
        v3_ok(diff),
        forall|k: int| 0 <= k < axes@.len() ==> v3_ok(#[trigger] axes@[k]),
    ensures
        ({
            let scan = sb_scan_s(pair, axes@, 0, i64::MAX as int, v3_zero_s());
            match r {
                Option::None => scan is None,
                Option::Some(p) => scan == Some((p.0 as int, p.1)) && v3_ok(p.1),
            }
        }),
{
    let mut min_overlap: i64 = i64::MAX;
    let mut normal: Vec3 = v3_zero();
    let mut i: usize = 0;
    while i < axes.len()
        invariant
            i <= axes@.len(),
            v3_ok(normal),
            pair == (SphereBoxPair { half, ax, ay, az, radius, diff }),
            v3_ok(ax) && v3_ok(ay) && v3_ok(az),
            v3_ok(diff),
            forall|k: int| 0 <= k < axes@.len() ==> v3_ok(#[trigger] axes@[k]),
            sb_scan_s(pair, axes@, 0, i64::MAX as int, v3_zero_s()) == sb_scan_s(
                pair,
                axes@,
                i as int,
                min_overlap as int,
                normal,
            ),
        decreases axes@.len() - i,
    {
        let axis = axes[i];
        if v3_mag2(axis) < AXIS_EPS {
            i += 1;
            continue ;
        }
        let axis_n = v3_normalize(axis);
        let projection_box = box_projection(half, ax, ay, az, axis_n);
        let distance = fx_abs(v3_dot(diff, axis_n));
        let overlap = fx_sub(fx_add(projection_box, radius), distance);
        proof {
            assert(overlap as int == sb_overlap_on_s(pair, axis_n));
        }
        if overlap <= 0 {
            return None;
        }
        if overlap < min_overlap {
            min_overlap = overlap;
            normal = axis_n;
        }
        i += 1;
    }
    Some((min_overlap, normal))
}

fn sphere_box(bbox: &BoundingBox, sphere: &Sphere, box_rotation: &Quat) -> (r: Option<
    Collision,
>)
    ensures
        r == sphere_box_s(*bbox, *sphere, *box_rotation),
        r matches Some(c) ==> v3_ok(c.normal),
{
    let ax = q_axis_x(*box_rotation);
    let ay = q_axis_y(*box_rotation);
    let az = q_axis_z(*box_rotation);
    let size = bbox.size();
    let half = Vec3 {
        x: crate::fx::fx_idiv(size.x, 2),
        y: crate::fx::fx_idiv(size.y, 2),
        z: crate::fx::fx_idiv(size.z, 2),
    };
    let diff = v3_sub(sphere.center, bbox.center());
    let ghost pair = sphere_box_pair_s(*bbox, *sphere, *box_rotation);
    proof {
        assert(pair == (SphereBoxPair { half, ax, ay, az, radius: sphere.radius, diff }));
    }

    let mut axes: Vec<Vec3> = Vec::new();
    axes.push(ax);
    axes.push(ay);
    axes.push(az);
    axes.push(v3_cross(ax, diff));
    axes.push(v3_cross(ay, diff));
    axes.push(v3_cross(az, diff));
    proof {
        assert(axes@ =~= sphere_box_axes_s(*box_rotation, pair.diff));
    }

    let scanned = sb_axis_scan(&axes, half, ax, ay, az, sphere.radius, diff, Ghost(pair));
    match scanned {
        Option::None => Option::None,
        Option::Some(best) => {
            let (min_overlap, normal) = best;
            let d = v3_dot(diff, normal);
            let normal_corrected = if d < 0 {
                v3_neg(normal)
            } else {
                normal
            };
            let contact_point = v3_sub(sphere.center, v3_scale(normal_corrected, sphere.radius));
            Option::Some(
                Collision { normal: normal_corrected, overlap: min_overlap, contact_point },
            )
        },
    }
}

} // verus!
