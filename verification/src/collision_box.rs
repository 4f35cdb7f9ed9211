//! Collision shapes: spheres and (locally axis-aligned) bounding boxes,
//! plus the shape fitting used when a body is built from mesh vertices.

use vstd::prelude::*;
use crate::fx::clip;
use crate::fx::clip128;
use crate::fx::fx_idiv_s;
use crate::fx::fx_neg;
use crate::fx::fx_neg_s;
use crate::fx::fx_ok;
use crate::fx::tdiv;
use crate::fx::tdiv128;
use crate::quat::Quat;
use crate::quat::q_rotate;
use crate::quat::q_rotate_s;
use crate::vec3::Vec3;
use crate::vec3::v3_add;
use crate::vec3::v3_add_s;
use crate::vec3::v3_mag_s;
use crate::vec3::v3_ok;
use crate::vec3::v3_sub;
use crate::vec3::v3_sub_s;

verus! {

#[derive(Clone, Copy, PartialEq, Eq, Structural, Debug)]
pub struct Sphere {
    pub center: Vec3,
    pub radius: i64,
}

#[derive(Clone, Copy, PartialEq, Eq, Structural, Debug)]
pub struct BoundingBox {
    pub min: Vec3,
    pub max: Vec3,
}

#[derive(Clone, Copy, PartialEq, Eq, Structural, Debug)]
pub enum CollisionBox {
    BoundingBox(BoundingBox),
    Sphere(Sphere),
}

pub open spec fn smin(a: int, b: int) -> int {
    if a <= b {
        a
    } else {
        b
    }
}

pub open spec fn smax(a: int, b: int) -> int {
    if a >= b {
        a
    } else {
        b
    }
}

pub open spec fn sphere_ok(s: Sphere) -> bool {
    v3_ok(s.center) && 0 <= s.radius && fx_ok(s.radius as int)
}

pub open spec fn bbox_ok(b: BoundingBox) -> bool {
    &&& v3_ok(b.min)
    &&& v3_ok(b.max)
    &&& b.min.x <= b.max.x
    &&& b.min.y <= b.max.y
    &&& b.min.z <= b.max.z
}

/// The point of the box closest to `p`: `p` clamped into the extents.
pub open spec fn closest_point_s(b: BoundingBox, p: Vec3) -> Vec3 {
    Vec3 {
        x: smin(smax(p.x as int, b.min.x as int), b.max.x as int) as i64,
        y: smin(smax(p.y as int, b.min.y as int), b.max.y as int) as i64,
        z: smin(smax(p.z as int, b.min.z as int), b.max.z as int) as i64,
    }
}

pub open spec fn bbox_center_s(b: BoundingBox) -> Vec3 {
    Vec3 {
        x: clip(tdiv(b.min.x + b.max.x, 2)) as i64,
        y: clip(tdiv(b.min.y + b.max.y, 2)) as i64,
        z: clip(tdiv(b.min.z + b.max.z, 2)) as i64,
    }
}

pub open spec fn bbox_size_s(b: BoundingBox) -> Vec3 {
    v3_sub_s(b.max, b.min)
}

pub open spec fn bbox_half_s(b: BoundingBox) -> Vec3 {
    let size = bbox_size_s(b);
    Vec3 {
        x: fx_idiv_s(size.x as int, 2) as i64,
        y: fx_idiv_s(size.y as int, 2) as i64,
        z: fx_idiv_s(size.z as int, 2) as i64,
    }
}

pub open spec fn contains_s(b: BoundingBox, p: Vec3) -> bool {
    &&& b.min.x <= p.x <= b.max.x
    &&& b.min.y <= p.y <= b.max.y
    &&& b.min.z <= p.z <= b.max.z
}

pub open spec fn intersects_s(a: BoundingBox, b: BoundingBox) -> bool {
    &&& a.min.x <= b.max.x && a.max.x >= b.min.x
    &&& a.min.y <= b.max.y && a.max.y >= b.min.y
    &&& a.min.z <= b.max.z && a.max.z >= b.min.z
}

/// Local corner `i` (0..8) of the box: the half extents with signs chosen
/// by the bits of `i` (x from bit 0, y from bit 1, z from bit 2).
pub open spec fn corner_s(b: BoundingBox, i: int) -> Vec3 {
    let h = bbox_half_s(b);
    Vec3 {
        x: if i % 2 == 1 {
            h.x
        } else {
            fx_neg_s(h.x as int) as i64
        },
        y: if (i / 2) % 2 == 1 {
            h.y
        } else {
            fx_neg_s(h.y as int) as i64
        },
        z: if (i / 4) % 2 == 1 {
            h.z
        } else {
            fx_neg_s(h.z as int) as i64
        },
    }
}

/// World position of corner `i` of the box under rotation `q`.
#[verifier::opaque]
pub open spec fn rotated_point_s(b: BoundingBox, q: Quat, i: int) -> Vec3 {
    v3_add_s(q_rotate_s(q, corner_s(b, i)), bbox_center_s(b))
}

/// A shape translated rigidly by `delta`.
pub open spec fn cb_shift_s(c: CollisionBox, delta: Vec3) -> CollisionBox {
    match c {
        CollisionBox::BoundingBox(b) => CollisionBox::BoundingBox(
            BoundingBox { min: v3_add_s(b.min, delta), max: v3_add_s(b.max, delta) },
        ),
        CollisionBox::Sphere(s) => CollisionBox::Sphere(
            Sphere { center: v3_add_s(s.center, delta), radius: s.radius },
        ),
    }
}

impl Sphere {
    pub fn new(center: Vec3, radius: i64) -> (r: Sphere)
        ensures
            r == (Sphere { center, radius }),
    {
        Sphere { center, radius }
    }
}

impl BoundingBox {
    pub fn new(min: Vec3, max: Vec3) -> (r: BoundingBox)
        ensures
            r == (BoundingBox { min, max }),
    {
        BoundingBox { min, max }
    }

    pub fn closest_point(&self, point: Vec3) -> (r: Vec3)
        ensures
            r == closest_point_s(*self, point),
    {
        let mut cx = point.x;
        if cx < self.min.x {
            cx = self.min.x;
        }
        if cx > self.max.x {
            cx = self.max.x;
        }
        let mut cy = point.y;
        if cy < self.min.y {
            cy = self.min.y;
        }
        if cy > self.max.y {
            cy = self.max.y;
        }
        let mut cz = point.z;
        if cz < self.min.z {
            cz = self.min.z;
        }
        if cz > self.max.z {
            cz = self.max.z;
        }
        Vec3 { x: cx, y: cy, z: cz }
    }

    pub fn center(&self) -> (r: Vec3)
        ensures
            r == bbox_center_s(*self),
    {
        Vec3 {
            x: clip128(tdiv128(self.min.x as i128 + self.max.x as i128, 2)),
            y: clip128(tdiv128(self.min.y as i128 + self.max.y as i128, 2)),
            z: clip128(tdiv128(self.min.z as i128 + self.max.z as i128, 2)),
        }
    }

    pub fn size(&self) -> (r: Vec3)
        ensures
            r == bbox_size_s(*self),
    {
        v3_sub(self.max, self.min)
    }

    pub fn contains(&self, point: Vec3) -> (r: bool)
        ensures
            r == contains_s(*self, point),
    {
        point.x >= self.min.x && point.x <= self.max.x && point.y >= self.min.y
            && point.y <= self.max.y && point.z >= self.min.z && point.z <= self.max.z
    }

    pub fn intersects(&self, other: &BoundingBox) -> (r: bool)
        ensures
            r == intersects_s(*self, *other),
    {
        self.min.x <= other.max.x && self.max.x >= other.min.x && self.min.y <= other.max.y
            && self.max.y >= other.min.y && self.min.z <= other.max.z && self.max.z >= other.min.z
    }

    /// The eight world-space corners of the box under rotation `rotation`.
    pub fn rotated_points(&self, rotation: &Quat) -> (r: Vec<Vec3>)
        ensures
            r@.len() == 8,
            forall|i: int| 0 <= i < 8 ==> r@[i] == rotated_point_s(*self, *rotation, i),
    {
        let size = self.size();
        let hx = crate::fx::fx_idiv(size.x, 2);
        let hy = crate::fx::fx_idiv(size.y, 2);
        let hz = crate::fx::fx_idiv(size.z, 2);
        let nx = fx_neg(hx);
        let ny = fx_neg(hy);
        let nz = fx_neg(hz);
        let c = self.center();
        proof {
            assert(Vec3 { x: hx, y: hy, z: hz } == bbox_half_s(*self));
        }
        let mut out: Vec<Vec3> = Vec::new();
        out.push(rotated_corner(self, rotation, Vec3 { x: nx, y: ny, z: nz }, c, Ghost(0)));
        out.push(rotated_corner(self, rotation, Vec3 { x: hx, y: ny, z: nz }, c, Ghost(1)));
        out.push(rotated_corner(self, rotation, Vec3 { x: nx, y: hy, z: nz }, c, Ghost(2)));
        out.push(rotated_corner(self, rotation, Vec3 { x: hx, y: hy, z: nz }, c, Ghost(3)));
        out.push(rotated_corner(self, rotation, Vec3 { x: nx, y: ny, z: hz }, c, Ghost(4)));
        out.push(rotated_corner(self, rotation, Vec3 { x: hx, y: ny, z: hz }, c, Ghost(5)));
        out.push(rotated_corner(self, rotation, Vec3 { x: nx, y: hy, z: hz }, c, Ghost(6)));
        out.push(rotated_corner(self, rotation, Vec3 { x: hx, y: hy, z: hz }, c, Ghost(7)));
        out
    }
}

/// Rotates one precomputed local corner and offsets it by the box center.
fn rotated_corner(
    b: &BoundingBox,
    rotation: &Quat,
    corner: Vec3,
    center: Vec3,
    Ghost(i): Ghost<int>,
) -> (r: Vec3)
    requires
        corner == corner_s(*b, i),
        center == bbox_center_s(*b),
    ensures
        r == rotated_point_s(*b, *rotation, i),
{
    proof {
        reveal(rotated_point_s);
    }
    v3_add(q_rotate(*rotation, corner), center)
}

/// Raw (unscaled) sum of the x components of a point list.
pub open spec fn sum_x(s: Seq<Vec3>) -> int
    decreases s.len(),
{
    if s.len() == 0 {
        0
    } else {
        sum_x(s.drop_last()) + s.last().x
    }
}

/// Raw (unscaled) sum of the y components of a point list.
pub open spec fn sum_y(s: Seq<Vec3>) -> int
    decreases s.len(),
{
    if s.len() == 0 {
        0
    } else {
        sum_y(s.drop_last()) + s.last().y
    }
}

/// Raw (unscaled) sum of the z components of a point list.
pub open spec fn sum_z(s: Seq<Vec3>) -> int
    decreases s.len(),
{
    if s.len() == 0 {
        0
    } else {
        sum_z(s.drop_last()) + s.last().z
    }
}

/// Arithmetic mean of a nonempty point list, rounded toward zero.
pub open spec fn centroid_s(s: Seq<Vec3>) -> Vec3 {
    Vec3 {
        x: clip(tdiv(sum_x(s), s.len() as int)) as i64,
        y: clip(tdiv(sum_y(s), s.len() as int)) as i64,
        z: clip(tdiv(sum_z(s), s.len() as int)) as i64,
    }
}

proof fn lemma_sum_bounds(s: Seq<Vec3>)
    requires
        forall|i: int| 0 <= i < s.len() ==> v3_ok(#[trigger] s[i]),
    ensures
        -(s.len() as int) * (crate::fx::FX_MAX as int) <= sum_x(s) <= (s.len() as int) * (crate::fx::FX_MAX as int),
        -(s.len() as int) * (crate::fx::FX_MAX as int) <= sum_y(s) <= (s.len() as int) * (crate::fx::FX_MAX as int),
        -(s.len() as int) * (crate::fx::FX_MAX as int) <= sum_z(s) <= (s.len() as int) * (crate::fx::FX_MAX as int),
    decreases s.len(),
{
    if s.len() == 0 {
    } else {
        lemma_sum_bounds(s.drop_last());
        assert(v3_ok(s.last()));
        assert((s.len() as int) * (crate::fx::FX_MAX as int)
            == (s.len() as int - 1) * (crate::fx::FX_MAX as int) + crate::fx::FX_MAX as int)
            by (nonlinear_arith);
    }
}

/// `b` is the tight axis-aligned box around `points`: every coordinate of
/// every point lies inside it, and each of the six faces is attained by
/// some point.
pub open spec fn fitted_bbox_s(b: BoundingBox, points: Seq<Vec3>) -> bool {
    &&& forall|i: int|
        0 <= i < points.len() ==> {
            let p = #[trigger] points[i];
            b.min.x <= p.x && b.min.y <= p.y && b.min.z <= p.z && p.x <= b.max.x && p.y
                <= b.max.y && p.z <= b.max.z
        }
    &&& exists|i: int| 0 <= i < points.len() && (#[trigger] points[i]).x == b.min.x
    &&& exists|i: int| 0 <= i < points.len() && (#[trigger] points[i]).y == b.min.y
    &&& exists|i: int| 0 <= i < points.len() && (#[trigger] points[i]).z == b.min.z
    &&& exists|i: int| 0 <= i < points.len() && (#[trigger] points[i]).x == b.max.x
    &&& exists|i: int| 0 <= i < points.len() && (#[trigger] points[i]).y == b.max.y
    &&& exists|i: int| 0 <= i < points.len() && (#[trigger] points[i]).z == b.max.z
}

/// `s` is the bounding sphere fitted around `points`: centered on their
/// centroid, with the largest center distance as the (attained) radius.
pub open spec fn fitted_sphere_s(s: Sphere, points: Seq<Vec3>) -> bool {
    &&& s.center == centroid_s(points)
    &&& forall|i: int|
        0 <= i < points.len() ==> v3_mag_s(v3_sub_s(#[trigger] points[i], s.center))
            <= s.radius
    &&& exists|i: int|
        0 <= i < points.len() && v3_mag_s(v3_sub_s(#[trigger] points[i], s.center))
            == s.radius
}

/// The tightest axis-aligned box around a nonempty point list: every
/// coordinate of every point lies inside it, and each face touches some
/// point.
pub fn calculate_bounding_box(points: &Vec<Vec3>) -> (r: BoundingBox)
    requires
        points@.len() > 0,
        forall|i: int| 0 <= i < points@.len() ==> v3_ok(#[trigger] points@[i]),
    ensures
        bbox_ok(r),
        fitted_bbox_s(r, points@),
{
    let first = points[0];
    let mut lo = first;
    let mut hi = first;
    let mut i: usize = 1;
    while i < points.len()
        invariant
            1 <= i <= points@.len(),
            forall|k: int| 0 <= k < points@.len() ==> v3_ok(#[trigger] points@[k]),
            forall|k: int|
                0 <= k < i ==> {
                    let p = #[trigger] points@[k];
                    lo.x <= p.x && lo.y <= p.y && lo.z <= p.z && p.x <= hi.x && p.y <= hi.y && p.z
                        <= hi.z
                },
            exists|k: int| 0 <= k < i && (#[trigger] points@[k]).x == lo.x,
            exists|k: int| 0 <= k < i && (#[trigger] points@[k]).y == lo.y,
            exists|k: int| 0 <= k < i && (#[trigger] points@[k]).z == lo.z,
            exists|k: int| 0 <= k < i && (#[trigger] points@[k]).x == hi.x,
            exists|k: int| 0 <= k < i && (#[trigger] points@[k]).y == hi.y,
            exists|k: int| 0 <= k < i && (#[trigger] points@[k]).z == hi.z,
        decreases points@.len() - i,
    {
        let p = points[i];
        if p.x < lo.x {
            lo.x = p.x;
        }
        if p.y < lo.y {
            lo.y = p.y;
        }
        if p.z < lo.z {
            lo.z = p.z;
        }
        if p.x > hi.x {
            hi.x = p.x;
        }
        if p.y > hi.y {
            hi.y = p.y;
        }
        if p.z > hi.z {
            hi.z = p.z;
        }
        i += 1;
    }
    BoundingBox { min: lo, max: hi }
}

/// The bounding sphere around a nonempty point list: centered on the
/// centroid, with the largest center distance as radius.
pub fn calculate_sphere(points: &Vec<Vec3>) -> (r: Sphere)
    requires
        points@.len() > 0,
        forall|i: int| 0 <= i < points@.len() ==> v3_ok(#[trigger] points@[i]),
    ensures
        sphere_ok(r),
        fitted_sphere_s(r, points@),
{
    let n = points.len();
    let mut ax: i128 = 0;
    let mut ay: i128 = 0;
    let mut az: i128 = 0;
    let mut i: usize = 0;
    while i < n
        invariant
            i <= n,
            n == points@.len(),
            forall|k: int| 0 <= k < points@.len() ==> v3_ok(#[trigger] points@[k]),
            ax as int == sum_x(points@.subrange(0, i as int)),
            ay as int == sum_y(points@.subrange(0, i as int)),
            az as int == sum_z(points@.subrange(0, i as int)),
            -(i as int) * (crate::fx::FX_MAX as int) <= ax as int <= (i as int) * (crate::fx::FX_MAX as int),
            -(i as int) * (crate::fx::FX_MAX as int) <= ay as int <= (i as int) * (crate::fx::FX_MAX as int),
            -(i as int) * (crate::fx::FX_MAX as int) <= az as int <= (i as int) * (crate::fx::FX_MAX as int),
        decreases n - i,
    {
        let p = points[i];
        proof {
            assert(v3_ok(points@[i as int]));
            assert((i as int + 1) * (crate::fx::FX_MAX as int)
                == (i as int) * (crate::fx::FX_MAX as int) + crate::fx::FX_MAX as int)
                by (nonlinear_arith);
            assert((i as int) * (crate::fx::FX_MAX as int)
                <= 20_000_000_000_000_000_000 * 1_000_000_000_000_000_000int) by (nonlinear_arith)
                requires 0 <= i as int <= 20_000_000_000_000_000_000;
            assert(points@.subrange(0, i + 1).drop_last() =~= points@.subrange(0, i as int));
        }
        ax = ax + p.x as i128;
        ay = ay + p.y as i128;
        az = az + p.z as i128;
        i += 1;
    }
    proof {
        assert(points@.subrange(0, n as int) =~= points@);
        assert((n as int) * (crate::fx::FX_MAX as int)
            <= 20_000_000_000_000_000_000 * 1_000_000_000_000_000_000int) by (nonlinear_arith)
            requires 0 <= n as int <= 20_000_000_000_000_000_000;
    }
    let center = Vec3 {
        x: clip128(tdiv128(ax, n as i128)),
        y: clip128(tdiv128(ay, n as i128)),
        z: clip128(tdiv128(az, n as i128)),
    };
    let mut radius: i64 = 0;
    let mut j: usize = 0;
    while j < n
        invariant
            j <= n,
            n == points@.len(),
            forall|k: int| 0 <= k < points@.len() ==> v3_ok(#[trigger] points@[k]),
            v3_ok(center),
            radius >= 0,
            j == 0 ==> radius == 0,
            forall|k: int|
                0 <= k < j ==> v3_mag_s(v3_sub_s(#[trigger] points@[k], center)) <= radius,
            j > 0 ==> exists|k: int|
                0 <= k < j && v3_mag_s(v3_sub_s(#[trigger] points@[k], center)) == radius,
        decreases n - j,
    {
        let m = crate::vec3::v3_mag(v3_sub(points[j], center));
        if m > radius {
            radius = m;
        } else {
            proof {
                if j == 0 {
                    assert(m >= 0 && radius == 0);
                    assert(v3_mag_s(v3_sub_s(points@[0], center)) == radius);
                }
            }
        }
        j += 1;
    }
    Sphere { center, radius }
}

/// Translates a shape rigidly by `delta`.
pub fn cb_shift(c: &CollisionBox, delta: Vec3) -> (r: CollisionBox)
    ensures
        r == cb_shift_s(*c, delta),
{
    match c {
        CollisionBox::BoundingBox(b) => CollisionBox::BoundingBox(
            BoundingBox { min: v3_add(b.min, delta), max: v3_add(b.max, delta) },
        ),
        CollisionBox::Sphere(s) => CollisionBox::Sphere(
            Sphere { center: v3_add(s.center, delta), radius: s.radius },
        ),
    }
}

} // verus!
