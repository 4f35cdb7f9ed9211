//! Fixed-point quaternions for body orientation.
//!
//! Axis-angle constructors use a small-angle polynomial for the half-angle
//! sine and cosine (the integration step only ever feeds them angular
//! velocity times a sub-step, which is a small angle); the specification of
//! each operation is the exact fixed-point computation.

use vstd::prelude::*;
use crate::fx::SCALE;
use crate::fx::clip;
use crate::fx::clip128;
use crate::fx::fx_add_s;
use crate::fx::fx_div;
use crate::fx::fx_div_s;
use crate::fx::fx_idiv;
use crate::fx::fx_idiv_s;
use crate::fx::fx_mul;
use crate::fx::fx_mul_s;
use crate::fx::fx_ok;
use crate::fx::fx_sub_s;
use crate::fx::isqrt_u128;
use crate::fx::lemma_sqrt_floor_bounds;
use crate::fx::sqrt_floor;
use crate::fx::tdiv;
use crate::fx::tdiv128;
use crate::vec3::Vec3;
use crate::vec3::v3_add;
use crate::vec3::v3_add_s;
use crate::vec3::v3_ok;
use crate::vec3::v3_scale;
use crate::vec3::v3_scale_s;

verus! {

#[derive(Clone, Copy, PartialEq, Eq, Structural, Debug)]
pub struct Quat {
    pub w: i64,
    pub x: i64,
    pub y: i64,
    pub z: i64,
}

/// All four components lie in the representable band.
pub open spec fn q_ok(q: Quat) -> bool {
    fx_ok(q.w as int) && fx_ok(q.x as int) && fx_ok(q.y as int) && fx_ok(q.z as int)
}

/// The identity rotation.
pub open spec fn q_one_s() -> Quat {
    Quat { w: SCALE, x: 0, y: 0, z: 0 }
}

/// Hamilton product in fixed point.
pub open spec fn q_mul_s(a: Quat, b: Quat) -> Quat {
    Quat {
        w: clip(tdiv(a.w * b.w - a.x * b.x - a.y * b.y - a.z * b.z, SCALE as int)) as i64,
        x: clip(tdiv(a.w * b.x + a.x * b.w + a.y * b.z - a.z * b.y, SCALE as int)) as i64,
        y: clip(tdiv(a.w * b.y - a.x * b.z + a.y * b.w + a.z * b.x, SCALE as int)) as i64,
        z: clip(tdiv(a.w * b.z + a.x * b.y - a.y * b.x + a.z * b.w, SCALE as int)) as i64,
    }
}

/// Quaternion length: integer square root of the raw sum of squares.
pub open spec fn q_mag_s(q: Quat) -> int {
    clip(sqrt_floor(q.w * q.w + q.x * q.x + q.y * q.y + q.z * q.z))
}

/// Unit quaternion in the direction of `q` (all zero when `q` is zero).
pub open spec fn q_normalize_s(q: Quat) -> Quat {
    let m = q_mag_s(q);
    Quat {
        w: fx_div_s(q.w as int, m) as i64,
        x: fx_div_s(q.x as int, m) as i64,
        y: fx_div_s(q.y as int, m) as i64,
        z: fx_div_s(q.z as int, m) as i64,
    }
}

/// Small-angle polynomial for sine: `h - h^3/6` in fixed point.
pub open spec fn sin_fx_s(h: int) -> int {
    fx_sub_s(h, fx_idiv_s(fx_mul_s(fx_mul_s(h, h), h), 6))
}

/// Small-angle polynomial for cosine: `1 - h^2/2 + h^4/24` in fixed point.
pub open spec fn cos_fx_s(h: int) -> int {
    let h2 = fx_mul_s(h, h);
    clip(fx_add_s(fx_sub_s(SCALE as int, fx_idiv_s(h2, 2)), fx_idiv_s(fx_mul_s(h2, h2), 24)))
}

/// Rotation by `angle` about the local x axis.
pub open spec fn q_from_angle_x_s(angle: int) -> Quat {
    let h = fx_idiv_s(angle, 2);
    Quat { w: cos_fx_s(h) as i64, x: sin_fx_s(h) as i64, y: 0, z: 0 }
}

/// Rotation by `angle` about the local y axis.
pub open spec fn q_from_angle_y_s(angle: int) -> Quat {
    let h = fx_idiv_s(angle, 2);
    Quat { w: cos_fx_s(h) as i64, x: 0, y: sin_fx_s(h) as i64, z: 0 }
}

/// Rotation by `angle` about the local z axis.
pub open spec fn q_from_angle_z_s(angle: int) -> Quat {
    let h = fx_idiv_s(angle, 2);
    Quat { w: cos_fx_s(h) as i64, x: 0, y: 0, z: sin_fx_s(h) as i64 }
}

/// First column of the rotation matrix of `q`.
pub open spec fn q_axis_x_s(q: Quat) -> Vec3 {
    let yy = fx_mul_s(q.y as int, q.y as int);
    let zz = fx_mul_s(q.z as int, q.z as int);
    let xy = fx_mul_s(q.x as int, q.y as int);
    let wz = fx_mul_s(q.w as int, q.z as int);
    let xz = fx_mul_s(q.x as int, q.z as int);
    let wy = fx_mul_s(q.w as int, q.y as int);
    Vec3 {
        x: clip(SCALE - 2 * yy - 2 * zz) as i64,
        y: clip(2 * xy + 2 * wz) as i64,
        z: clip(2 * xz - 2 * wy) as i64,
    }
}

/// Second column of the rotation matrix of `q`.
pub open spec fn q_axis_y_s(q: Quat) -> Vec3 {
    let xx = fx_mul_s(q.x as int, q.x as int);
    let zz = fx_mul_s(q.z as int, q.z as int);
    let xy = fx_mul_s(q.x as int, q.y as int);
    let wz = fx_mul_s(q.w as int, q.z as int);
    let yz = fx_mul_s(q.y as int, q.z as int);
    let wx = fx_mul_s(q.w as int, q.x as int);
    Vec3 {
        x: clip(2 * xy - 2 * wz) as i64,
        y: clip(SCALE - 2 * xx - 2 * zz) as i64,
        z: clip(2 * yz + 2 * wx) as i64,
    }
}

/// Third column of the rotation matrix of `q`.
pub open spec fn q_axis_z_s(q: Quat) -> Vec3 {
    let xx = fx_mul_s(q.x as int, q.x as int);
    let yy = fx_mul_s(q.y as int, q.y as int);
    let xz = fx_mul_s(q.x as int, q.z as int);
    let wy = fx_mul_s(q.w as int, q.y as int);
    let yz = fx_mul_s(q.y as int, q.z as int);
    let wx = fx_mul_s(q.w as int, q.x as int);
    Vec3 {
        x: clip(2 * xz + 2 * wy) as i64,
        y: clip(2 * yz - 2 * wx) as i64,
        z: clip(SCALE - 2 * xx - 2 * yy) as i64,
    }
}

/// Rotation of a vector: the matrix columns weighted by the components.
pub open spec fn q_rotate_s(q: Quat, v: Vec3) -> Vec3 {
    v3_add_s(
        v3_add_s(
            v3_scale_s(q_axis_x_s(q), v.x as int),
            v3_scale_s(q_axis_y_s(q), v.y as int),
        ),
        v3_scale_s(q_axis_z_s(q), v.z as int),
    )
}

/// Every quaternion operation clips its components, so every result is
/// well formed, whatever the inputs.
pub proof fn lemma_q_ops_ok(a: Quat, b: Quat, angle: int)
    ensures
        q_ok(q_one_s()),
        q_ok(q_mul_s(a, b)),
        q_ok(q_normalize_s(a)),
        q_ok(q_from_angle_x_s(angle)),
        q_ok(q_from_angle_y_s(angle)),
        q_ok(q_from_angle_z_s(angle)),
{
}

pub fn q_one() -> (r: Quat)
    ensures
        r == q_one_s(),
        q_ok(r),
{
    Quat { w: SCALE, x: 0, y: 0, z: 0 }
}

/// Bound used for the four-term dot products below.
proof fn lemma_band_mul4(a: Quat, b: Quat) by (nonlinear_arith)
    requires
        q_ok(a),
        q_ok(b),
    ensures
        -1_000_000_000_000_000_000_000_000_000_000_000_000 <= a.w * b.w <= 1_000_000_000_000_000_000_000_000_000_000_000_000,
        -1_000_000_000_000_000_000_000_000_000_000_000_000 <= a.w * b.x <= 1_000_000_000_000_000_000_000_000_000_000_000_000,
        -1_000_000_000_000_000_000_000_000_000_000_000_000 <= a.w * b.y <= 1_000_000_000_000_000_000_000_000_000_000_000_000,
        -1_000_000_000_000_000_000_000_000_000_000_000_000 <= a.w * b.z <= 1_000_000_000_000_000_000_000_000_000_000_000_000,
        -1_000_000_000_000_000_000_000_000_000_000_000_000 <= a.x * b.w <= 1_000_000_000_000_000_000_000_000_000_000_000_000,
        -1_000_000_000_000_000_000_000_000_000_000_000_000 <= a.x * b.x <= 1_000_000_000_000_000_000_000_000_000_000_000_000,
        -1_000_000_000_000_000_000_000_000_000_000_000_000 <= a.x * b.y <= 1_000_000_000_000_000_000_000_000_000_000_000_000,
        -1_000_000_000_000_000_000_000_000_000_000_000_000 <= a.x * b.z <= 1_000_000_000_000_000_000_000_000_000_000_000_000,
        -1_000_000_000_000_000_000_000_000_000_000_000_000 <= a.y * b.w <= 1_000_000_000_000_000_000_000_000_000_000_000_000,
        -1_000_000_000_000_000_000_000_000_000_000_000_000 <= a.y * b.x <= 1_000_000_000_000_000_000_000_000_000_000_000_000,
        -1_000_000_000_000_000_000_000_000_000_000_000_000 <= a.y * b.y <= 1_000_000_000_000_000_000_000_000_000_000_000_000,
        -1_000_000_000_000_000_000_000_000_000_000_000_000 <= a.y * b.z <= 1_000_000_000_000_000_000_000_000_000_000_000_000,
        -1_000_000_000_000_000_000_000_000_000_000_000_000 <= a.z * b.w <= 1_000_000_000_000_000_000_000_000_000_000_000_000,
        -1_000_000_000_000_000_000_000_000_000_000_000_000 <= a.z * b.x <= 1_000_000_000_000_000_000_000_000_000_000_000_000,
        -1_000_000_000_000_000_000_000_000_000_000_000_000 <= a.z * b.y <= 1_000_000_000_000_000_000_000_000_000_000_000_000,
        -1_000_000_000_000_000_000_000_000_000_000_000_000 <= a.z * b.z <= 1_000_000_000_000_000_000_000_000_000_000_000_000,
{
}

pub fn q_mul(a: Quat, b: Quat) -> (r: Quat)
    requires
        q_ok(a),
        q_ok(b),
    ensures
        r == q_mul_s(a, b),
        q_ok(r),
{
    proof {
        lemma_band_mul4(a, b);
    }
    let pw: i128 = (a.w as i128) * (b.w as i128) - (a.x as i128) * (b.x as i128)
        - (a.y as i128) * (b.y as i128) - (a.z as i128) * (b.z as i128);
    let px: i128 = (a.w as i128) * (b.x as i128) + (a.x as i128) * (b.w as i128)
        + (a.y as i128) * (b.z as i128) - (a.z as i128) * (b.y as i128);
    let py: i128 = (a.w as i128) * (b.y as i128) - (a.x as i128) * (b.z as i128)
        + (a.y as i128) * (b.w as i128) + (a.z as i128) * (b.x as i128);
    let pz: i128 = (a.w as i128) * (b.z as i128) + (a.x as i128) * (b.y as i128)
        - (a.y as i128) * (b.x as i128) + (a.z as i128) * (b.w as i128);
    Quat {
        w: clip128(tdiv128(pw, SCALE as i128)),
        x: clip128(tdiv128(px, SCALE as i128)),
        y: clip128(tdiv128(py, SCALE as i128)),
        z: clip128(tdiv128(pz, SCALE as i128)),
    }
}

pub fn q_normalize(q: Quat) -> (r: Quat)
    requires
        q_ok(q),
    ensures
        r == q_normalize_s(q),
        q_ok(r),
{
    proof {
        lemma_band_mul4(q, q);
        assert(q.w * q.w >= 0 && q.x * q.x >= 0 && q.y * q.y >= 0 && q.z * q.z >= 0)
            by (nonlinear_arith);
    }
    let p: i128 = (q.w as i128) * (q.w as i128) + (q.x as i128) * (q.x as i128)
        + (q.y as i128) * (q.y as i128) + (q.z as i128) * (q.z as i128);
    let s: u128 = isqrt_u128(p as u128);
    proof {
        lemma_sqrt_floor_bounds(p as int);
        assert(s as int <= 2_000_000_000_000_000_000_000) by (nonlinear_arith)
            requires
                s as int * s as int <= p as int,
                (p as int) < 4_000_000_000_000_000_000_000_000_000_000_000_000_000_000,
                s as int >= 0;
    }
    let m: i64 = clip128(s as i128);
    Quat {
        w: fx_div(q.w, m),
        x: fx_div(q.x, m),
        y: fx_div(q.y, m),
        z: fx_div(q.z, m),
    }
}

fn sin_fx(h: i64) -> (r: i64)
    ensures
        r as int == sin_fx_s(h as int),
{
    let h3 = fx_mul(fx_mul(h, h), h);
    crate::fx::fx_sub(h, fx_idiv(h3, 6))
}

fn cos_fx(h: i64) -> (r: i64)
    ensures
        r as int == cos_fx_s(h as int),
{
    let h2 = fx_mul(h, h);
    let a = crate::fx::fx_sub(SCALE, fx_idiv(h2, 2));
    let b = fx_idiv(fx_mul(h2, h2), 24);
    let c = crate::fx::fx_add(a, b);
    clip128(c as i128)
}

pub fn q_from_angle_x(angle: i64) -> (r: Quat)
    ensures
        r == q_from_angle_x_s(angle as int),
        q_ok(r),
{
    let h = fx_idiv(angle, 2);
    Quat { w: cos_fx(h), x: sin_fx(h), y: 0, z: 0 }
}

pub fn q_from_angle_y(angle: i64) -> (r: Quat)
    ensures
        r == q_from_angle_y_s(angle as int),
        q_ok(r),
{
    let h = fx_idiv(angle, 2);
    Quat { w: cos_fx(h), x: 0, y: sin_fx(h), z: 0 }
}

pub fn q_from_angle_z(angle: i64) -> (r: Quat)
    ensures
        r == q_from_angle_z_s(angle as int),
        q_ok(r),
{
    let h = fx_idiv(angle, 2);
    Quat { w: cos_fx(h), x: 0, y: 0, z: sin_fx(h) }
}

pub fn q_axis_x(q: Quat) -> (r: Vec3)
    ensures
        r == q_axis_x_s(q),
        v3_ok(r),
{
    let yy = fx_mul(q.y, q.y);
    let zz = fx_mul(q.z, q.z);
    let xy = fx_mul(q.x, q.y);
    let wz = fx_mul(q.w, q.z);
    let xz = fx_mul(q.x, q.z);
    let wy = fx_mul(q.w, q.y);
    Vec3 {
        x: clip128(SCALE as i128 - 2 * (yy as i128) - 2 * (zz as i128)),
        y: clip128(2 * (xy as i128) + 2 * (wz as i128)),
        z: clip128(2 * (xz as i128) - 2 * (wy as i128)),
    }
}

pub fn q_axis_y(q: Quat) -> (r: Vec3)
    ensures
        r == q_axis_y_s(q),
        v3_ok(r),
{
    let xx = fx_mul(q.x, q.x);
    let zz = fx_mul(q.z, q.z);
    let xy = fx_mul(q.x, q.y);
    let wz = fx_mul(q.w, q.z);
    let yz = fx_mul(q.y, q.z);
    let wx = fx_mul(q.w, q.x);
    Vec3 {
        x: clip128(2 * (xy as i128) - 2 * (wz as i128)),
        y: clip128(SCALE as i128 - 2 * (xx as i128) - 2 * (zz as i128)),
        z: clip128(2 * (yz as i128) + 2 * (wx as i128)),
    }
}

pub fn q_axis_z(q: Quat) -> (r: Vec3)
    ensures
        r == q_axis_z_s(q),
        v3_ok(r),
{
    let xx = fx_mul(q.x, q.x);
    let yy = fx_mul(q.y, q.y);
    let xz = fx_mul(q.x, q.z);
    let wy = fx_mul(q.w, q.y);
    let yz = fx_mul(q.y, q.z);
    let wx = fx_mul(q.w, q.x);
    Vec3 {
        x: clip128(2 * (xz as i128) + 2 * (wy as i128)),
        y: clip128(2 * (yz as i128) - 2 * (wx as i128)),
        z: clip128(SCALE as i128 - 2 * (xx as i128) - 2 * (yy as i128)),
    }
}

pub fn q_rotate(q: Quat, v: Vec3) -> (r: Vec3)
    ensures
        r == q_rotate_s(q, v),
        v3_ok(r),
{
    let ax = q_axis_x(q);
    let ay = q_axis_y(q);
    let az = q_axis_z(q);
    v3_add(v3_add(v3_scale(ax, v.x), v3_scale(ay, v.y)), v3_scale(az, v.z))
}

} // verus!
