//! Three-component fixed-point vectors.
//!
//! Components are fixed-point scalars (see `fx`).  The product-style
//! operations (`dot`, `cross`, magnitudes, normalization) require their
//! arguments to lie in the representable band so that the 128-bit
//! intermediates cannot overflow; every operation clips its result back into
//! the band.

use vstd::prelude::*;
use crate::fx::FX_MAX;
use crate::fx::SCALE;
use crate::fx::clip;
use crate::fx::clip128;
use crate::fx::fx_add;
use crate::fx::fx_add_s;
use crate::fx::fx_div;
use crate::fx::fx_div_s;
use crate::fx::fx_mul;
use crate::fx::fx_mul_s;
use crate::fx::fx_neg;
use crate::fx::fx_neg_s;
use crate::fx::fx_ok;
use crate::fx::fx_sub;
use crate::fx::fx_sub_s;
use crate::fx::isqrt_u128;
use crate::fx::lemma_sqrt_floor_bounds;
use crate::fx::sqrt_floor;
use crate::fx::tdiv;
use crate::fx::tdiv128;

verus! {

#[derive(Clone, Copy, PartialEq, Eq, Structural, Debug)]
pub struct Vec3 {
    pub x: i64,
    pub y: i64,
    pub z: i64,
}

/// All three components lie in the representable band.
pub open spec fn v3_ok(v: Vec3) -> bool {
    fx_ok(v.x as int) && fx_ok(v.y as int) && fx_ok(v.z as int)
}

pub open spec fn v3_zero_s() -> Vec3 {
    Vec3 { x: 0, y: 0, z: 0 }
}

pub open spec fn v3_add_s(a: Vec3, b: Vec3) -> Vec3 {
    Vec3 {
        x: fx_add_s(a.x as int, b.x as int) as i64,
        y: fx_add_s(a.y as int, b.y as int) as i64,
        z: fx_add_s(a.z as int, b.z as int) as i64,
    }
}

pub open spec fn v3_sub_s(a: Vec3, b: Vec3) -> Vec3 {
    Vec3 {
        x: fx_sub_s(a.x as int, b.x as int) as i64,
        y: fx_sub_s(a.y as int, b.y as int) as i64,
        z: fx_sub_s(a.z as int, b.z as int) as i64,
    }
}

pub open spec fn v3_neg_s(a: Vec3) -> Vec3 {
    Vec3 {
        x: fx_neg_s(a.x as int) as i64,
        y: fx_neg_s(a.y as int) as i64,
        z: fx_neg_s(a.z as int) as i64,
    }
}

/// Componentwise scaling by a fixed-point factor.
pub open spec fn v3_scale_s(a: Vec3, k: int) -> Vec3 {
    Vec3 {
        x: fx_mul_s(a.x as int, k) as i64,
        y: fx_mul_s(a.y as int, k) as i64,
        z: fx_mul_s(a.z as int, k) as i64,
    }
}

/// Componentwise division by a fixed-point divisor.
pub open spec fn v3_div_scalar_s(a: Vec3, k: int) -> Vec3 {
    Vec3 {
        x: fx_div_s(a.x as int, k) as i64,
        y: fx_div_s(a.y as int, k) as i64,
        z: fx_div_s(a.z as int, k) as i64,
    }
}

/// Componentwise product (used with a diagonal inertia tensor).
pub open spec fn v3_mul_elem_s(a: Vec3, b: Vec3) -> Vec3 {
    Vec3 {
        x: fx_mul_s(a.x as int, b.x as int) as i64,
        y: fx_mul_s(a.y as int, b.y as int) as i64,
        z: fx_mul_s(a.z as int, b.z as int) as i64,
    }
}

pub open spec fn v3_dot_s(a: Vec3, b: Vec3) -> int {
    clip(tdiv(a.x * b.x + a.y * b.y + a.z * b.z, SCALE as int))
}

pub open spec fn v3_cross_s(a: Vec3, b: Vec3) -> Vec3 {
    Vec3 {
        x: clip(tdiv(a.y * b.z - a.z * b.y, SCALE as int)) as i64,
        y: clip(tdiv(a.z * b.x - a.x * b.z, SCALE as int)) as i64,
        z: clip(tdiv(a.x * b.y - a.y * b.x, SCALE as int)) as i64,
    }
}

/// Squared length as a fixed-point scalar.
pub open spec fn v3_mag2_s(a: Vec3) -> int {
    clip(tdiv(a.x * a.x + a.y * a.y + a.z * a.z, SCALE as int))
}

/// Length as a fixed-point scalar: the integer square root of the raw sum
/// of squared components (the scale factors cancel).
pub open spec fn v3_mag_s(a: Vec3) -> int {
    clip(sqrt_floor(a.x * a.x + a.y * a.y + a.z * a.z))
}

/// Unit vector in the direction of `a`, or zero when `a` has length zero.
pub open spec fn v3_normalize_s(a: Vec3) -> Vec3 {
    let m = v3_mag_s(a);
    if m == 0 {
        v3_zero_s()
    } else {
        v3_div_scalar_s(a, m)
    }
}

/// Every vector operation clips its components, so every result is well
/// formed, whatever the inputs.
pub proof fn lemma_v3_ops_ok(a: Vec3, b: Vec3, k: int)
    ensures
        v3_ok(v3_zero_s()),
        v3_ok(v3_add_s(a, b)),
        v3_ok(v3_sub_s(a, b)),
        v3_ok(v3_neg_s(a)),
        v3_ok(v3_scale_s(a, k)),
        v3_ok(v3_div_scalar_s(a, k)),
        v3_ok(v3_mul_elem_s(a, b)),
        v3_ok(v3_cross_s(a, b)),
        v3_ok(v3_normalize_s(a)),
        fx_ok(v3_dot_s(a, b)),
        fx_ok(v3_mag_s(a)),
        fx_ok(v3_mag2_s(a)),
{
}

/// Scaling the zero vector yields the zero vector.
pub proof fn lemma_v3_scale_zero(k: int)
    ensures
        v3_scale_s(v3_zero_s(), k) == v3_zero_s(),
{
    assert(0 * k == 0) by (nonlinear_arith);
}

/// Products of in-band scalars stay within one extra decimal order.
proof fn lemma_band_mul(a: int, b: int) by (nonlinear_arith)
    requires
        fx_ok(a),
        fx_ok(b),
    ensures
        -1_000_000_000_000_000_000_000_000_000_000_000_000
            <= a * b
            <= 1_000_000_000_000_000_000_000_000_000_000_000_000,
{
}

pub fn v3(x: i64, y: i64, z: i64) -> (r: Vec3)
    ensures
        r == (Vec3 { x, y, z }),
{
    Vec3 { x, y, z }
}

pub fn v3_zero() -> (r: Vec3)
    ensures
        r == v3_zero_s(),
{
    Vec3 { x: 0, y: 0, z: 0 }
}

pub fn v3_add(a: Vec3, b: Vec3) -> (r: Vec3)
    ensures
        r == v3_add_s(a, b),
        v3_ok(r),
{
    Vec3 { x: fx_add(a.x, b.x), y: fx_add(a.y, b.y), z: fx_add(a.z, b.z) }
}

pub fn v3_sub(a: Vec3, b: Vec3) -> (r: Vec3)
    ensures
        r == v3_sub_s(a, b),
        v3_ok(r),
{
    Vec3 { x: fx_sub(a.x, b.x), y: fx_sub(a.y, b.y), z: fx_sub(a.z, b.z) }
}

pub fn v3_neg(a: Vec3) -> (r: Vec3)
    ensures
        r == v3_neg_s(a),
        v3_ok(r),
{
    Vec3 { x: fx_neg(a.x), y: fx_neg(a.y), z: fx_neg(a.z) }
}

pub fn v3_scale(a: Vec3, k: i64) -> (r: Vec3)
    ensures
        r == v3_scale_s(a, k as int),
        v3_ok(r),
{
    Vec3 { x: fx_mul(a.x, k), y: fx_mul(a.y, k), z: fx_mul(a.z, k) }
}

pub fn v3_div_scalar(a: Vec3, k: i64) -> (r: Vec3)
    ensures
        r == v3_div_scalar_s(a, k as int),
        v3_ok(r),
{
    Vec3 { x: fx_div(a.x, k), y: fx_div(a.y, k), z: fx_div(a.z, k) }
}

pub fn v3_mul_elem(a: Vec3, b: Vec3) -> (r: Vec3)
    ensures
        r == v3_mul_elem_s(a, b),
        v3_ok(r),
{
    Vec3 { x: fx_mul(a.x, b.x), y: fx_mul(a.y, b.y), z: fx_mul(a.z, b.z) }
}

pub fn v3_dot(a: Vec3, b: Vec3) -> (r: i64)
    requires
        v3_ok(a),
        v3_ok(b),
    ensures
        r as int == v3_dot_s(a, b),
{
    proof {
        lemma_band_mul(a.x as int, b.x as int);
        lemma_band_mul(a.y as int, b.y as int);
        lemma_band_mul(a.z as int, b.z as int);
    }
    let p: i128 = (a.x as i128) * (b.x as i128) + (a.y as i128) * (b.y as i128)
        + (a.z as i128) * (b.z as i128);
    clip128(tdiv128(p, SCALE as i128))
}

pub fn v3_cross(a: Vec3, b: Vec3) -> (r: Vec3)
    requires
        v3_ok(a),
        v3_ok(b),
    ensures
        r == v3_cross_s(a, b),
        v3_ok(r),
{
    proof {
        lemma_band_mul(a.x as int, b.x as int);
        lemma_band_mul(a.x as int, b.y as int);
        lemma_band_mul(a.x as int, b.z as int);
        lemma_band_mul(a.y as int, b.x as int);
        lemma_band_mul(a.y as int, b.y as int);
        lemma_band_mul(a.y as int, b.z as int);
        lemma_band_mul(a.z as int, b.x as int);
        lemma_band_mul(a.z as int, b.y as int);
        lemma_band_mul(a.z as int, b.z as int);
    }
    let cx: i128 = (a.y as i128) * (b.z as i128) - (a.z as i128) * (b.y as i128);
    let cy: i128 = (a.z as i128) * (b.x as i128) - (a.x as i128) * (b.z as i128);
    let cz: i128 = (a.x as i128) * (b.y as i128) - (a.y as i128) * (b.x as i128);
    Vec3 {
        x: clip128(tdiv128(cx, SCALE as i128)),
        y: clip128(tdiv128(cy, SCALE as i128)),
        z: clip128(tdiv128(cz, SCALE as i128)),
    }
}

pub fn v3_mag2(a: Vec3) -> (r: i64)
    requires
        v3_ok(a),
    ensures
        r as int == v3_mag2_s(a),
        r >= 0,
{
    proof {
        lemma_band_mul(a.x as int, a.x as int);
        lemma_band_mul(a.y as int, a.y as int);
        lemma_band_mul(a.z as int, a.z as int);
        assert(a.x * a.x >= 0 && a.y * a.y >= 0 && a.z * a.z >= 0) by (nonlinear_arith);
    }
    let p: i128 = (a.x as i128) * (a.x as i128) + (a.y as i128) * (a.y as i128)
        + (a.z as i128) * (a.z as i128);
    clip128(tdiv128(p, SCALE as i128))
}

pub fn v3_mag(a: Vec3) -> (r: i64)
    requires
        v3_ok(a),
    ensures
        r as int == v3_mag_s(a),
        r >= 0,
{
    proof {
        lemma_band_mul(a.x as int, a.x as int);
        lemma_band_mul(a.y as int, a.y as int);
        lemma_band_mul(a.z as int, a.z as int);
        assert(a.x * a.x >= 0 && a.y * a.y >= 0 && a.z * a.z >= 0) by (nonlinear_arith);
    }
    let p: i128 = (a.x as i128) * (a.x as i128) + (a.y as i128) * (a.y as i128)
        + (a.z as i128) * (a.z as i128);
    let s: u128 = isqrt_u128(p as u128);
    proof {
        lemma_sqrt_floor_bounds(p as int);
        assert(s as int <= 2_000_000_000_000_000_000_000) by (nonlinear_arith)
            requires
                s as int * s as int <= p as int,
                (p as int) < 4_000_000_000_000_000_000_000_000_000_000_000_000_000_000,
                s as int >= 0;
    }
    clip128(s as i128)
}

pub fn v3_normalize(a: Vec3) -> (r: Vec3)
    requires
        v3_ok(a),
    ensures
        r == v3_normalize_s(a),
        v3_ok(r),
{
    let m = v3_mag(a);
    if m == 0 {
        let r = v3_zero();
        proof {
            assert(fx_ok(0));
        }
        r
    } else {
        v3_div_scalar(a, m)
    }
}

} // verus!
