//! Fixed-point scalar, vector and quaternion arithmetic.

use rusty_gears::fx::FX_MAX;
use rusty_gears::fx::SCALE;
use rusty_gears::fx::fx_add;
use rusty_gears::fx::fx_div;
use rusty_gears::fx::fx_mul;
use rusty_gears::fx::fx_neg;
use rusty_gears::fx::fx_sqrt;
use rusty_gears::quat::q_one;
use rusty_gears::quat::q_rotate;
use rusty_gears::vec3::v3;
use rusty_gears::vec3::v3_add;
use rusty_gears::vec3::v3_cross;
use rusty_gears::vec3::v3_dot;
use rusty_gears::vec3::v3_mag;
use rusty_gears::vec3::v3_normalize;
use rusty_gears::vec3::v3_scale;
use rusty_gears::vec3::v3_sub;

#[test]
fn scalar_products_are_exact() {
    // 2.5 * 2.0 == 5.0
    assert_eq!(fx_mul(2_500_000, 2_000_000), 5_000_000);
    // 1.0 / 4.0 == 0.25
    assert_eq!(fx_div(1_000_000, 4_000_000), 250_000);
    // sqrt(4.0) == 2.0
    assert_eq!(fx_sqrt(4_000_000), 2_000_000);
    assert_eq!(fx_neg(5), -5);
    assert_eq!(fx_add(300, -500), -200);
}

#[test]
fn scalar_addition_saturates() {
    assert_eq!(fx_add(FX_MAX, FX_MAX), FX_MAX);
    assert_eq!(fx_add(-FX_MAX, -FX_MAX), -FX_MAX);
    assert_eq!(fx_mul(FX_MAX, FX_MAX), FX_MAX);
}

#[test]
fn scalar_division_by_zero_is_zero() {
    assert_eq!(fx_div(123_456, 0), 0);
    assert_eq!(fx_sqrt(-1_000_000), 0);
}

#[test]
fn vector_dot_and_cross() {
    let a = v3(1_000_000, 2_000_000, 3_000_000);
    let b = v3(4_000_000, 5_000_000, 6_000_000);
    // (1,2,3) . (4,5,6) == 32
    assert_eq!(v3_dot(a, b), 32_000_000);
    // x cross y == z
    let x = v3(SCALE, 0, 0);
    let y = v3(0, SCALE, 0);
    let c = v3_cross(x, y);
    assert_eq!((c.x, c.y, c.z), (0, 0, SCALE));
}

#[test]
fn vector_magnitude_and_normalization() {
    let v = v3(3_000_000, 4_000_000, 0);
    assert_eq!(v3_mag(v), 5_000_000);
    let n = v3_normalize(v);
    assert_eq!((n.x, n.y, n.z), (600_000, 800_000, 0));
    let z = v3_normalize(v3(0, 0, 0));
    assert_eq!((z.x, z.y, z.z), (0, 0, 0));
}

#[test]
fn vector_sum_difference_scaling() {
    let a = v3(1_000_000, -2_000_000, 500_000);
    let b = v3(250_000, 250_000, 250_000);
    let s = v3_add(a, b);
    assert_eq!((s.x, s.y, s.z), (1_250_000, -1_750_000, 750_000));
    let d = v3_sub(a, b);
    assert_eq!((d.x, d.y, d.z), (750_000, -2_250_000, 250_000));
    let h = v3_scale(a, 500_000);
    assert_eq!((h.x, h.y, h.z), (500_000, -1_000_000, 250_000));
}

#[test]
fn identity_rotation_keeps_vectors() {
    let v = v3(123_000, -456_000, 789_000);
    let r = q_rotate(q_one(), v);
    assert_eq!((r.x, r.y, r.z), (v.x, v.y, v.z));
}
