//! Fixed-point scalar arithmetic.
//!
//! A scalar is an `i64` counting multiples of `1/SCALE`; the value `1.0` is
//! stored as `SCALE`.  Every operation computes its exact integer result,
//! truncates divisions toward zero, and clips the outcome into the band
//! `[-FX_MAX, FX_MAX]`, so all executable functions are total and their
//! specifications pin the result exactly.

use vstd::prelude::*;

verus! {

/// Number of fixed-point units in the real value 1.0.
pub const SCALE: i64 = 1_000_000;

/// Largest magnitude a fixed-point scalar may take; every operation clips
/// its result into `[-FX_MAX, FX_MAX]`.
pub const FX_MAX: i64 = 1_000_000_000_000_000_000;

/// Fixed-point one half.
pub const FX_HALF: i64 = 500_000;

/// A scalar is well formed when it lies inside the representable band.
pub open spec fn fx_ok(x: int) -> bool {
    -(FX_MAX as int) <= x <= FX_MAX as int
}

/// Truncated division exactly undoes multiplication by the divisor.
pub proof fn lemma_tdiv_mul_cancel(x: int, c: int)
    requires
        0 < c,
    ensures
        tdiv(x * c, c) == x,
{
    if x == 0 {
    } else if x > 0 {
        vstd::arithmetic::div_mod::lemma_div_multiples_vanish(x, c);
        assert(x * c == c * x) by (nonlinear_arith);
    } else {
        vstd::arithmetic::div_mod::lemma_div_multiples_vanish(-x, c);
        assert((x * c) * -1 == c * (-x)) by (nonlinear_arith);
        assert((x * c) < 0) by (nonlinear_arith)
            requires x < 0 && c > 0;
    }
}

/// Clips an unbounded integer into the representable band.
pub open spec fn clip(x: int) -> int {
    if x > FX_MAX as int {
        FX_MAX as int
    } else if x < -(FX_MAX as int) {
        -(FX_MAX as int)
    } else {
        x
    }
}

/// Division truncated toward zero (the rounding of the executable code);
/// total, with quotient 0 for a zero divisor.
pub open spec fn tdiv(a: int, b: int) -> int {
    if b == 0 {
        0
    } else if a == 0 {
        0
    } else if a > 0 && b > 0 {
        a / b
    } else if a < 0 && b < 0 {
        (a * -1) / (b * -1)
    } else if a < 0 {
        ((a * -1) / b) * -1
    } else {
        (a / (b * -1)) * -1
    }
}

pub open spec fn fx_add_s(a: int, b: int) -> int {
    clip(a + b)
}

pub open spec fn fx_sub_s(a: int, b: int) -> int {
    clip(a - b)
}

pub open spec fn fx_neg_s(a: int) -> int {
    clip(-a)
}

/// Fixed-point product: the exact integer product rescaled by `SCALE`.
pub open spec fn fx_mul_s(a: int, b: int) -> int {
    clip(tdiv(a * b, SCALE as int))
}

/// Fixed-point quotient, 0 for a zero divisor.
pub open spec fn fx_div_s(a: int, b: int) -> int {
    if b == 0 {
        0
    } else {
        clip(tdiv(a * SCALE, b))
    }
}

/// Floor of the nonnegative square root of `n` (0 for negative `n`).
pub open spec fn sqrt_floor(n: int) -> int
    decreases n,
{
    if n <= 0 {
        0
    } else {
        let r = sqrt_floor(n - 1);
        if (r + 1) * (r + 1) <= n {
            r + 1
        } else {
            r
        }
    }
}

/// Fixed-point square root of a scalar: `sqrt(a/SCALE)` scaled back up,
/// which is the integer square root of `a * SCALE`; 0 for negative `a`.
pub open spec fn fx_sqrt_s(a: int) -> int {
    if a <= 0 {
        0
    } else {
        clip(sqrt_floor(a * SCALE))
    }
}

pub proof fn lemma_sqrt_floor_bounds(n: int)
    requires
        n >= 0,
    ensures
        sqrt_floor(n) >= 0,
        sqrt_floor(n) * sqrt_floor(n) <= n,
        n < (sqrt_floor(n) + 1) * (sqrt_floor(n) + 1),
    decreases n,
{
    if n == 0 {
    } else {
        lemma_sqrt_floor_bounds(n - 1);
        let r = sqrt_floor(n - 1);
        if (r + 1) * (r + 1) <= n {
            assert(n <= (r + 1) * (r + 1)) by {
                assert(n - 1 < (r + 1) * (r + 1));
            }
            assert((r + 2) * (r + 2) > (r + 1) * (r + 1)) by (nonlinear_arith)
                requires r >= 0;
        } else {
        }
    }
}

pub proof fn lemma_sqrt_floor_unique(n: int, r: int)
    requires
        n >= 0,
        r >= 0,
        r * r <= n,
        n < (r + 1) * (r + 1),
    ensures
        r == sqrt_floor(n),
{
    let s = sqrt_floor(n);
    lemma_sqrt_floor_bounds(n);
    if r < s {
        assert((r + 1) * (r + 1) <= s * s) by (nonlinear_arith)
            requires 0 <= r, r + 1 <= s;
        assert(false);
    }
    if s < r {
        assert((s + 1) * (s + 1) <= r * r) by (nonlinear_arith)
            requires 0 <= s, s + 1 <= r;
        assert(false);
    }
}

/// The product of two 64-bit values stays far inside the 128-bit range.
proof fn lemma_i64_mul_fits(a: int, b: int) by (nonlinear_arith)
    requires
        -0x8000_0000_0000_0000 <= a <= 0x7FFF_FFFF_FFFF_FFFF,
        -0x8000_0000_0000_0000 <= b <= 0x7FFF_FFFF_FFFF_FFFF,
    ensures
        -0x4000_0000_0000_0000_0000_0000_0000_0000 <= a * b
            <= 0x4000_0000_0000_0000_0000_0000_0000_0000,
{
}

/// Clips an `i128` intermediate into the scalar band.
pub(crate) fn clip128(x: i128) -> (r: i64)
    ensures
        r as int == clip(x as int),
        fx_ok(r as int),
{
    if x > FX_MAX as i128 {
        FX_MAX
    } else if x < -(FX_MAX as i128) {
        -FX_MAX
    } else {
        x as i64
    }
}

/// Truncated `i128` division.
pub(crate) fn tdiv128(n: i128, d: i128) -> (q: i128)
    requires
        d != 0,
        n > i128::MIN,
        d > i128::MIN,
    ensures
        q as int == tdiv(n as int, d as int),
{
    let nn: i128 = if n >= 0 { n } else { -n };
    let dd: i128 = if d >= 0 { d } else { -d };
    proof {
        assert(0 <= nn as int / dd as int <= nn) by (nonlinear_arith)
            requires nn >= 0, dd >= 1;
    }
    let m: i128 = nn.checked_div(dd).unwrap();
    if (n < 0) != (d < 0) {
        -m
    } else {
        m
    }
}

pub fn fx_add(a: i64, b: i64) -> (r: i64)
    ensures
        r as int == fx_add_s(a as int, b as int),
{
    clip128(a as i128 + b as i128)
}

pub fn fx_sub(a: i64, b: i64) -> (r: i64)
    ensures
        r as int == fx_sub_s(a as int, b as int),
{
    clip128(a as i128 - b as i128)
}

pub fn fx_neg(a: i64) -> (r: i64)
    ensures
        r as int == fx_neg_s(a as int),
{
    clip128(-(a as i128))
}

pub fn fx_mul(a: i64, b: i64) -> (r: i64)
    ensures
        r as int == fx_mul_s(a as int, b as int),
{
    proof {
        lemma_i64_mul_fits(a as int, b as int);
    }
    let p: i128 = (a as i128) * (b as i128);
    clip128(tdiv128(p, SCALE as i128))
}

pub fn fx_div(a: i64, b: i64) -> (r: i64)
    ensures
        r as int == fx_div_s(a as int, b as int),
{
    if b == 0 {
        0
    } else {
        proof {
            lemma_i64_mul_fits(a as int, SCALE as int);
        }
        let p: i128 = (a as i128) * (SCALE as i128);
        clip128(tdiv128(p, b as i128))
    }
}

/// Nonnegative part of an integer, used as a termination measure for the
/// fixed-timestep recursion.
pub open spec fn pos_part(x: int) -> int {
    if x > 0 {
        x
    } else {
        0
    }
}

pub open spec fn fx_abs_s(a: int) -> int {
    if a < 0 {
        clip(-a)
    } else {
        clip(a)
    }
}

pub fn fx_abs(a: i64) -> (r: i64)
    ensures
        r as int == fx_abs_s(a as int),
{
    if a < 0 {
        clip128(-(a as i128))
    } else {
        clip128(a as i128)
    }
}

/// Raw integer division of a scalar by a plain count (no rescaling).
pub open spec fn fx_idiv_s(a: int, b: int) -> int {
    clip(tdiv(a, b))
}

pub fn fx_idiv(a: i64, b: i64) -> (r: i64)
    requires
        b != 0,
    ensures
        r as int == fx_idiv_s(a as int, b as int),
{
    clip128(tdiv128(a as i128, b as i128))
}

/// Integer square root by bisection.
pub(crate) fn isqrt_u128(n: u128) -> (r: u128)
    ensures
        r as int == sqrt_floor(n as int),
{
    let mut lo: u128 = 0;
    let mut hi: u128 = 0xFFFF_FFFF_FFFF_FFFF;
    if n < hi {
        hi = n;
        proof {
            assert((n as int) < (n as int + 1) * (n as int + 1)) by (nonlinear_arith)
                requires n as int >= 0;
        }
    } else {
        proof {
            assert((n as int) < (0xFFFF_FFFF_FFFF_FFFF + 1) * (0xFFFF_FFFF_FFFF_FFFF + 1)) by (nonlinear_arith)
                requires (n as int) < 0x1_0000_0000_0000_0000_0000_0000_0000_0000;
        }
    }
    while lo < hi
        invariant
            lo <= hi,
            hi <= 0xFFFF_FFFF_FFFF_FFFF,
            lo * lo <= n,
            n < (hi + 1) * (hi + 1),
        decreases hi - lo,
    {
        let mid: u128 = lo + (hi - lo + 1) / 2;
        proof {
            assert((mid as int * mid as int) < 0x1_0000_0000_0000_0000_0000_0000_0000_0000) by (nonlinear_arith)
                requires 0 <= mid as int <= 0xFFFF_FFFF_FFFF_FFFF;
        }
        if mid * mid <= n {
            lo = mid;
        } else {
            hi = mid - 1;
        }
    }
    proof {
        lemma_sqrt_floor_unique(n as int, lo as int);
    }
    lo
}

/// Fixed-point square root of a scalar, 0 for negative input.
pub fn fx_sqrt(a: i64) -> (r: i64)
    ensures
        r as int == fx_sqrt_s(a as int),
{
    if a <= 0 {
        0
    } else {
        proof {
            lemma_i64_mul_fits(a as int, SCALE as int);
        }
        let p: u128 = (a as u128) * (SCALE as u128);
        let s: u128 = isqrt_u128(p);
        proof {
            lemma_sqrt_floor_bounds(p as int);
            assert(s as int <= 4_000_000_000_000) by (nonlinear_arith)
                requires
                    s as int * s as int <= p as int,
                    (p as int) < 10_000_000_000_000_000_000_000_000,
                    s as int >= 0;
        }
        s as i64
    }
}

} // verus!
