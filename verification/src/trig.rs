//! Trigonometry over fixed-point scalars.
//!
//! Angles are held in fixed-point degrees (`450000` is 45 degrees),
//! converted to fixed-point radians at the point of use, exactly as the
//! curve construction calls for. Sine and cosine are the truncated Taylor
//! polynomials evaluated in fixed point; each function's contract states
//! the exact integer it returns. The corner geometry only ever needs
//! angles between 0 and 45 degrees, so that is the domain stated here.

use vstd::prelude::*;
use vstd::arithmetic::div_mod::lemma_div_is_ordered;
use vstd::arithmetic::mul::lemma_mul_inequality;
use crate::fixed::{muldiv, div_trunc, FX_ONE};

verus! {

/// Pi in fixed point, to the unit: 3.1416.
pub const PI_FX: i64 = 31416;

/// The square root of two in fixed point, to the unit: 1.4142.
pub const SQRT2_FX: i64 = 14142;

/// Degrees to radians: `d * pi / 180`, both in fixed point.
pub open spec fn spec_deg2rad(d: int) -> int {
    (d * 31416) / 1800000
}

/// The fixed-point sine polynomial `x - x^3/6 + x^5/120`.
pub open spec fn spec_sin_fx(x: int) -> int {
    let x2 = (x * x) / 10000;
    let x3 = (x2 * x) / 10000;
    let x5 = (x3 * x2) / 10000;
    x - x3 / 6 + x5 / 120
}

/// The fixed-point cosine polynomial `1 - x^2/2 + x^4/24 - x^6/720`.
pub open spec fn spec_cos_fx(x: int) -> int {
    let x2 = (x * x) / 10000;
    let x4 = (x2 * x2) / 10000;
    let x6 = (x4 * x2) / 10000;
    10000 - x2 / 2 + x4 / 24 - x6 / 720
}

/// Tangent as the fixed-point quotient of sine by cosine.
pub open spec fn spec_tan_fx(x: int) -> int {
    (spec_sin_fx(x) * 10000) / spec_cos_fx(x)
}

/// Converts fixed-point degrees to fixed-point radians.
pub fn deg2rad(d: i64) -> (r: i64)
    requires
        0 <= d <= 450000,
    ensures
        r == spec_deg2rad(d as int),
        0 <= r <= 7854,
        d <= 225000 ==> r <= 3927,
{
    proof {
        lemma_mul_inequality(d as int, 450000, 31416);
        lemma_div_is_ordered((d as int) * 31416, 450000int * 31416, 1800000);
        if d <= 225000 {
            lemma_mul_inequality(d as int, 225000, 31416);
            lemma_div_is_ordered((d as int) * 31416, 225000int * 31416, 1800000);
        }
        assert((d as int) * 31416 <= 1800000 * 0x7fff_ffff_ffff_ffff) by (nonlinear_arith)
            requires 0 <= d <= 450000,
        ;
    }
    muldiv(d, 31416, 1800000)
}

/// Fixed-point sine on angles up to 45 degrees in radians.
pub fn sin_fx(x: i64) -> (r: i64)
    requires
        0 <= x <= 7854,
    ensures
        r == spec_sin_fx(x as int),
        0 <= r <= 7905,
{
    proof {
        assert((x as int) * (x as int) <= 61685316) by (nonlinear_arith)
            requires 0 <= x <= 7854,
        ;
    }
    let x2: i64 = muldiv(x, x, FX_ONE);
    proof {
        lemma_div_is_ordered((x as int) * (x as int), 61685316, 10000);
        assert((x2 as int) * (x as int) <= 10000 * 0x7fff_ffff_ffff_ffff) by (nonlinear_arith)
            requires 0 <= x2 <= 6168, 0 <= x <= 7854,
        ;
    }
    let x3: i64 = muldiv(x2, x, FX_ONE);
    proof {
        assert((x3 as int) * (x2 as int) <= 10000 * 0x7fff_ffff_ffff_ffff) by (nonlinear_arith)
            requires 0 <= x3 <= 7854, 0 <= x2 <= 6168,
        ;
    }
    let x5: i64 = muldiv(x3, x2, FX_ONE);
    let t1: i64 = div_trunc(x3, 6);
    let t2: i64 = div_trunc(x5, 120);
    proof {
        lemma_div_is_ordered(x3 as int, x as int, 6);
        vstd::arithmetic::div_mod::lemma_div_pos_is_pos(x3 as int, 6);
        vstd::arithmetic::div_mod::lemma_div_pos_is_pos(x5 as int, 120);
        lemma_div_is_ordered(x5 as int, 6168, 120);
        lemma_div_is_ordered(x as int, 7854, 6);
    }
    x - t1 + t2
}

/// Fixed-point cosine on angles up to 45 degrees in radians.
pub fn cos_fx(x: i64) -> (r: i64)
    requires
        0 <= x <= 7854,
    ensures
        r == spec_cos_fx(x as int),
        6913 <= r <= 10158,
{
    proof {
        assert((x as int) * (x as int) <= 61685316) by (nonlinear_arith)
            requires 0 <= x <= 7854,
        ;
    }
    let x2: i64 = muldiv(x, x, FX_ONE);
    proof {
        lemma_div_is_ordered((x as int) * (x as int), 61685316, 10000);
        assert((x2 as int) * (x2 as int) <= 10000 * 0x7fff_ffff_ffff_ffff) by (nonlinear_arith)
            requires 0 <= x2 <= 6168,
        ;
        assert((x2 as int) * (x2 as int) <= 38044224) by (nonlinear_arith)
            requires 0 <= x2 <= 6168,
        ;
    }
    let x4: i64 = muldiv(x2, x2, FX_ONE);
    proof {
        lemma_div_is_ordered((x2 as int) * (x2 as int), 38044224, 10000);
        assert((x4 as int) * (x2 as int) <= 10000 * 0x7fff_ffff_ffff_ffff) by (nonlinear_arith)
            requires 0 <= x4 <= 3804, 0 <= x2 <= 6168,
        ;
        assert((x4 as int) * (x2 as int) <= 23463072) by (nonlinear_arith)
            requires 0 <= x4 <= 3804, 0 <= x2 <= 6168,
        ;
    }
    let x6: i64 = muldiv(x4, x2, FX_ONE);
    let t2: i64 = div_trunc(x2, 2);
    let t4: i64 = div_trunc(x4, 24);
    let t6: i64 = div_trunc(x6, 720);
    proof {
        lemma_div_is_ordered(x2 as int, 6168, 2);
        lemma_div_is_ordered(x4 as int, 3804, 24);
        lemma_div_is_ordered((x4 as int) * (x2 as int), 23463072, 10000);
        lemma_div_is_ordered(x6 as int, 2346, 720);
        vstd::arithmetic::div_mod::lemma_div_pos_is_pos(x2 as int, 2);
        vstd::arithmetic::div_mod::lemma_div_pos_is_pos(x4 as int, 24);
        vstd::arithmetic::div_mod::lemma_div_pos_is_pos(x6 as int, 720);
    }
    FX_ONE - t2 + t4 - t6
}

/// Fixed-point tangent on angles up to 45 degrees in radians.
pub fn tan_fx(x: i64) -> (r: i64)
    requires
        0 <= x <= 7854,
    ensures
        r == spec_tan_fx(x as int),
        0 <= r <= 11435,
{
    let s: i64 = sin_fx(x);
    let c: i64 = cos_fx(x);
    proof {
        assert((s as int) * 10000 <= (c as int) * 0x7fff_ffff_ffff_ffff) by (nonlinear_arith)
            requires 0 <= s <= 7905, 6913 <= c,
        ;
        lemma_mul_inequality(s as int, 7905, 10000);
        lemma_div_is_ordered((s as int) * 10000, 7905int * 10000, c as int);
        lemma_div_is_ordered_denom_helper(7905int * 10000, 6913, c as int);
    }
    muldiv(s, FX_ONE, c)
}

/// Shrinking the denominator can only grow a non-negative quotient.
proof fn lemma_div_is_ordered_denom_helper(x: int, y: int, z: int)
    requires
        0 <= x,
        1 <= y <= z,
    ensures
        x / z <= x / y,
{
    vstd::arithmetic::div_mod::lemma_div_is_ordered_by_denominator(x, y, z);
}

} // verus!
