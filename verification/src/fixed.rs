//! Fixed-point scalars.
//!
//! Every scalar of this library (lengths, radii, smoothing factors, curve
//! parameters) is an `i64` counting ten-thousandths: the value `12500`
//! stands for `1.25`. All arithmetic is exact integer arithmetic, so each
//! function's contract can state the result it returns to the unit.

use vstd::prelude::*;
use vstd::arithmetic::div_mod::{
    lemma_div_is_ordered, lemma_div_is_ordered_by_denominator, lemma_div_pos_is_pos,
    lemma_fundamental_div_mod, lemma_div_basics_1,
};
use vstd::arithmetic::mul::lemma_mul_inequality;

verus! {

/// Number of fixed-point units in one: scalars count ten-thousandths.
pub const FX_ONE: i64 = 10000;

/// Largest dimension or radius the library accepts: ten million units.
pub const FX_MAX: i64 = 100_000_000_000;

/// Truncating (round-toward-zero) integer division: the value computed by
/// `div_trunc`. Agrees with flooring division `/` on non-negative numerators.
pub open spec fn spec_div_trunc(n: int, d: int) -> int {
    if n >= 0 {
        n / d
    } else {
        -((-n) / d)
    }
}

/// `(a * b) / d` stays below `k * b` whenever `a` is below `k * d`:
/// the workhorse bound for products of a scalar with a ratio.
pub proof fn lemma_muldiv_bound(a: int, b: int, d: int, k: int)
    requires
        0 <= a,
        0 <= b,
        0 < d,
        0 <= k,
        a <= k * d,
    ensures
        0 <= (a * b) / d,
        (a * b) / d <= k * b,
{
    lemma_mul_inequality(0, a, b);
    assert(0 * b == 0) by (nonlinear_arith);
    lemma_div_pos_is_pos(a * b, d);
    lemma_mul_inequality(a, k * d, b);
    assert((k * d) * b == d * (k * b)) by (nonlinear_arith);
    lemma_div_is_ordered(a * b, d * (k * b), d);
    vstd::arithmetic::div_mod::lemma_div_multiples_vanish(k * b, d);
}

/// A product of non-negative factors is bounded by the product of their bounds.
pub proof fn lemma_prod_le(a: int, amax: int, b: int, bmax: int)
    requires
        0 <= a <= amax,
        0 <= b <= bmax,
    ensures
        0 <= a * b <= amax * bmax,
{
    assert(0 <= a * b <= amax * bmax) by (nonlinear_arith)
        requires 0 <= a <= amax, 0 <= b <= bmax,
    ;
}

/// Computes `(a * b) / d` exactly, for non-negative operands. The quotient
/// bound in the precondition is what keeps the result inside `i64`.
pub fn muldiv(a: i64, b: i64, d: i64) -> (r: i64)
    requires
        0 <= a,
        0 <= b,
        0 < d,
        a * b <= d * 0x7fff_ffff_ffff_ffff,
    ensures
        r == (a * b) / (d as int),
        0 <= r,
        r * d <= a * b,
        a * b < (r + 1) * d,
        a <= d ==> r <= b,
        b <= d ==> r <= a,
        a <= 2 * d ==> r <= 2 * b,
        b <= 2 * d ==> r <= 2 * a,
{
    proof {
        lemma_mul_inequality(0, a as int, b as int);
        assert(0 * (b as int) == 0) by (nonlinear_arith);
        lemma_div_pos_is_pos((a as int) * (b as int), d as int);
        lemma_div_is_ordered(
            (a as int) * (b as int),
            (d as int) * 0x7fff_ffff_ffff_ffff,
            d as int,
        );
        vstd::arithmetic::div_mod::lemma_div_multiples_vanish(0x7fff_ffff_ffff_ffff, d as int);
        if a <= d {
            lemma_muldiv_bound(a as int, b as int, d as int, 1);
        }
        if b <= d {
            assert((b as int) * (a as int) == (a as int) * (b as int)) by (nonlinear_arith);
            lemma_muldiv_bound(b as int, a as int, d as int, 1);
        }
        if a <= 2 * d {
            lemma_muldiv_bound(a as int, b as int, d as int, 2);
        }
        if b <= 2 * d {
            assert((b as int) * (a as int) == (a as int) * (b as int)) by (nonlinear_arith);
            lemma_muldiv_bound(b as int, a as int, d as int, 2);
        }
    }
    let prod: u128 = (a as u128) * (b as u128);
    let q: u128 = prod / (d as u128);
    proof {
        let ab = (a as int) * (b as int);
        assert(prod == ab);
        assert(q == ab / (d as int));
        lemma_fundamental_div_mod(ab, d as int);
        vstd::arithmetic::div_mod::lemma_mod_bound(ab, d as int);
        assert((d as int) * (q as int) == (q as int) * (d as int)) by (nonlinear_arith);
        assert(((q as int) + 1) * (d as int) == (d as int) * (q as int) + (d as int))
            by (nonlinear_arith);
    }
    q as i64
}

/// Truncating division of a possibly negative numerator by a positive
/// divisor, matching `spec_div_trunc`.
pub fn div_trunc(n: i64, d: i64) -> (r: i64)
    requires
        0 < d,
        -0x7fff_ffff_ffff_ffff <= n,
    ensures
        r == spec_div_trunc(n as int, d as int),
{
    if n >= 0 {
        proof {
            lemma_div_pos_is_pos(n as int, d as int);
            lemma_div_is_ordered_by_denominator(n as int, 1, d as int);
            lemma_div_basics_1(n as int);
        }
        let q: u64 = (n as u64) / (d as u64);
        q as i64
    } else {
        let m: i64 = -n;
        proof {
            lemma_div_pos_is_pos(m as int, d as int);
            lemma_div_is_ordered_by_denominator(m as int, 1, d as int);
            lemma_div_basics_1(m as int);
        }
        let q: u64 = (m as u64) / (d as u64);
        -(q as i64)
    }
}

} // verus!
