//! Signed fixed-point arithmetic with 32 fractional bits, and the truncating
//! division it is built on. All plane coordinates and scales in this crate
//! are `i64` values measured in units of `1 / FIX_ONE`.

use vstd::prelude::*;
use vstd::arithmetic::div_mod::*;

verus! {

/// The fixed-point encoding of the plane value 1.0 (two to the 32nd power).
pub const FIX_ONE: i64 = 4294967296;

/// Arguments to `mul_tdiv` are kept below this bound (two to the 62nd power)
/// so that their product fits in an `i128`.
pub const MUL_ARG_BOUND: i128 = 4611686018427387904;

/// Truncating (round-toward-zero) division by a positive denominator: the
/// rounding that the machine's `/` performs on signed integers.
pub open spec fn tdiv(a: int, b: int) -> int
    recommends
        b > 0,
{
    if a >= 0 {
        a / b
    } else {
        -((-a) / b)
    }
}

/// `tdiv(a, b) * b` never passes `a` nor crosses zero: the quotient is the
/// exact ratio rounded toward zero, so it lies within one unit of it.
pub proof fn lemma_tdiv_bounds(a: int, b: int)
    requires
        b > 0,
    ensures
        a >= 0 ==> 0 <= tdiv(a, b) <= a && a - b < tdiv(a, b) * b <= a,
        a < 0 ==> a <= tdiv(a, b) <= 0 && a <= tdiv(a, b) * b < a + b,
{
    if a >= 0 {
        let q = a / b;
        lemma_div_pos_is_pos(a, b);
        lemma_div_nonincreasing(a, b);
        lemma_fundamental_div_mod(a, b);
        lemma_mod_bound(a, b);
        assert(a == b * q + a % b);
        assert(q * b == b * q) by (nonlinear_arith);
    } else {
        let q = (-a) / b;
        lemma_div_pos_is_pos(-a, b);
        lemma_div_nonincreasing(-a, b);
        lemma_fundamental_div_mod(-a, b);
        lemma_mod_bound(-a, b);
        assert(-a == b * q + (-a) % b);
        assert(q * b == b * q) by (nonlinear_arith);
        assert((-q) * b == -(q * b)) by (nonlinear_arith);
    }
}

/// Truncating division is an odd function of the numerator.
pub proof fn lemma_tdiv_neg(a: int, b: int)
    requires
        b > 0,
    ensures
        tdiv(-a, b) == -tdiv(a, b),
{
    if a == 0 {
        lemma_div_of0(b);
    }
}

/// Truncating division is monotone in the numerator.
pub proof fn lemma_tdiv_mono(a1: int, a2: int, b: int)
    requires
        a1 <= a2,
        b > 0,
    ensures
        tdiv(a1, b) <= tdiv(a2, b),
{
    if a1 >= 0 {
        lemma_div_is_ordered(a1, a2, b);
    } else if a2 < 0 {
        lemma_div_is_ordered(-a2, -a1, b);
    } else {
        lemma_tdiv_bounds(a1, b);
        lemma_tdiv_bounds(a2, b);
    }
}

/// Exact multiples divide without loss, whatever their sign.
pub proof fn lemma_tdiv_mul_exact(c: int, b: int)
    requires
        b > 0,
    ensures
        tdiv(c * b, b) == c,
{
    if c >= 0 {
        lemma_div_multiples_vanish(c, b);
        assert(c * b == b * c) by (nonlinear_arith);
    } else {
        lemma_div_multiples_vanish(c, b);
        assert(c * b == b * c) by (nonlinear_arith);
        assert(-(c * b) == (-c) * b) by (nonlinear_arith);
        lemma_div_multiples_vanish(-c, b);
        assert((-c) * b == b * (-c)) by (nonlinear_arith);
    }
}

/// A numerator bound carries over to the truncated quotient.
pub proof fn lemma_tdiv_abs_le(a: int, b: int, m: int)
    requires
        b > 0,
        -m <= a <= m,
        0 <= m,
    ensures
        -tdiv(m, b) <= tdiv(a, b) <= tdiv(m, b),
        0 <= tdiv(m, b) <= m,
{
    lemma_tdiv_mono(a, m, b);
    lemma_tdiv_mono(-m, a, b);
    lemma_tdiv_neg(m, b);
    lemma_tdiv_bounds(m, b);
}

/// Truncating division of an `i128` by a positive denominator.
pub fn tdiv_i128(a: i128, b: i128) -> (r: i128)
    requires
        b > 0,
    ensures
        r == tdiv(a as int, b as int),
{
    proof {
        if a >= 0 {
            lemma_div_pos_is_pos(a as int, b as int);
            lemma_div_nonincreasing(a as int, b as int);
        } else {
            lemma_div_pos_is_pos(-(a as int), b as int);
            lemma_div_nonincreasing(-(a as int), b as int);
        }
    }
    a / b
}

/// `a * b`, truncated toward zero after division by `d`: the one compound
/// arithmetic step the mapper, the controllers and the evaluator share.
pub fn mul_tdiv(a: i128, b: i128, d: i128) -> (r: i128)
    requires
        d > 0,
        -MUL_ARG_BOUND <= a <= MUL_ARG_BOUND,
        -MUL_ARG_BOUND <= b <= MUL_ARG_BOUND,
    ensures
        r == tdiv(a * b, d as int),
        -(MUL_ARG_BOUND * MUL_ARG_BOUND) <= r <= MUL_ARG_BOUND * MUL_ARG_BOUND,
{
    proof {
        assert(-(MUL_ARG_BOUND * MUL_ARG_BOUND) <= a * b <= MUL_ARG_BOUND
            * MUL_ARG_BOUND) by (nonlinear_arith)
            requires
                -MUL_ARG_BOUND <= a <= MUL_ARG_BOUND,
                -MUL_ARG_BOUND <= b <= MUL_ARG_BOUND,
        ;
        lemma_tdiv_abs_le(a as int * b as int, d as int, MUL_ARG_BOUND * MUL_ARG_BOUND);
    }
    let p: i128 = a * b;
    tdiv_i128(p, d)
}

} // verus!
