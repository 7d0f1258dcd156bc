//! The escape-time evaluator: for one complex point `c`, how many
//! applications of `z <- z*z + c` starting from zero it takes before the
//! squared magnitude of `z` reaches 4, capped at a fixed iteration budget.
//! A point that never escapes within the budget gets the budget itself.

use vstd::prelude::*;
use crate::fixed::FIX_ONE;
use crate::fixed::tdiv;
use crate::fixed::tdiv_i128;
use crate::fixed::lemma_tdiv_bounds;
use crate::fixed::lemma_tdiv_mul_exact;
use crate::coord::COORD_BOUND;
use vstd::arithmetic::div_mod::lemma_div_of0;

verus! {

/// The fixed iteration budget: higher is more detailed but slower.
pub const MAX_ITERATIONS: u32 = 512;

/// The squared escape radius, 4, in doubled fixed point (64 fractional
/// bits): products of two fixed-point values carry twice the fractional
/// bits.
pub const ESCAPE_THRESHOLD: i128 = 73786976294838206464;

/// Orbit values stay strictly inside this bound (two to the 57th power)
/// throughout the iteration.
pub const ORBIT_BOUND: i128 = 144115188075855872;

/// Squared magnitude of `z`, in doubled fixed point.
pub open spec fn mag2(zx: int, zy: int) -> int {
    zx * zx + zy * zy
}

/// `z` is proven to diverge once its squared magnitude reaches 4.
pub open spec fn escaped(zx: int, zy: int) -> bool {
    mag2(zx, zy) >= ESCAPE_THRESHOLD
}

/// Real part of `z*z + c`: the products are scaled back down by one
/// fixed-point unit, rounding toward zero.
pub open spec fn step_re(zx: int, zy: int, cx: int) -> int {
    tdiv(zx * zx - zy * zy, FIX_ONE as int) + cx
}

/// Imaginary part of `z*z + c`.
pub open spec fn step_im(zx: int, zy: int, cy: int) -> int {
    tdiv(2 * zx * zy, FIX_ONE as int) + cy
}

/// Iterations taken from the point `z` on with the given budget left: zero
/// once `z` has escaped or the budget is spent, else one more than the rest
/// of the orbit allows.
pub open spec fn escape_from(cx: int, cy: int, zx: int, zy: int, budget: nat) -> nat
    decreases budget,
{
    if budget == 0 || escaped(zx, zy) {
        0
    } else {
        1 + escape_from(cx, cy, step_re(zx, zy, cx), step_im(zx, zy, cy), (budget - 1) as nat)
    }
}

/// The iteration count of the point `c`: the orbit starts at zero.
pub open spec fn escape_count(cx: int, cy: int, max: nat) -> nat {
    escape_from(cx, cy, 0, 0, max)
}

/// The count never exceeds the budget.
pub proof fn lemma_escape_from_le(cx: int, cy: int, zx: int, zy: int, budget: nat)
    ensures
        escape_from(cx, cy, zx, zy, budget) <= budget,
    decreases budget,
{
    if budget > 0 && !escaped(zx, zy) {
        lemma_escape_from_le(cx, cy, step_re(zx, zy, cx), step_im(zx, zy, cy), (budget
            - 1) as nat);
    }
}

/// The orbit of `c = 0` stays at zero forever, so the origin exhausts any
/// budget: the count is exactly the budget.
pub proof fn lemma_origin_never_escapes(max: nat)
    ensures
        escape_count(0, 0, max) == max,
    decreases max,
{
    if max > 0 {
        lemma_div_of0(FIX_ONE as int);
        assert(step_re(0, 0, 0) == 0 && step_im(0, 0, 0) == 0);
        lemma_origin_never_escapes((max - 1) as nat);
    }
}

/// The orbit of `c = -1` (the center of the period-2 bulb) alternates
/// between 0 and -1 and never escapes: the count is exactly the budget,
/// whichever of the two orbit points the iteration stands at.
pub proof fn lemma_minus_one_never_escapes(max: nat)
    ensures
        escape_count(-(FIX_ONE as int), 0, max) == max,
        escape_from(-(FIX_ONE as int), 0, -(FIX_ONE as int), 0, max) == max,
    decreases max,
{
    let u = FIX_ONE as int;
    if max > 0 {
        lemma_div_of0(u);
        assert(step_re(0, 0, -u) == -u && step_im(0, 0, 0) == 0);
        assert(-u * -u == u * u && -u * 0 == 0 && 2 * (-u * 0) == 0) by (nonlinear_arith);
        lemma_tdiv_mul_exact(u, u);
        assert(step_re(-u, 0, -u) == 0 && step_im(-u, 0, 0) == 0);
        assert(mag2(-u, 0) == u * u);
        assert(u * u < ESCAPE_THRESHOLD) by (nonlinear_arith)
            requires
                u == FIX_ONE as int,
        ;
        lemma_minus_one_never_escapes((max - 1) as nat);
    }
}

/// The iteration count at which `c = (cx, cy)` is proven to diverge, capped
/// at `max_iterations`: the escape-time algorithm, deterministic and pure.
pub fn escape_time(cx: i64, cy: i64, max_iterations: u32) -> (n: u32)
    requires
        -COORD_BOUND <= cx <= COORD_BOUND,
        -COORD_BOUND <= cy <= COORD_BOUND,
    ensures
        n == escape_count(cx as int, cy as int, max_iterations as nat),
        n <= max_iterations,
{
    let cx1: i128 = cx as i128;
    let cy1: i128 = cy as i128;
    let mut zx: i128 = 0;
    let mut zy: i128 = 0;
    let mut i: u32 = 0;
    while i < max_iterations
        invariant
            i <= max_iterations,
            cx1 == cx as i128,
            cy1 == cy as i128,
            -COORD_BOUND <= cx <= COORD_BOUND,
            -COORD_BOUND <= cy <= COORD_BOUND,
            -ORBIT_BOUND <= zx <= ORBIT_BOUND,
            -ORBIT_BOUND <= zy <= ORBIT_BOUND,
            escape_count(cx as int, cy as int, max_iterations as nat) == i + escape_from(
                cx as int,
                cy as int,
                zx as int,
                zy as int,
                (max_iterations - i) as nat,
            ),
        ensures
            escaped(zx as int, zy as int) || i == max_iterations,
        decreases max_iterations - i,
    {
        proof {
            assert(zx * zx <= ORBIT_BOUND * ORBIT_BOUND && zy * zy <= ORBIT_BOUND * ORBIT_BOUND
                && 0 <= zx * zx && 0 <= zy * zy) by (nonlinear_arith)
                requires
                    -ORBIT_BOUND <= zx <= ORBIT_BOUND,
                    -ORBIT_BOUND <= zy <= ORBIT_BOUND,
            ;
        }
        let m2: i128 = zx * zx + zy * zy;
        if m2 >= ESCAPE_THRESHOLD {
            break;
        }
        proof {
            assert(-8589934592 <= zx <= 8589934592 && -8589934592 <= zy <= 8589934592)
                by (nonlinear_arith)
                requires
                    zx * zx + zy * zy < ESCAPE_THRESHOLD,
                    0 <= zx * zx,
                    0 <= zy * zy,
                    zx * zx <= zx * zx + zy * zy,
                    zy * zy <= zx * zx + zy * zy,
            ;
            assert(-2 * ESCAPE_THRESHOLD <= 2 * zx * zy <= 2 * ESCAPE_THRESHOLD)
                by (nonlinear_arith)
                requires
                    -8589934592 <= zx <= 8589934592,
                    -8589934592 <= zy <= 8589934592,
            ;
            lemma_tdiv_bounds(zx as int * zx as int - zy as int * zy as int, FIX_ONE as int);
            lemma_tdiv_bounds(2 * zx as int * zy as int, FIX_ONE as int);
        }
        let nzx: i128 = tdiv_i128(zx * zx - zy * zy, FIX_ONE as i128) + cx1;
        let nzy: i128 = tdiv_i128(2 * zx * zy, FIX_ONE as i128) + cy1;
        proof {
            let b = (max_iterations - i) as nat;
            assert(escape_from(cx as int, cy as int, zx as int, zy as int, b) == 1 + escape_from(
                cx as int,
                cy as int,
                step_re(zx as int, zy as int, cx as int),
                step_im(zx as int, zy as int, cy as int),
                (b - 1) as nat,
            ));
        }
        zx = nzx;
        zy = nzy;
        i = i + 1;
    }
    i
}

} // verus!
