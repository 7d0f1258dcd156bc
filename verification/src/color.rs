//! The color mapper: an iteration count becomes an RGBA color. The budget
//! itself maps to opaque black; any smaller count is colored by a smooth
//! polynomial palette in the normalized fraction `n = i / m`, each channel
//! rounded to the nearest integer and defensively clamped to a byte.
//!
//! With `n = i / m` the palette is
//! `r = round(9 (1-n) n^3 255)`, `g = round(15 (1-n)^2 n^2 255)`,
//! `b = round(8.5 (1-n)^3 n 255)`: cleared of the fraction these are exact
//! integer ratios, `9 * 255 = 2295`, `15 * 255 = 3825`, and for the blue
//! channel `2 * 8.5 * 255 = 4335` over a doubled denominator.

use vstd::prelude::*;

verus! {

/// Iteration budgets handed to the color mapper stay within this bound
/// (two to the 20th power) so that the channel polynomials fit in a `u128`.
pub const ITER_LIMIT: u32 = 1048576;

/// `a / d` rounded to the nearest integer, halves away from zero, for a
/// nonnegative numerator.
pub open spec fn round_div(a: int, d: int) -> int
    recommends
        a >= 0,
        d > 0,
{
    (a + d / 2) / d
}

/// Channel values are clamped to a byte after rounding.
pub open spec fn clamp255(x: int) -> int {
    if x > 255 {
        255
    } else {
        x
    }
}

/// Red channel of the palette: `9 (1-n) n^3` of the full byte range.
pub open spec fn red_channel(i: int, m: int) -> int {
    clamp255(round_div(2295 * (m - i) * i * i * i, m * m * m * m))
}

/// Green channel: `15 (1-n)^2 n^2` of the full byte range.
pub open spec fn green_channel(i: int, m: int) -> int {
    clamp255(round_div(3825 * (m - i) * (m - i) * i * i, m * m * m * m))
}

/// Blue channel: `8.5 (1-n)^3 n` of the full byte range.
pub open spec fn blue_channel(i: int, m: int) -> int {
    clamp255(round_div(4335 * (m - i) * (m - i) * (m - i) * i, 2 * (m * m * m * m)))
}

/// The color of iteration count `i` under budget `m`: opaque black at the
/// budget, the palette below it, always fully opaque.
pub open spec fn color_spec(i: int, m: int) -> (int, int, int, int)
    recommends
        0 <= i <= m,
{
    if i == m {
        (0, 0, 0, 255)
    } else {
        (red_channel(i, m), green_channel(i, m), blue_channel(i, m), 255)
    }
}

/// The RGBA color for iteration count `i` under budget `max_iterations`:
/// exactly the budget gives opaque black, anything below it the palette,
/// with every channel a byte and the alpha channel always 255.
pub fn color_map(i: u32, max_iterations: u32) -> (c: (u8, u8, u8, u8))
    requires
        1 <= max_iterations <= ITER_LIMIT,
        i <= max_iterations,
    ensures
        (c.0 as int, c.1 as int, c.2 as int, c.3 as int) == color_spec(
            i as int,
            max_iterations as int,
        ),
        c.3 == 255,
        i == max_iterations ==> c == (0u8, 0u8, 0u8, 255u8),
{
    if i == max_iterations {
        (0, 0, 0, 255)
    } else {
        let m: u128 = max_iterations as u128;
        let iv: u128 = i as u128;
        let a: u128 = m - iv;
        proof {
            lemma_channel_products_bounded(a as int, iv as int, m as int);
        }
        let d: u128 = m * m * m * m;
        let rn: u128 = 2295 * a * iv * iv * iv;
        let gn: u128 = 3825 * a * a * iv * iv;
        let bn: u128 = 4335 * a * a * a * iv;
        let r: u128 = (rn + d / 2) / d;
        let g: u128 = (gn + d / 2) / d;
        let d2: u128 = 2 * d;
        let b: u128 = (bn + d2 / 2) / d2;
        let rc: u8 = if r > 255 {
            255
        } else {
            r as u8
        };
        let gc: u8 = if g > 255 {
            255
        } else {
            g as u8
        };
        let bc: u8 = if b > 255 {
            255
        } else {
            b as u8
        };
        (rc, gc, bc, 255)
    }
}

/// Every partial product of the three channel polynomials stays within a
/// `u128` for factors bounded by `ITER_LIMIT`.
proof fn lemma_channel_products_bounded(a: int, iv: int, m: int)
    requires
        0 <= a <= ITER_LIMIT as int,
        0 <= iv <= ITER_LIMIT as int,
        1 <= m <= ITER_LIMIT as int,
    ensures
        1 <= m * m * m * m <= 0x10000000000000000000000,
        0 <= 2295 * a * iv * iv * iv <= 0x10000000000000000000000000,
        0 <= 3825 * a * a * iv * iv <= 0x10000000000000000000000000,
        0 <= 4335 * a * a * a * iv <= 0x10000000000000000000000000,
        0 <= 2295 * a <= 0x100000000000,
        0 <= 2295 * a * iv <= 0x10000000000000000,
        0 <= 2295 * a * iv * iv <= 0x1000000000000000000000,
        0 <= 3825 * a <= 0x100000000000,
        0 <= 3825 * a * a <= 0x10000000000000000,
        0 <= 3825 * a * a * iv <= 0x1000000000000000000000,
        0 <= 4335 * a <= 0x100000000000,
        0 <= 4335 * a * a <= 0x10000000000000000,
        0 <= 4335 * a * a * a <= 0x1000000000000000000000,
        1 <= m * m <= 0x10000000000,
        1 <= m * m * m <= 0x1000000000000000,
{
    assert(1 <= m * m <= 0x10000000000 && 1 <= m * m * m <= 0x1000000000000000 && 1 <= m * m * m
        * m <= 0x10000000000000000000000) by (nonlinear_arith)
        requires
            1 <= m <= 0x100000,
    ;
    assert(0 <= 2295 * a <= 0x100000000000 && 0 <= 2295 * a * iv <= 0x10000000000000000 && 0
        <= 2295 * a * iv * iv <= 0x1000000000000000000000 && 0 <= 2295 * a * iv * iv * iv
        <= 0x10000000000000000000000000) by (nonlinear_arith)
        requires
            0 <= a <= 0x100000,
            0 <= iv <= 0x100000,
    ;
    assert(0 <= 3825 * a <= 0x100000000000 && 0 <= 3825 * a * a <= 0x10000000000000000 && 0 <= 3825
        * a * a * iv <= 0x1000000000000000000000 && 0 <= 3825 * a * a * iv * iv
        <= 0x10000000000000000000000000) by (nonlinear_arith)
        requires
            0 <= a <= 0x100000,
            0 <= iv <= 0x100000,
    ;
    assert(0 <= 4335 * a <= 0x100000000000 && 0 <= 4335 * a * a <= 0x10000000000000000 && 0 <= 4335
        * a * a * a <= 0x1000000000000000000000 && 0 <= 4335 * a * a * a * iv
        <= 0x10000000000000000000000000) by (nonlinear_arith)
        requires
            0 <= a <= 0x100000,
            0 <= iv <= 0x100000,
    ;
}

} // verus!
