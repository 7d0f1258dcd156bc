//! The coordinate mapper: the affine correspondence between pixel indices and
//! complex-plane points under a given view and buffer size. Pixel column 0
//! maps to the left edge, column `w - 1` to the right edge; pixel row 0 maps
//! to the top (largest imaginary part), row `h - 1` to the bottom. The
//! vertical extent is the scale corrected by the aspect ratio. A one-column
//! or one-row buffer is degenerate and maps to the view center.

use vstd::prelude::*;
use crate::fixed::tdiv;
use crate::fixed::mul_tdiv;
use crate::fixed::tdiv_i128;
use crate::fixed::lemma_tdiv_bounds;
use crate::fixed::lemma_tdiv_mono;
use crate::fixed::lemma_tdiv_mul_exact;
use vstd::arithmetic::div_mod::lemma_div_plus_one;
use crate::viewport::ViewState;
use crate::viewport::SCALE_MAX;

verus! {

/// Largest buffer dimension the renderer accepts, in pixels.
pub const MAX_DIM: usize = 16384;

/// Every plane coordinate the mapper can produce lies within this bound
/// (two to the 56th power), which keeps the escape iteration far from
/// overflow.
pub const COORD_BOUND: i64 = 72057594037927936;

/// The buffer dimensions are usable.
pub open spec fn dims_ok(w: int, h: int) -> bool {
    1 <= w <= MAX_DIM && 1 <= h <= MAX_DIM
}

/// Vertical plane extent of the visible region: the scale divided by the
/// width/height aspect ratio.
pub open spec fn plane_height(v: ViewState, w: int, h: int) -> int {
    tdiv(v.scale * h, w)
}

/// Left edge of the visible region.
pub open spec fn x_min(v: ViewState) -> int {
    v.center_re - tdiv(v.scale as int, 2)
}

/// Right edge: the left edge plus the scale, so the horizontal span is
/// exactly the scale.
pub open spec fn x_max(v: ViewState) -> int {
    x_min(v) + v.scale
}

/// Bottom edge of the visible region.
pub open spec fn y_min(v: ViewState, w: int, h: int) -> int {
    v.center_im - tdiv(plane_height(v, w, h), 2)
}

/// Top edge: the bottom edge plus the full vertical extent.
pub open spec fn y_max(v: ViewState, w: int, h: int) -> int {
    y_min(v, w, h) + plane_height(v, w, h)
}

/// Real part of the plane point under pixel column `x`: the affine map that
/// sends column 0 to `x_min` and column `w - 1` to `x_max`.
pub open spec fn map_px(v: ViewState, w: int, x: int) -> int {
    if w <= 1 {
        v.center_re as int
    } else {
        x_min(v) + tdiv(x * v.scale, w - 1)
    }
}

/// Imaginary part of the plane point under pixel row `y`: row 0 is the top
/// of the image, so it maps to `y_max` and increasing rows walk down to
/// `y_min`.
pub open spec fn map_py(v: ViewState, w: int, h: int, y: int) -> int {
    if h <= 1 {
        v.center_im as int
    } else {
        y_max(v, w, h) - tdiv(y * plane_height(v, w, h), h - 1)
    }
}

/// The mapped point of every pixel lies inside the visible window, and so
/// within `COORD_BOUND`.
pub proof fn lemma_map_in_window(v: ViewState, w: int, h: int, x: int, y: int)
    requires
        v.well_formed(),
        dims_ok(w, h),
        0 <= x < w,
        0 <= y < h,
    ensures
        0 <= plane_height(v, w, h) <= SCALE_MAX as int * MAX_DIM as int,
        x_min(v) <= map_px(v, w, x) <= x_max(v),
        y_min(v, w, h) <= map_py(v, w, h, y) <= y_max(v, w, h),
        -COORD_BOUND <= map_px(v, w, x) <= COORD_BOUND,
        -COORD_BOUND <= map_py(v, w, h, y) <= COORD_BOUND,
{
    let s = v.scale as int;
    assert(0 <= s * h <= SCALE_MAX as int * MAX_DIM as int) by (nonlinear_arith)
        requires
            0 < s <= SCALE_MAX as int,
            1 <= h <= MAX_DIM as int,
    ;
    lemma_tdiv_bounds(s * h, w);
    let ph = plane_height(v, w, h);
    lemma_tdiv_bounds(s, 2);
    lemma_tdiv_bounds(ph, 2);
    if w > 1 {
        assert(0 <= x * s <= (w - 1) * s) by (nonlinear_arith)
            requires
                0 <= x <= w - 1,
                0 < s,
        ;
        lemma_tdiv_bounds(x * s, w - 1);
        lemma_tdiv_mono(x * s, (w - 1) * s, w - 1);
        assert((w - 1) * s == s * (w - 1)) by (nonlinear_arith);
        lemma_tdiv_mul_exact(s, w - 1);
    }
    if h > 1 {
        assert(0 <= y * ph <= (h - 1) * ph) by (nonlinear_arith)
            requires
                0 <= y <= h - 1,
                0 <= ph,
        ;
        lemma_tdiv_bounds(y * ph, h - 1);
        lemma_tdiv_mono(y * ph, (h - 1) * ph, h - 1);
        assert((h - 1) * ph == ph * (h - 1)) by (nonlinear_arith);
        lemma_tdiv_mul_exact(ph, h - 1);
    }
}

/// The horizontal image of pixel column `x` scaled by `w - 1`: the exact
/// affine map that `map_px` rounds. Its slope is the scale.
pub open spec fn map_px_exact(v: ViewState, w: int, x: int) -> int {
    x_min(v) * (w - 1) + x * v.scale
}

/// The vertical image of pixel row `y` scaled by `h - 1`: the exact affine
/// map that `map_py` rounds. Its slope is the negated plane height.
pub open spec fn map_py_exact(v: ViewState, w: int, h: int, y: int) -> int {
    y_max(v, w, h) * (h - 1) - y * plane_height(v, w, h)
}

/// Corner pixels map exactly onto the window edges: pixel `(0, 0)` to
/// `(x_min, y_max)` and pixel `(w - 1, h - 1)` to `(x_max, y_min)`, with no
/// rounding at all.
pub proof fn lemma_map_corners(v: ViewState, w: int, h: int)
    requires
        v.well_formed(),
        dims_ok(w, h),
        w > 1,
        h > 1,
    ensures
        map_px(v, w, 0) == x_min(v),
        map_px(v, w, w - 1) == x_max(v),
        map_py(v, w, h, 0) == y_max(v, w, h),
        map_py(v, w, h, h - 1) == y_min(v, w, h),
{
    let s = v.scale as int;
    let ph = plane_height(v, w, h);
    assert(0 * s == 0 && 0 * ph == 0) by (nonlinear_arith);
    lemma_tdiv_mul_exact(0, w - 1);
    lemma_tdiv_mul_exact(0, h - 1);
    assert((w - 1) * s == s * (w - 1)) by (nonlinear_arith);
    lemma_tdiv_mul_exact(s, w - 1);
    assert((h - 1) * ph == ph * (h - 1)) by (nonlinear_arith);
    lemma_tdiv_mul_exact(ph, h - 1);
}

/// For a fixed view the mapper is monotone in the pixel column, and strictly
/// so once the scale is at least one fixed-point unit per pixel step; below
/// that the precision floor makes neighboring columns coincide.
pub proof fn lemma_map_px_monotone(v: ViewState, w: int, x1: int, x2: int)
    requires
        v.well_formed(),
        w > 1,
        0 <= x1 < x2,
    ensures
        map_px(v, w, x1) <= map_px(v, w, x2),
        v.scale >= w - 1 ==> map_px(v, w, x1) < map_px(v, w, x2),
{
    let s = v.scale as int;
    assert(x1 * s <= x2 * s && 0 <= x1 * s) by (nonlinear_arith)
        requires
            0 <= x1 < x2,
            s > 0,
    ;
    lemma_tdiv_mono(x1 * s, x2 * s, w - 1);
    if s >= w - 1 {
        assert(x2 * s - x1 * s == (x2 - x1) * s && (x2 - x1) * s >= 1 * s) by (nonlinear_arith)
            requires
                x1 < x2,
                s > 0,
        ;
        assert(x1 * s + (w - 1) <= x2 * s);
        lemma_div_plus_one(x1 * s, w - 1);
        assert(tdiv(x1 * s + (w - 1), w - 1) == tdiv(x1 * s, w - 1) + 1);
        lemma_tdiv_mono(x1 * s + (w - 1), x2 * s, w - 1);
    }
}

/// For a fixed view the mapper is antitone in the pixel row, because row 0
/// is the top of the image while increasing imaginary parts point up;
/// strictly so once the plane height is at least one unit per pixel step.
pub proof fn lemma_map_py_antitone(v: ViewState, w: int, h: int, y1: int, y2: int)
    requires
        v.well_formed(),
        dims_ok(w, h),
        h > 1,
        0 <= y1 < y2,
    ensures
        map_py(v, w, h, y1) >= map_py(v, w, h, y2),
        plane_height(v, w, h) >= h - 1 ==> map_py(v, w, h, y1) > map_py(v, w, h, y2),
{
    let ph = plane_height(v, w, h);
    assert(0 <= v.scale * h) by (nonlinear_arith)
        requires
            v.scale > 0,
            h > 0,
    ;
    lemma_tdiv_bounds(v.scale * h, w as int);
    assert(y1 * ph <= y2 * ph && 0 <= y1 * ph) by (nonlinear_arith)
        requires
            0 <= y1 < y2,
            ph >= 0,
    ;
    lemma_tdiv_mono(y1 * ph, y2 * ph, h - 1);
    if ph >= h - 1 {
        assert(y2 * ph - y1 * ph == (y2 - y1) * ph && (y2 - y1) * ph >= 1 * ph) by (nonlinear_arith)
            requires
                y1 < y2,
                ph >= 0,
        ;
        assert(y1 * ph + (h - 1) <= y2 * ph);
        lemma_div_plus_one(y1 * ph, h - 1);
        assert(tdiv(y1 * ph + (h - 1), h - 1) == tdiv(y1 * ph, h - 1) + 1);
        lemma_tdiv_mono(y1 * ph + (h - 1), y2 * ph, h - 1);
    }
}

/// The mapper is affine up to the fixed-point rounding: scaled by `w - 1`
/// (or `h - 1`), each mapped coordinate lies within one pixel step of the
/// exact affine image, whose slope per column is the scale and per row the
/// negated plane height.
pub proof fn lemma_map_affine(v: ViewState, w: int, h: int, x: int, y: int)
    requires
        v.well_formed(),
        dims_ok(w, h),
        w > 1,
        h > 1,
        0 <= x,
        0 <= y,
    ensures
        map_px_exact(v, w, x + 1) - map_px_exact(v, w, x) == v.scale,
        map_py_exact(v, w, h, y + 1) - map_py_exact(v, w, h, y) == -plane_height(v, w, h),
        map_px_exact(v, w, x) - (w - 1) < map_px(v, w, x) * (w - 1) <= map_px_exact(v, w, x),
        map_py_exact(v, w, h, y) <= map_py(v, w, h, y) * (h - 1) < map_py_exact(v, w, h, y) + (h
            - 1),
{
    let s = v.scale as int;
    let ph = plane_height(v, w, h);
    assert((x + 1) * s - x * s == s) by (nonlinear_arith);
    assert((y + 1) * ph - y * ph == ph) by (nonlinear_arith);
    assert(0 <= x * s) by (nonlinear_arith)
        requires
            0 <= x,
            s > 0,
    ;
    assert(0 <= v.scale * h) by (nonlinear_arith)
        requires
            v.scale > 0,
            h > 0,
    ;
    lemma_tdiv_bounds(v.scale * h, w as int);
    assert(0 <= y * ph) by (nonlinear_arith)
        requires
            0 <= y,
            ph >= 0,
    ;
    lemma_tdiv_bounds(x * s, w - 1);
    lemma_tdiv_bounds(y * ph, h - 1);
    assert((x_min(v) + tdiv(x * s, w - 1)) * (w - 1) == x_min(v) * (w - 1) + tdiv(x * s, w - 1) * (w
        - 1)) by (nonlinear_arith);
    assert((y_max(v, w, h) - tdiv(y * ph, h - 1)) * (h - 1) == y_max(v, w, h) * (h - 1) - tdiv(
        y * ph,
        h - 1,
    ) * (h - 1)) by (nonlinear_arith);
}

/// The plane point that pixel `(x, y)` denotes under view `v` in a buffer of
/// `w` by `h` pixels: real and imaginary part, fixed point.
pub fn pixel_to_plane(v: &ViewState, w: usize, h: usize, x: usize, y: usize) -> (c: (i64, i64))
    requires
        v.well_formed(),
        dims_ok(w as int, h as int),
        x < w,
        y < h,
    ensures
        c.0 == map_px(*v, w as int, x as int),
        c.1 == map_py(*v, w as int, h as int, y as int),
        -COORD_BOUND <= c.0 <= COORD_BOUND,
        -COORD_BOUND <= c.1 <= COORD_BOUND,
{
    proof {
        lemma_map_in_window(*v, w as int, h as int, x as int, y as int);
    }
    let s: i128 = v.scale as i128;
    let cx: i128 = if w <= 1 {
        v.center_re as i128
    } else {
        v.center_re as i128 - tdiv_i128(s, 2) + mul_tdiv(x as i128, s, (w - 1) as i128)
    };
    let ph: i128 = mul_tdiv(s, h as i128, w as i128);
    let cy: i128 = if h <= 1 {
        v.center_im as i128
    } else {
        v.center_im as i128 - tdiv_i128(ph, 2) + ph - mul_tdiv(y as i128, ph, (h - 1) as i128)
    };
    (cx as i64, cy as i64)
}

} // verus!
