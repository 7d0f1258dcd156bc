//! The zoom controller: a scroll event scales the view about the plane point
//! under the cursor. The new scale is the old one times the zoom factor; the
//! new center is chosen so that the cursor pixel maps to the very same plane
//! point afterward — the zoom-anchor invariant, which here holds exactly and
//! not merely within a tolerance. An event whose result would leave the
//! representable region (or collapse the scale to zero) is skipped.

use vstd::prelude::*;
use crate::fixed::FIX_ONE;
use crate::fixed::tdiv;
use crate::fixed::tdiv_i128;
use crate::fixed::mul_tdiv;
use crate::fixed::lemma_tdiv_bounds;
use crate::fixed::lemma_tdiv_abs_le;
use crate::viewport::ViewState;
use crate::viewport::CENTER_MAX;
use crate::viewport::SCALE_MAX;
use crate::viewport::SCALE_MIN;
use crate::coord::dims_ok;
use crate::coord::map_px;
use crate::coord::map_py;
use crate::coord::plane_height;
use crate::coord::pixel_to_plane;
use crate::coord::lemma_map_in_window;
use crate::coord::MAX_DIM;

verus! {

/// Largest zoom factor accepted for one event, 4.0 in fixed point.
pub const FACTOR_MAX: i64 = 17179869184;

/// The scroll sensitivity, 0.1 in fixed point (rounded to the nearest
/// unit): one wheel step away from the user shrinks the scale by a tenth.
pub const ZOOM_STEP: i64 = 429496730;

/// The scale after a zoom event: the old scale times the factor.
pub open spec fn zoom_scale(v: ViewState, f: int) -> int {
    tdiv(v.scale * f, FIX_ONE as int)
}

/// The vertical plane extent the zoomed view will have.
pub open spec fn zoom_plane_height(v: ViewState, w: int, h: int, f: int) -> int {
    tdiv(zoom_scale(v, f) * h, w)
}

/// Real part of the zoomed center: the one value that makes the cursor
/// column `x` map to the same plane point under the new scale.
pub open spec fn zoom_center_re(v: ViewState, w: int, x: int, f: int) -> int {
    map_px(v, w, x) + tdiv(zoom_scale(v, f), 2) - tdiv(x * zoom_scale(v, f), w - 1)
}

/// Imaginary part of the zoomed center: the one value that makes the cursor
/// row `y` map to the same plane point under the new plane height.
pub open spec fn zoom_center_im(v: ViewState, w: int, h: int, y: int, f: int) -> int {
    map_py(v, w, h, y) + tdiv(zoom_plane_height(v, w, h, f), 2) - zoom_plane_height(v, w, h, f)
        + tdiv(y * zoom_plane_height(v, w, h, f), h - 1)
}

/// Whether the zoomed view stays representable: the scale neither collapses
/// below the precision floor nor outgrows the region, and the center stays
/// within it. An event that fails this is skipped for that tick.
pub open spec fn zoom_ok(v: ViewState, w: int, h: int, x: int, y: int, f: int) -> bool {
    &&& SCALE_MIN <= zoom_scale(v, f) <= SCALE_MAX
    &&& -CENTER_MAX <= zoom_center_re(v, w, x, f) <= CENTER_MAX
    &&& -CENTER_MAX <= zoom_center_im(v, w, h, y, f) <= CENTER_MAX
}

/// The view after one scroll event with cursor pixel `(x, y)` and zoom
/// factor `f`: scale and center change together, or, if the result would
/// not be representable, not at all.
pub open spec fn zoom_spec(v: ViewState, w: int, h: int, x: int, y: int, f: int) -> ViewState {
    if zoom_ok(v, w, h, x, y, f) {
        ViewState {
            center_re: zoom_center_re(v, w, x, f) as i64,
            center_im: zoom_center_im(v, w, h, y, f) as i64,
            scale: zoom_scale(v, f) as i64,
        }
    } else {
        v
    }
}

/// The zoom-anchor invariant: the plane point computed from the cursor
/// pixel under the view before the event equals the point computed from the
/// same pixel under the view after it — exactly, because the new center is
/// defined as the unique value with this property.
pub proof fn lemma_zoom_anchor(v: ViewState, w: int, h: int, x: int, y: int, f: int)
    requires
        v.well_formed(),
        dims_ok(w, h),
        2 <= w,
        2 <= h,
        0 <= x < w,
        0 <= y < h,
        zoom_ok(v, w, h, x, y, f),
    ensures
        map_px(zoom_spec(v, w, h, x, y, f), w, x) == map_px(v, w, x),
        map_py(zoom_spec(v, w, h, x, y, f), w, h, y) == map_py(v, w, h, y),
{
    let v1 = zoom_spec(v, w, h, x, y, f);
    assert(v1.scale == zoom_scale(v, f));
    assert(plane_height(v1, w, h) == zoom_plane_height(v, w, h, f));
}

/// The anchored center agrees with the direct update formula
/// `cursor - (cursor - center) * factor`: horizontally they differ by at
/// most a few fixed-point units — the truncation slack of the three
/// divisions involved — and the anchor definition merely decides where that
/// unavoidable rounding goes.
pub proof fn lemma_zoom_center_re_near_formula(v: ViewState, w: int, x: int, f: int)
    requires
        v.well_formed(),
        2 <= w <= MAX_DIM,
        0 <= x < w,
        0 < f <= FACTOR_MAX,
    ensures
        -8 <= zoom_center_re(v, w, x, f) - (map_px(v, w, x) - tdiv(
            (map_px(v, w, x) - v.center_re) * f,
            FIX_ONE as int,
        )) <= 8,
{
    let u = FIX_ONE as int;
    let d = w - 1;
    let s = v.scale as int;
    let c = v.center_re as int;
    let ux = map_px(v, w, x);
    let s1 = zoom_scale(v, f);
    let a = tdiv(s1, 2);
    let b = tdiv(x * s1, d);
    let g = tdiv((ux - c) * f, u);
    let p = tdiv(x * s, d);
    let q = tdiv(s, 2);
    assert(0 < s * f && 0 <= x * s) by (nonlinear_arith)
        requires
            0 < s,
            0 < f,
            0 <= x,
    ;
    lemma_tdiv_bounds(s * f, u);
    let r0 = s * f - s1 * u;
    assert(0 <= r0 < u);
    assert(0 <= s1);
    lemma_tdiv_bounds(s1, 2);
    let r1 = s1 - a * 2;
    assert(0 <= r1 <= 1);
    assert(0 <= x * s1) by (nonlinear_arith)
        requires
            0 <= x,
            0 <= s1,
    ;
    lemma_tdiv_bounds(x * s1, d);
    let r2 = x * s1 - b * d;
    assert(0 <= r2 < d);
    lemma_tdiv_bounds((ux - c) * f, u);
    let r3 = (ux - c) * f - g * u;
    assert(-u < r3 < u);
    lemma_tdiv_bounds(x * s, d);
    let r4 = x * s - p * d;
    assert(0 <= r4 < d);
    lemma_tdiv_bounds(s, 2);
    let r5 = s - q * 2;
    assert(0 <= r5 <= 1);
    assert(ux - c == p - q);
    let diff = a - b + g;
    let sf = s * f;
    let xsf = x * sf;
    assert(2 * (d * u) * a == d * sf - d * r0 - (d * u) * r1) by (nonlinear_arith)
        requires
            r0 == sf - s1 * u,
            r1 == s1 - a * 2,
            sf == s * f,
    ;
    assert(2 * (d * u) * b == 2 * xsf - 2 * (x * r0) - 2 * (u * r2)) by (nonlinear_arith)
        requires
            r0 == sf - s1 * u,
            r2 == x * s1 - b * d,
            xsf == x * sf,
    ;
    let pq = (p - q) * f;
    assert(2 * (d * u) * g == 2 * (d * pq) - 2 * (d * r3)) by (nonlinear_arith)
        requires
            r3 == pq - g * u,
    ;
    assert(2 * ((p * d) * f) == 2 * xsf - 2 * (f * r4)) by (nonlinear_arith)
        requires
            r4 == x * s - p * d,
            xsf == x * sf,
            sf == s * f,
    ;
    assert(2 * (d * (q * f)) == d * sf - d * (f * r5)) by (nonlinear_arith)
        requires
            r5 == s - q * 2,
            sf == s * f,
    ;
    assert(2 * (d * pq) == 2 * ((p * d) * f) - 2 * (d * (q * f))) by (nonlinear_arith)
        requires
            pq == (p - q) * f,
    ;
    assert(2 * (d * u) * g == 2 * xsf - 2 * (f * r4) - d * sf + d * (f * r5) - 2 * (d * r3));
    assert(2 * (d * u) * diff == 2 * (d * u) * a - 2 * (d * u) * b + 2 * (d * u) * g)
        by (nonlinear_arith)
        requires
            diff == a - b + g,
    ;
    assert(2 * (d * u) * diff == -(d * r0) - (d * u) * r1 + 2 * (x * r0) + 2 * (u * r2) - 2 * (f
        * r4) + d * (f * r5) - 2 * (d * r3));
    assert(0 <= d * r0 <= d * u && 0 <= x * r0 <= d * u && 0 <= (d * u) * r1 <= d * u && 0 <= u * r2
        <= d * u && 0 <= f * r4 <= 4 * (d * u) && 0 <= f * r5 <= 4 * u && -(d * u) <= d * r3 <= d
        * u && d * (f * r5) <= 4 * (d * u) && 0 <= d * (f * r5) && 0 < d * u) by (nonlinear_arith)
        requires
            0 <= x <= d,
            0 <= r0 < u,
            0 <= r1 <= 1,
            0 <= r2 < d,
            -u < r3 < u,
            0 <= r4 < d,
            0 <= r5 <= 1,
            0 < f <= 4 * u,
            0 < d,
            0 < u,
    ;
    assert(-(16 * (d * u)) <= 2 * (d * u) * diff <= 16 * (d * u));
    assert(-8 <= diff <= 8) by (nonlinear_arith)
        requires
            -(16 * (d * u)) <= 2 * (d * u) * diff <= 16 * (d * u),
            0 < d * u,
    ;
}

/// The vertical counterpart: the anchored center also agrees with
/// `cursor - (cursor - center) * factor`, within a slack that grows with the
/// height/width ratio, because the plane height — scale over aspect ratio —
/// is itself a rounded quantity that the vertical axis leans on twice.
pub proof fn lemma_zoom_center_im_near_formula(v: ViewState, w: int, h: int, y: int, f: int)
    requires
        v.well_formed(),
        dims_ok(w, h),
        2 <= w,
        2 <= h,
        0 <= y < h,
        0 < f <= FACTOR_MAX,
    ensures
        -(16 + tdiv(h, w)) <= zoom_center_im(v, w, h, y, f) - (map_py(v, w, h, y) - tdiv(
            (map_py(v, w, h, y) - v.center_im) * f,
            FIX_ONE as int,
        )) <= 16 + tdiv(h, w),
{
    let u = FIX_ONE as int;
    let d = h - 1;
    let s = v.scale as int;
    let c = v.center_im as int;
    let uy = map_py(v, w, h, y);
    let s1 = zoom_scale(v, f);
    let ph = plane_height(v, w, h);
    let ph1 = zoom_plane_height(v, w, h, f);
    let a = tdiv(ph1, 2);
    let b = tdiv(y * ph1, d);
    let q = tdiv(ph, 2);
    let p = tdiv(y * ph, d);
    let g = tdiv((uy - c) * f, u);
    let t = tdiv(h, w);
    assert(0 < s * f && 0 <= s * h) by (nonlinear_arith)
        requires
            0 < s,
            0 < f,
            0 < h,
    ;
    lemma_tdiv_bounds(s * f, u);
    let r0 = s * f - s1 * u;
    assert(0 <= r0 < u && 0 <= s1);
    assert(0 <= s1 * h) by (nonlinear_arith)
        requires
            0 <= s1,
            0 < h,
    ;
    lemma_tdiv_bounds(s1 * h, w);
    let ra = s1 * h - ph1 * w;
    assert(0 <= ra < w && 0 <= ph1);
    lemma_tdiv_bounds(s * h, w);
    let rb = s * h - ph * w;
    assert(0 <= rb < w && 0 <= ph);
    lemma_tdiv_bounds(ph1, 2);
    let r1 = ph1 - a * 2;
    assert(0 <= r1 <= 1);
    assert(0 <= y * ph1 && 0 <= y * ph) by (nonlinear_arith)
        requires
            0 <= y,
            0 <= ph1,
            0 <= ph,
    ;
    lemma_tdiv_bounds(y * ph1, d);
    let r2 = y * ph1 - b * d;
    assert(0 <= r2 < d);
    lemma_tdiv_bounds(ph, 2);
    let r5 = ph - q * 2;
    assert(0 <= r5 <= 1);
    lemma_tdiv_bounds(y * ph, d);
    let r4 = y * ph - p * d;
    assert(0 <= r4 < d);
    lemma_tdiv_bounds((uy - c) * f, u);
    let r3 = (uy - c) * f - g * u;
    assert(-u < r3 < u);
    lemma_tdiv_bounds(h, w);
    assert(0 <= t && t * w <= h && h - w < t * w);
    assert(uy - c == ph - q - p);
    let diff = a - ph1 + b + g;
    assert(zoom_center_im(v, w, h, y, f) - (uy - g) == diff);
    let wu = w * u;
    let sf = s * f;
    let hsf = h * sf;
    let wuph1 = wu * ph1;
    assert(wuph1 == hsf - h * r0 - u * ra) by (nonlinear_arith)
        requires
            wuph1 == (w * u) * ph1,
            ra == s1 * h - ph1 * w,
            r0 == sf - s1 * u,
            hsf == h * sf,
            sf == s * f,
    ;
    assert(2 * (d * wu) * a == d * wuph1 - (d * wu) * r1) by (nonlinear_arith)
        requires
            r1 == ph1 - a * 2,
            wuph1 == wu * ph1,
    ;
    assert(2 * (d * wu) * b == 2 * (y * wuph1) - 2 * (wu * r2)) by (nonlinear_arith)
        requires
            r2 == y * ph1 - b * d,
            wuph1 == wu * ph1,
    ;
    assert(2 * (d * wu) * ph1 == 2 * (d * wuph1)) by (nonlinear_arith)
        requires
            wuph1 == wu * ph1,
    ;
    assert((2 * y - d) * wuph1 == 2 * (y * hsf) - d * hsf - (2 * y - d) * (h * r0) - (2 * y - d) * (
    u * ra)) by (nonlinear_arith)
        requires
            wuph1 == hsf - h * r0 - u * ra,
    ;
    assert(2 * (y * wuph1) - d * wuph1 == (2 * y - d) * wuph1) by (nonlinear_arith);
    let pqf = (ph - q - p) * f;
    let wph = w * ph;
    assert(wph == s * h - rb);
    assert(2 * (d * wu) * g == 2 * ((d * w) * pqf) - 2 * ((d * w) * r3)) by (nonlinear_arith)
        requires
            r3 == pqf - g * u,
            wu == w * u,
    ;
    let phf = ph * f;
    assert(2 * ((d * w) * pqf) == 2 * ((d * w) * phf) - 2 * ((d * w) * (q * f)) - 2 * ((d * w) * (p
        * f))) by (nonlinear_arith)
        requires
            pqf == (ph - q - p) * f,
            phf == ph * f,
    ;
    assert(2 * ((d * w) * (q * f)) == (d * w) * phf - ((d * w) * f) * r5) by (nonlinear_arith)
        requires
            r5 == ph - q * 2,
            phf == ph * f,
    ;
    assert((d * w) * (p * f) == (w * f) * (p * d)) by (nonlinear_arith);
    assert(2 * ((w * f) * (p * d)) == 2 * ((w * f) * (y * ph)) - 2 * ((w * f) * r4))
        by (nonlinear_arith)
        requires
            r4 == y * ph - p * d,
    ;
    assert((w * f) * (y * ph) == (y * f) * wph) by (nonlinear_arith)
        requires
            wph == w * ph,
    ;
    assert(2 * ((d * w) * (p * f)) == 2 * ((y * f) * wph) - 2 * ((w * f) * r4));
    assert((d * w) * phf == (d * f) * wph) by (nonlinear_arith)
        requires
            phf == ph * f,
            wph == w * ph,
    ;
    assert(2 * ((d * w) * pqf) == (d * f) * wph + ((d * w) * f) * r5 - 2 * ((y * f) * wph) + 2 * ((w
        * f) * r4));
    assert((d * f) * wph == d * hsf - (d * f) * rb) by (nonlinear_arith)
        requires
            wph == s * h - rb,
            hsf == h * sf,
            sf == s * f,
    ;
    assert(2 * ((y * f) * wph) == 2 * (y * hsf) - 2 * ((y * f) * rb)) by (nonlinear_arith)
        requires
            wph == s * h - rb,
            hsf == h * sf,
            sf == s * f,
    ;
    assert(2 * (d * wu) * diff == 2 * (d * wu) * a - 2 * (d * wu) * ph1 + 2 * (d * wu) * b + 2 * (d
        * wu) * g) by (nonlinear_arith)
        requires
            diff == a - ph1 + b + g,
    ;
    assert(2 * (d * wu) * diff == -((2 * y - d) * (h * r0)) - ((2 * y - d) * (u * ra)) - (d * wu)
        * r1 - 2 * (wu * r2) - (d * f) * rb + 2 * ((y * f) * rb) + ((d * w) * f) * r5 + 2 * ((w * f)
        * r4) - 2 * ((d * w) * r3));
    assert(-(d * (h * u)) <= (2 * y - d) * (h * r0) <= d * (h * u) && -(d * wu) <= (2 * y - d) * (u
        * ra) <= d * wu && 0 <= (d * wu) * r1 <= d * wu && 0 <= wu * r2 <= d * wu && 0 <= (d * f)
        * rb <= 4 * (d * wu) && 0 <= (y * f) * rb <= 4 * (d * wu) && 0 <= ((d * w) * f) * r5 <= 4 * (
    d * wu) && 0 <= (w * f) * r4 <= 4 * (d * wu) && -(d * wu) <= (d * w) * r3 <= d * wu && 0 < d
        * wu && 0 < d * (h * u)) by (nonlinear_arith)
        requires
            0 <= y <= d,
            0 <= r0 < u,
            0 <= ra < w,
            0 <= rb < w,
            0 <= r1 <= 1,
            0 <= r2 < d,
            0 <= r5 <= 1,
            0 <= r4 < d,
            -u < r3 < u,
            0 < f <= 4 * u,
            0 < d,
            0 < w,
            0 < u,
            0 < h,
            wu == w * u,
    ;
    assert(d * (h * u) <= (t + 1) * (d * wu)) by (nonlinear_arith)
        requires
            h - w < t * w,
            0 < d,
            0 < u,
            0 < w,
            0 <= t,
            wu == w * u,
    ;
    assert(-((24 + t) * (d * wu)) <= 2 * (d * wu) * diff <= (24 + t) * (d * wu)) by (nonlinear_arith)
        requires
            -(d * (h * u)) - 23 * (d * wu) <= 2 * (d * wu) * diff <= d * (h * u) + 23 * (d * wu),
            d * (h * u) <= (t + 1) * (d * wu),
            0 < d * wu,
            0 <= t,
    ;
    assert(-(16 + t) <= diff <= 16 + t) by (nonlinear_arith)
        requires
            -((24 + t) * (d * wu)) <= 2 * (d * wu) * diff <= (24 + t) * (d * wu),
            0 < d * wu,
            0 <= t,
    ;
}

/// The factor for a whole number of wheel steps: `1 - steps * 0.1` in fixed
/// point; positive steps (scrolling up) zoom in, negative steps zoom out.
pub fn scroll_factor(steps: i64) -> (f: i64)
    requires
        -29 <= steps <= 9,
    ensures
        f == FIX_ONE - steps * ZOOM_STEP,
        0 < f <= FACTOR_MAX,
{
    FIX_ONE - steps * ZOOM_STEP
}

/// The view after one scroll event: cursor pixel `(x, y)`, zoom factor `f`
/// in fixed point. Applied in arrival order, each event re-derives the
/// cursor point from the view its predecessors left behind.
pub fn zoomed(v: &ViewState, w: usize, h: usize, x: usize, y: usize, f: i64) -> (r: ViewState)
    requires
        v.well_formed(),
        dims_ok(w as int, h as int),
        2 <= w,
        2 <= h,
        x < w,
        y < h,
        0 < f <= FACTOR_MAX,
    ensures
        r == zoom_spec(*v, w as int, h as int, x as int, y as int, f as int),
        r.well_formed(),
{
    proof {
        lemma_map_in_window(*v, w as int, h as int, x as int, y as int);
        assert(0 < v.scale * f <= SCALE_MAX as int * FACTOR_MAX as int) by (nonlinear_arith)
            requires
                0 < v.scale <= SCALE_MAX,
                0 < f <= FACTOR_MAX,
        ;
        lemma_tdiv_bounds(v.scale as int * f as int, FIX_ONE as int);
    }
    let s1: i128 = mul_tdiv(v.scale as i128, f as i128, FIX_ONE as i128);
    if s1 < SCALE_MIN as i128 || s1 > SCALE_MAX as i128 {
        return *v;
    }
    proof {
        assert(0 <= zoom_scale(*v, f as int) * (h as int) <= SCALE_MAX as int * MAX_DIM as int)
            by (nonlinear_arith)
            requires
                0 <= zoom_scale(*v, f as int) <= SCALE_MAX as int,
                0 < h <= MAX_DIM as int,
        ;
        lemma_tdiv_bounds(zoom_scale(*v, f as int) * (h as int), w as int);
        lemma_tdiv_bounds(zoom_scale(*v, f as int), 2);
        assert(-(SCALE_MAX as int * MAX_DIM as int) <= (x as int) * zoom_scale(*v, f as int)
            <= SCALE_MAX as int * MAX_DIM as int) by (nonlinear_arith)
            requires
                0 <= x as int <= MAX_DIM as int,
                0 <= zoom_scale(*v, f as int) <= SCALE_MAX as int,
        ;
        lemma_tdiv_abs_le(
            (x as int) * zoom_scale(*v, f as int),
            w as int - 1,
            SCALE_MAX as int * MAX_DIM as int,
        );
    }
    let ph1: i128 = mul_tdiv(s1, h as i128, w as i128);
    proof {
        lemma_tdiv_bounds(ph1 as int, 2);
        assert(-(SCALE_MAX as int * MAX_DIM as int * MAX_DIM as int) <= (y as int) * (ph1 as int)
            <= SCALE_MAX as int * MAX_DIM as int * MAX_DIM as int) by (nonlinear_arith)
            requires
                0 <= y as int <= MAX_DIM as int,
                0 <= ph1 as int <= SCALE_MAX as int * MAX_DIM as int,
        ;
        lemma_tdiv_abs_le(
            (y as int) * (ph1 as int),
            h as int - 1,
            SCALE_MAX as int * MAX_DIM as int * MAX_DIM as int,
        );
    }
    let cursor: (i64, i64) = pixel_to_plane(v, w, h, x, y);
    let cre1: i128 = cursor.0 as i128 + tdiv_i128(s1, 2) - mul_tdiv(x as i128, s1, (w - 1) as i128);
    let cim1: i128 = cursor.1 as i128 + tdiv_i128(ph1, 2) - ph1 + mul_tdiv(
        y as i128,
        ph1,
        (h - 1) as i128,
    );
    if cre1 < -(CENTER_MAX as i128) || cre1 > CENTER_MAX as i128 || cim1 < -(CENTER_MAX as i128)
        || cim1 > CENTER_MAX as i128 {
        *v
    } else {
        ViewState { center_re: cre1 as i64, center_im: cim1 as i64, scale: s1 as i64 }
    }
}

} // verus!
