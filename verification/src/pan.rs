//! The pan controller: pointer drags move the view center. A drag session is
//! either idle or holds the last observed pointer position; the first sample
//! of a gesture only records a position, every further sample shifts the
//! center by the pixel delta scaled to plane units, and a release discards
//! the session so the next press starts afresh with no spurious jump.

use vstd::prelude::*;
use crate::fixed::tdiv;
use crate::fixed::mul_tdiv;
use crate::fixed::lemma_tdiv_neg;
use crate::fixed::lemma_tdiv_abs_le;
use crate::viewport::ViewState;
use crate::viewport::CENTER_MAX;
use crate::viewport::SCALE_MAX;
use crate::coord::MAX_DIM;

verus! {

/// Pointer positions reported to the controller are bounded (two to the
/// 20th power, far beyond any buffer dimension).
pub const POS_MAX: i64 = 1048576;

/// A drag delta is a difference of two pointer positions.
pub const DELTA_MAX: i64 = 2097152;

/// The drag session: no active drag, or the last observed pointer position
/// of the current gesture.
#[derive(Clone, Copy, PartialEq, Eq, Structural, Debug)]
pub enum DragState {
    Idle,
    Dragging { last_x: i64, last_y: i64 },
}

impl DragState {
    /// Stored positions come from pointer events, so they are bounded.
    pub open spec fn well_formed(self) -> bool {
        match self {
            DragState::Idle => true,
            DragState::Dragging { last_x, last_y } => -POS_MAX <= last_x <= POS_MAX && -POS_MAX
                <= last_y <= POS_MAX,
        }
    }
}

/// A pointer position is within the accepted range.
pub open spec fn sample_ok(sample: Option<(i64, i64)>) -> bool {
    match sample {
        Option::None => true,
        Option::Some(p) => -POS_MAX <= p.0 <= POS_MAX && -POS_MAX <= p.1 <= POS_MAX,
    }
}

/// Real part of the center after a drag of `dx` pixels: pixel motion scaled
/// by scale over buffer width, subtracted so the image follows the pointer.
pub open spec fn pan_center_re(v: ViewState, w: int, dx: int) -> int {
    v.center_re - tdiv(dx * v.scale, w)
}

/// Imaginary part after a drag of `dy` pixels: screen rows grow downward
/// while the imaginary axis points up, so the vertical motion flips sign.
pub open spec fn pan_center_im(v: ViewState, w: int, dy: int) -> int {
    v.center_im + tdiv(dy * v.scale, w)
}

/// Whether the dragged center stays in the representable region; a drag
/// that would leave it is skipped for that event.
pub open spec fn pan_ok(v: ViewState, w: int, dx: int, dy: int) -> bool {
    &&& -CENTER_MAX <= pan_center_re(v, w, dx) <= CENTER_MAX
    &&& -CENTER_MAX <= pan_center_im(v, w, dy) <= CENTER_MAX
}

/// The view after a drag of `(dx, dy)` pixels: the center shifts, the scale
/// never changes.
pub open spec fn pan_spec(v: ViewState, w: int, dx: int, dy: int) -> ViewState {
    if pan_ok(v, w, dx, dy) {
        ViewState {
            center_re: pan_center_re(v, w, dx) as i64,
            center_im: pan_center_im(v, w, dy) as i64,
            scale: v.scale,
        }
    } else {
        v
    }
}

/// Dragging the pointer by `(dx, dy)` pixels and then by `(-dx, -dy)`
/// returns the view center exactly to its original value, the scale being
/// unchanged between the two drags: the plane shift is truncated toward
/// zero, so it is an odd function of the pixel delta.
pub proof fn lemma_pan_roundtrip(v: ViewState, w: int, dx: int, dy: int)
    requires
        v.well_formed(),
        1 <= w,
        pan_ok(v, w, dx, dy),
    ensures
        pan_spec(pan_spec(v, w, dx, dy), w, -dx, -dy) == v,
{
    let v1 = pan_spec(v, w, dx, dy);
    assert(-dx * v.scale == -(dx * v.scale) && -dy * v.scale == -(dy * v.scale))
        by (nonlinear_arith);
    lemma_tdiv_neg(dx * v.scale, w);
    lemma_tdiv_neg(dy * v.scale, w);
}

/// The view dragged by `(dx, dy)` pixels in a buffer `w` pixels wide.
pub fn pan_view(v: &ViewState, w: usize, dx: i64, dy: i64) -> (r: ViewState)
    requires
        v.well_formed(),
        1 <= w <= MAX_DIM,
        -DELTA_MAX <= dx <= DELTA_MAX,
        -DELTA_MAX <= dy <= DELTA_MAX,
    ensures
        r == pan_spec(*v, w as int, dx as int, dy as int),
        r.well_formed(),
        r.scale == v.scale,
{
    proof {
        assert(-(DELTA_MAX as int * SCALE_MAX as int) <= dx * v.scale <= DELTA_MAX as int
            * SCALE_MAX as int && -(DELTA_MAX as int * SCALE_MAX as int) <= dy * v.scale
            <= DELTA_MAX as int * SCALE_MAX as int) by (nonlinear_arith)
            requires
                -DELTA_MAX <= dx <= DELTA_MAX,
                -DELTA_MAX <= dy <= DELTA_MAX,
                0 < v.scale <= SCALE_MAX,
        ;
        lemma_tdiv_abs_le(dx as int * v.scale as int, w as int, DELTA_MAX as int * SCALE_MAX as int);
        lemma_tdiv_abs_le(dy as int * v.scale as int, w as int, DELTA_MAX as int * SCALE_MAX as int);
    }
    let sr: i128 = mul_tdiv(dx as i128, v.scale as i128, w as i128);
    let si: i128 = mul_tdiv(dy as i128, v.scale as i128, w as i128);
    let nre: i128 = v.center_re as i128 - sr;
    let nim: i128 = v.center_im as i128 + si;
    if nre < -(CENTER_MAX as i128) || nre > CENTER_MAX as i128 || nim < -(CENTER_MAX as i128)
        || nim > CENTER_MAX as i128 {
        *v
    } else {
        ViewState { center_re: nre as i64, center_im: nim as i64, scale: v.scale }
    }
}

/// Of all pointer-position samples one tick delivers, only the most recent
/// matters — older same-tick samples are superseded, since only relative
/// motion between ticks drives the pan. This coalesces a tick's queue down
/// to the one sample the controller takes.
pub fn latest_sample(samples: &Vec<(i64, i64)>) -> (last: Option<(i64, i64)>)
    ensures
        samples@.len() == 0 ==> last is None,
        samples@.len() > 0 ==> last == Some(samples@[samples@.len() - 1]),
{
    if samples.len() == 0 {
        None
    } else {
        Some(samples[samples.len() - 1])
    }
}

/// What one processing tick of the pan controller does to the session and
/// the view, given whether the primary button is held and the most recent
/// pointer position of the tick, if any.
pub open spec fn pan_tick_spec(
    st: DragState,
    v: ViewState,
    w: int,
    held: bool,
    sample: Option<(i64, i64)>,
) -> (DragState, ViewState) {
    if !held {
        (DragState::Idle, v)
    } else {
        match sample {
            Option::None => (st, v),
            Option::Some(p) => match st {
                DragState::Idle => (DragState::Dragging { last_x: p.0, last_y: p.1 }, v),
                DragState::Dragging { last_x, last_y } => (
                    DragState::Dragging { last_x: p.0, last_y: p.1 },
                    pan_spec(v, w, p.0 - last_x, p.1 - last_y),
                ),
            },
        }
    }
}

/// One processing tick of the pan controller. Only the most recent pointer
/// position of the tick matters, so the caller hands in that one sample;
/// older same-tick samples are superseded.
pub fn pan_tick(
    st: &mut DragState,
    v: &mut ViewState,
    w: usize,
    held: bool,
    sample: Option<(i64, i64)>,
) -> (changed: bool)
    requires
        old(st).well_formed(),
        old(v).well_formed(),
        1 <= w <= MAX_DIM,
        sample_ok(sample),
    ensures
        (*final(st), *final(v)) == pan_tick_spec(*old(st), *old(v), w as int, held, sample),
        final(st).well_formed(),
        final(v).well_formed(),
        changed == (*final(v) != *old(v)),
        final(v).scale == old(v).scale,
{
    if !held {
        *st = DragState::Idle;
        return false;
    }
    match sample {
        Option::None => false,
        Option::Some(p) => {
            let prior: DragState = *st;
            *st = DragState::Dragging { last_x: p.0, last_y: p.1 };
            match prior {
                DragState::Idle => false,
                DragState::Dragging { last_x, last_y } => {
                    let moved: ViewState = pan_view(v, w, p.0 - last_x, p.1 - last_y);
                    let changed: bool = moved != *v;
                    *v = moved;
                    changed
                },
            }
        },
    }
}

} // verus!
