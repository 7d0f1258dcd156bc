//! The per-tick wiring of the explorer: one long-lived session owning the
//! view state, the drag session, the pixel buffer and the dirty flag. The
//! surrounding event loop drains its input queue each tick, hands the
//! coalesced pointer sample and each scroll event here in arrival order,
//! then calls the render tick, which recomputes the buffer only when
//! something actually changed — never unconditionally.

use vstd::prelude::*;
use crate::viewport::ViewState;
use crate::coord::dims_ok;
use crate::buffer::PixelBuffer;
use crate::pan::DragState;
use crate::pan::pan_tick;
use crate::pan::pan_tick_spec;
use crate::pan::sample_ok;
use crate::zoom::FACTOR_MAX;
use crate::zoom::zoom_spec;
use crate::zoom::zoomed;
use crate::render::frame_ok;
use crate::render::render_frame;

verus! {

/// What one scroll event does to the view: dropped when the cursor is
/// outside the display area, when the factor is malformed, or when the
/// buffer is degenerate (a single row or column cannot anchor a zoom);
/// otherwise a cursor-anchored zoom.
pub open spec fn scroll_spec(
    v: ViewState,
    w: int,
    h: int,
    cursor: Option<(usize, usize)>,
    factor: int,
) -> ViewState {
    match cursor {
        Option::None => v,
        Option::Some(p) => {
            if 0 < factor <= FACTOR_MAX && 2 <= w && 2 <= h && p.0 < w && p.1 < h {
                zoom_spec(v, w, h, p.0 as int, p.1 as int, factor)
            } else {
                v
            }
        },
    }
}

/// One explorer session: the single owner of the view state and the pixel
/// buffer, mutated tick by tick by the pan and zoom controllers and read by
/// the renderer.
pub struct Engine {
    /// The visible window onto the plane.
    pub view: ViewState,
    /// The pan controller's drag session.
    pub drag: DragState,
    /// The RGBA image handed to the display collaborator.
    pub buffer: PixelBuffer,
    /// Dirty flag: the view changed (or the buffer was resized) since the
    /// last render, so the next render tick must recompute.
    pub needs_render: bool,
}

impl Engine {
    /// Every piece is usable.
    pub open spec fn well_formed(self) -> bool {
        &&& self.view.well_formed()
        &&& self.drag.well_formed()
        &&& self.buffer.well_formed()
    }

    /// A fresh session: the default view, no active drag, a black buffer of
    /// the given size, and a first frame pending.
    pub fn new(width: usize, height: usize) -> (e: Engine)
        requires
            dims_ok(width as int, height as int),
        ensures
            e.well_formed(),
            e.view.center_re == crate::viewport::DEFAULT_CENTER_RE,
            e.view.center_im == crate::viewport::DEFAULT_CENTER_IM,
            e.view.scale == crate::viewport::DEFAULT_SCALE,
            e.drag == DragState::Idle,
            e.buffer.width == width,
            e.buffer.height == height,
            e.needs_render,
    {
        Engine {
            view: ViewState::default(),
            drag: DragState::Idle,
            buffer: PixelBuffer::new_filled(width, height),
            needs_render: true,
        }
    }

    /// The pointer tick: the button state and the most recent position
    /// sample of the tick go to the pan controller; the dirty flag picks up
    /// any center change.
    pub fn on_pointer(&mut self, held: bool, sample: Option<(i64, i64)>)
        requires
            old(self).well_formed(),
            sample_ok(sample),
        ensures
            final(self).well_formed(),
            (final(self).drag, final(self).view) == pan_tick_spec(
                old(self).drag,
                old(self).view,
                old(self).buffer.width as int,
                held,
                sample,
            ),
            final(self).buffer == old(self).buffer,
            final(self).needs_render == (old(self).needs_render || final(self).view != old(self).view),
    {
        let w: usize = self.buffer.width;
        let changed: bool = pan_tick(&mut self.drag, &mut self.view, w, held, sample);
        if changed {
            self.needs_render = true;
        }
    }

    /// One scroll event, with the cursor position if the pointer is inside
    /// the display area: events outside the area are dropped, malformed
    /// factors are skipped, and an accepted event zooms about the cursor.
    pub fn on_scroll(&mut self, cursor: Option<(usize, usize)>, factor: i64)
        requires
            old(self).well_formed(),
        ensures
            final(self).well_formed(),
            final(self).view == scroll_spec(
                old(self).view,
                old(self).buffer.width as int,
                old(self).buffer.height as int,
                cursor,
                factor as int,
            ),
            final(self).buffer == old(self).buffer,
            final(self).drag == old(self).drag,
            final(self).needs_render == (old(self).needs_render || final(self).view != old(self).view),
    {
        match cursor {
            Option::None => {},
            Option::Some(p) => {
                let w: usize = self.buffer.width;
                let h: usize = self.buffer.height;
                if 0 < factor && factor <= FACTOR_MAX && 2 <= w && 2 <= h && p.0 < w && p.1 < h {
                    let moved: ViewState = zoomed(&self.view, w, h, p.0, p.1, factor);
                    if moved != self.view {
                        self.needs_render = true;
                    }
                    self.view = moved;
                }
            },
        }
    }

    /// A resize notification: reallocates the buffer to the new size
    /// without altering the view center or scale; degenerate or oversized
    /// dimensions skip the event.
    pub fn on_resize(&mut self, width: usize, height: usize)
        requires
            old(self).well_formed(),
        ensures
            final(self).well_formed(),
            final(self).view == old(self).view,
            final(self).drag == old(self).drag,
            dims_ok(width as int, height as int) ==> final(self).buffer.width == width
                && final(self).buffer.height == height && final(self).needs_render,
            !dims_ok(width as int, height as int) ==> *final(self) == *old(self),
    {
        if 1 <= width && width <= 16384 && 1 <= height && height <= 16384 {
            self.buffer.resize(width, height);
            self.needs_render = true;
        }
    }

    /// The render tick: recompute the buffer if and only if the dirty flag
    /// is set — the change-detection discipline — and report whether a new
    /// frame is ready for the display collaborator.
    pub fn render_tick(&mut self) -> (rendered: bool)
        requires
            old(self).well_formed(),
        ensures
            final(self).well_formed(),
            rendered == old(self).needs_render,
            !final(self).needs_render,
            final(self).view == old(self).view,
            final(self).drag == old(self).drag,
            final(self).buffer.width == old(self).buffer.width,
            final(self).buffer.height == old(self).buffer.height,
            rendered ==> frame_ok(
                final(self).buffer.data@,
                old(self).view,
                old(self).buffer.width as int,
                old(self).buffer.height as int,
            ),
            !rendered ==> final(self).buffer == old(self).buffer,
    {
        if self.needs_render {
            let v: ViewState = self.view;
            render_frame(&v, &mut self.buffer);
            self.needs_render = false;
            true
        } else {
            self.needs_render = false;
            false
        }
    }
}

} // verus!
