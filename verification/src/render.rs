//! The frame renderer: a full recompute of the pixel buffer from the view
//! state and buffer dimensions. For every pixel it maps the pixel to its
//! plane point, evaluates the escape time there, colors the count, and
//! writes the 4 bytes at the row-major offset. No partial update: every
//! render pass recomputes every pixel from scratch.

use vstd::prelude::*;
use crate::viewport::ViewState;
use crate::coord::map_px;
use crate::coord::map_py;
use crate::coord::pixel_to_plane;
use crate::escape::escape_count;
use crate::escape::escape_time;
use crate::escape::MAX_ITERATIONS;
use crate::color::color_spec;
use crate::color::color_map;
use crate::buffer::PixelBuffer;
use crate::buffer::pixel_is;

verus! {

/// The color a finished frame assigns to pixel `(x, y)`: its plane point's
/// escape count under the fixed iteration budget, sent through the palette.
pub open spec fn frame_color(v: ViewState, w: int, h: int, x: int, y: int) -> (int, int, int, int) {
    color_spec(
        escape_count(map_px(v, w, x), map_py(v, w, h, y), MAX_ITERATIONS as nat) as int,
        MAX_ITERATIONS as int,
    )
}

/// Every pixel of the buffer holds the frame color of its coordinates under
/// view `v`: what a completed render pass guarantees.
pub open spec fn frame_ok(data: Seq<u8>, v: ViewState, w: int, h: int) -> bool {
    forall|x: int, y: int|
        0 <= x < w && 0 <= y < h ==> pixel_is(data, y * w + x, #[trigger] frame_color(v, w, h, x, y))
}

/// Recompute the whole pixel buffer for view `v`: afterward every pixel
/// holds exactly the frame color of its coordinates.
pub fn render_frame(v: &ViewState, buf: &mut PixelBuffer)
    requires
        v.well_formed(),
        old(buf).well_formed(),
    ensures
        final(buf).well_formed(),
        final(buf).width == old(buf).width,
        final(buf).height == old(buf).height,
        frame_ok(final(buf).data@, *v, old(buf).width as int, old(buf).height as int),
{
    let w: usize = buf.width;
    let h: usize = buf.height;
    let mut y: usize = 0;
    while y < h
        invariant
            y <= h,
            v.well_formed(),
            buf.well_formed(),
            buf.width == w,
            buf.height == h,
            forall|xq: int, yq: int|
                0 <= xq < w && 0 <= yq < y ==> pixel_is(
                    buf.data@,
                    yq * w + xq,
                    #[trigger] frame_color(*v, w as int, h as int, xq, yq),
                ),
        decreases h - y,
    {
        let mut x: usize = 0;
        while x < w
            invariant
                y < h,
                x <= w,
                v.well_formed(),
                buf.well_formed(),
                buf.width == w,
                buf.height == h,
                forall|xq: int, yq: int|
                    0 <= xq < w && 0 <= yq < y ==> pixel_is(
                        buf.data@,
                        yq * w + xq,
                        #[trigger] frame_color(*v, w as int, h as int, xq, yq),
                    ),
                forall|xq: int|
                    0 <= xq < x ==> pixel_is(
                        buf.data@,
                        y as int * w + xq,
                        #[trigger] frame_color(*v, w as int, h as int, xq, y as int),
                    ),
            decreases w - x,
        {
            proof {
                assert(0 <= y * w + x && (y * w + x) * 4 + 3 < w * h * 4) by (nonlinear_arith)
                    requires
                        0 <= x < w,
                        0 <= y < h,
                ;
            }
            let c: (i64, i64) = pixel_to_plane(v, w, h, x, y);
            let n: u32 = escape_time(c.0, c.1, MAX_ITERATIONS);
            let col: (u8, u8, u8, u8) = color_map(n, MAX_ITERATIONS);
            let idx: usize = (y * w + x) * 4;
            buf.data.set(idx, col.0);
            buf.data.set(idx + 1, col.1);
            buf.data.set(idx + 2, col.2);
            buf.data.set(idx + 3, col.3);
            proof {
                assert forall|xq: int, yq: int|
                    0 <= xq < w && 0 <= yq < y implies pixel_is(
                    buf.data@,
                    yq * w + xq,
                    #[trigger] frame_color(*v, w as int, h as int, xq, yq),
                ) by {
                    assert(yq * w + xq < y * w + x && 0 <= yq * w + xq) by (nonlinear_arith)
                        requires
                            0 <= xq < w,
                            0 <= yq < y,
                            0 <= x,
                            y < h,
                    ;
                }
                assert forall|xq: int| 0 <= xq < x implies pixel_is(
                    buf.data@,
                    y as int * w + xq,
                    #[trigger] frame_color(*v, w as int, h as int, xq, y as int),
                ) by {
                    assert(y as int * w + xq < y * w + x);
                }
                assert(pixel_is(
                    buf.data@,
                    y as int * w + x as int,
                    frame_color(*v, w as int, h as int, x as int, y as int),
                ));
            }
            x = x + 1;
        }
        y = y + 1;
    }
}

} // verus!
