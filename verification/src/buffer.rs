//! The RGBA pixel buffer: a row-major flat array of 4 bytes per pixel,
//! top-to-bottom, left-to-right. It is created sized to the initial display
//! area, reallocated (contents invalidated to opaque black) on every resize
//! notification, and fully overwritten by every render pass.

use vstd::prelude::*;
use crate::coord::dims_ok;

verus! {

/// The 4 bytes of pixel slot `k` hold the RGBA color `c`.
pub open spec fn pixel_is(data: Seq<u8>, k: int, c: (int, int, int, int)) -> bool {
    &&& data[4 * k] == c.0
    &&& data[4 * k + 1] == c.1
    &&& data[4 * k + 2] == c.2
    &&& data[4 * k + 3] == c.3
}

/// The flat RGBA image the renderer writes and the display collaborator
/// reads.
pub struct PixelBuffer {
    /// Width in pixels.
    pub width: usize,
    /// Height in pixels.
    pub height: usize,
    /// Row-major RGBA bytes, exactly `width * height * 4` of them.
    pub data: Vec<u8>,
}

impl PixelBuffer {
    /// The dimensions are usable and the byte length matches them.
    pub open spec fn well_formed(self) -> bool {
        &&& dims_ok(self.width as int, self.height as int)
        &&& self.data.len() == self.width * self.height * 4
    }

    /// A fresh buffer of the given size, every pixel opaque black.
    pub fn new_filled(width: usize, height: usize) -> (b: PixelBuffer)
        requires
            dims_ok(width as int, height as int),
        ensures
            b.well_formed(),
            b.width == width,
            b.height == height,
            forall|k: int|
                0 <= k < width * height ==> pixel_is(b.data@, k, (0int, 0int, 0int, 255int)),
    {
        proof {
            assert(0 < width * height <= 16384 * 16384) by (nonlinear_arith)
                requires
                    1 <= width <= 16384,
                    1 <= height <= 16384,
            ;
        }
        let total4: usize = width * height * 4;
        let mut data: Vec<u8> = Vec::new();
        let mut i: usize = 0;
        while i < total4
            invariant
                i <= total4,
                total4 <= 16384 * 16384 * 4,
                data.len() == i,
                forall|j: int|
                    0 <= j < i ==> data@[j] == (if j % 4 == 3 {
                        255u8
                    } else {
                        0u8
                    }),
            decreases total4 - i,
        {
            if i % 4 == 3 {
                data.push(255);
            } else {
                data.push(0);
            }
            i = i + 1;
        }
        proof {
            assert forall|k: int| 0 <= k < width * height implies pixel_is(
                data@,
                k,
                (0int, 0int, 0int, 255int),
            ) by {
                assert(0 <= 4 * k && 4 * k + 3 < data@.len());
                assert((4 * k) % 4 == 0 && (4 * k + 1) % 4 == 1 && (4 * k + 2) % 4 == 2 && (4 * k
                    + 3) % 4 == 3);
            }
        }
        PixelBuffer { width, height, data }
    }

    /// Reallocate for a new size; the old contents are invalidated, the new
    /// ones are opaque black until the next render pass.
    pub fn resize(&mut self, width: usize, height: usize)
        requires
            dims_ok(width as int, height as int),
        ensures
            final(self).well_formed(),
            final(self).width == width,
            final(self).height == height,
            forall|k: int|
                0 <= k < width * height ==> pixel_is(final(self).data@, k, (
                    0int,
                    0int,
                    0int,
                    255int,
                )),
    {
        *self = PixelBuffer::new_filled(width, height);
    }
}

} // verus!
