//! Drawing into the pixels of a window.
//!
//! The pixels of a window lie in its shared region, row after row, 32 bits
//! each. The caller hands them over as a slice; a pixel that the slice does
//! not hold is skipped.

use vstd::prelude::*;

use crate::graphics::color::Color;
use crate::graphics::geometry::{Point, Rect};
use crate::graphics::raster::{paint_rect, painted, pixel_index};
use crate::window::client::Window;

verus! {

impl Window {
    /// Draws the pixel `(x, y)`. A pixel outside the window, or beyond the
    /// end of `buffer`, is skipped.
    pub fn put_pixel(&self, buffer: &mut [u32], x: u32, y: u32, color: Color)
        ensures
            final(buffer)@ == (if x < self@.width && y < self@.height && pixel_index(
                self@.width,
                x,
                y,
            ) < old(buffer)@.len() {
                old(buffer)@.update(pixel_index(self@.width, x, y), color.0)
            } else {
                old(buffer)@
            }),
    {
        let width: u32 = self.width();
        if x < width && y < self.height() {
            assert(y * width <= 0xFFFF_FFFF * 0xFFFF_FFFF) by (nonlinear_arith)
                requires
                    y <= 0xFFFF_FFFF,
                    width <= 0xFFFF_FFFF,
            ;
            let idx: u64 = y as u64 * width as u64 + x as u64;
            if idx < buffer.len() as u64 {
                buffer[idx as usize] = color.as_u32();
            }
        }
    }

    /// Draws the pixel at `p`. A point with a negative coordinate is
    /// skipped.
    pub fn put_pixel_at(&self, buffer: &mut [u32], p: Point, color: Color)
        ensures
            final(buffer)@ == (if 0 <= p.x < self@.width && 0 <= p.y < self@.height && pixel_index(
                self@.width,
                p.x as u32,
                p.y as u32,
            ) < old(buffer)@.len() {
                old(buffer)@.update(pixel_index(self@.width, p.x as u32, p.y as u32), color.0)
            } else {
                old(buffer)@
            }),
    {
        if p.x >= 0 && p.y >= 0 {
            self.put_pixel(buffer, p.x as u32, p.y as u32, color);
        }
    }

    /// Gives every pixel of `buffer` the color.
    pub fn clear(&self, buffer: &mut [u32], color: Color)
        ensures
            final(buffer)@ == Seq::new(old(buffer)@.len(), |i: int| color.0),
    {
        let n: usize = buffer.len();
        let raw: u32 = color.as_u32();
        let mut i: usize = 0;
        while i < n
            invariant
                i <= n,
                n == buffer@.len(),
                buffer@.len() == old(buffer)@.len(),
                raw == color.0,
                forall|k: int| 0 <= k < i ==> buffer@[k] == raw,
            decreases n - i,
        {
            buffer[i] = raw;
            i = i + 1;
        }
        assert(buffer@ =~= Seq::new(old(buffer)@.len(), |i: int| color.0));
    }

    /// Fills the part of `rect` that lies in the window. Pixels beyond the
    /// end of `buffer` are skipped.
    pub fn fill_rect(&self, buffer: &mut [u32], rect: Rect, color: Color)
        ensures
            final(buffer)@ == match rect.overlap(
                Rect { x: 0, y: 0, width: self@.width, height: self@.height },
            ) {
                Some(c) => painted(old(buffer)@, self@.width, c, color.0),
                None => old(buffer)@,
            },
    {
        let bounds: Rect = self.bounds();
        let c: Rect = match rect.intersection(&bounds) {
            Some(c) => c,
            None => {
                return ;
            },
        };
        paint_rect(buffer, self.width(), c, color.as_u32());
    }
}

} // verus!
