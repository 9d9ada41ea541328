//! The kernel's framebuffer.
//!
//! Pixels are written by a call that takes an offset in bytes and the bytes
//! to write. The functions here say which writes draw a pixel or fill a
//! rectangle; the caller makes them.

use vstd::prelude::*;

use crate::graphics::color::Color;
use crate::graphics::geometry::{min_of, Point, Rect, Size};
use crate::syscall::error::{check_done, check_error, done_of, reply_of, SysError, SysResult};

verus! {

/// Most pixels that one write of a fill carries.
pub const CHUNK_WIDTH: u32 = 1024;

/// Code of the pixel format that is taken where the kernel names none that
/// is known: alpha, red, green, blue, 8 bits each.
pub const FORMAT_ARGB8888: u32 = 0;

/// What the kernel tells of the framebuffer.
#[derive(Debug, Clone, Copy, PartialEq, Eq, Structural, Default)]
pub struct FramebufferInfo {
    /// Width in pixels.
    pub width: u32,
    /// Height in pixels.
    pub height: u32,
    /// Bytes from one row to the next.
    pub stride: u32,
    /// Bits per pixel.
    pub bpp: u32,
    /// Code of the pixel format.
    pub format: u32,
}

/// One write to the framebuffer that draws a single pixel.
#[derive(Debug, Clone, Copy, PartialEq, Eq)]
pub struct PixelWrite {
    /// Offset of the first byte.
    pub offset: usize,
    /// The bytes of the pixel.
    pub data: [u8; 4],
}

/// One write to the framebuffer that draws a run of pixels of one color.
#[derive(Debug, Clone, Copy, PartialEq, Eq, Structural)]
pub struct RunWrite {
    /// Offset of the first byte.
    pub offset: usize,
    /// Number of pixels, of four bytes each.
    pub pixels: u32,
    /// The color of every pixel.
    pub color: Color,
}

/// Calls `gfx_types::PixelFormat::from_u32` and, on the format found,
/// `as_u32`: the code itself when it names one of the ten formats, 0 to 9,
/// and nothing otherwise.
#[verifier::external_body]
fn known_format(value: u32) -> (r: Option<u32>)
    ensures
        r == (if value <= 9 {
            Some(value)
        } else {
            None::<u32>
        }),
{
    match gfx_types::PixelFormat::from_u32(value) {
        Some(format) => Some(format.as_u32()),
        None => None,
    }
}

impl FramebufferInfo {
    /// Offset in bytes of the pixel `(x, y)`.
    pub open spec fn offset_of(self, x: u32, y: u32) -> int {
        y * self.stride + x * (self.bpp / 8)
    }

    /// Width and height.
    pub fn size(&self) -> (s: Size)
        ensures
            s == (Size { width: self.width, height: self.height }),
    {
        Size::new(self.width, self.height)
    }

    /// The rectangle of the whole framebuffer.
    pub fn bounds(&self) -> (r: Rect)
        ensures
            r == (Rect { x: 0, y: 0, width: self.width, height: self.height }),
    {
        Rect::new(0, 0, self.width, self.height)
    }

    /// Code of the pixel format; `FORMAT_ARGB8888` where the kernel's code
    /// names no known format.
    pub fn pixel_format(&self) -> (code: u32)
        ensures
            code == (if self.format <= 9 {
                self.format
            } else {
                FORMAT_ARGB8888
            }),
    {
        match known_format(self.format) {
            Some(code) => code,
            None => FORMAT_ARGB8888,
        }
    }

    /// Offset in bytes of the pixel `(x, y)`.
    pub fn pixel_offset(&self, x: u32, y: u32) -> (offset: usize)
        requires
            self.offset_of(x, y) <= usize::MAX,
        ensures
            offset == self.offset_of(x, y),
    {
        assert(y * self.stride <= self.offset_of(x, y)) by (nonlinear_arith)
            requires
                self.offset_of(x, y) == y * self.stride + x * (self.bpp / 8),
        ;
        assert(x * (self.bpp / 8) <= self.offset_of(x, y)) by (nonlinear_arith)
            requires
                self.offset_of(x, y) == y * self.stride + x * (self.bpp / 8),
        ;
        (y as usize * self.stride as usize) + (x as usize * (self.bpp as usize / 8))
    }

    /// Offset in bytes of the pixel `(x, y)`; nothing when it does not fit
    /// an address.
    pub fn checked_pixel_offset(&self, x: u32, y: u32) -> (offset: Option<usize>)
        ensures
            self.offset_of(x, y) <= usize::MAX ==> offset == Some(self.offset_of(x, y) as usize),
            self.offset_of(x, y) > usize::MAX ==> offset is None,
    {
        assert(x * (self.bpp / 8) <= 0xFFFF_FFFF * 0x1FFF_FFFF) by (nonlinear_arith)
            requires
                x <= 0xFFFF_FFFF,
                self.bpp / 8 <= 0x1FFF_FFFF,
        ;
        assert(y * self.stride <= 0xFFFF_FFFF * 0xFFFF_FFFF) by (nonlinear_arith)
            requires
                y <= 0xFFFF_FFFF,
                self.stride <= 0xFFFF_FFFF,
        ;
        let row: u64 = y as u64 * self.stride as u64;
        let col: u64 = x as u64 * (self.bpp as u64 / 8);
        if row > u64::MAX - col {
            return None;
        }
        let sum: u64 = row + col;
        if sum > usize::MAX as u64 {
            None
        } else {
            Some(sum as usize)
        }
    }

    /// Bytes of the whole framebuffer.
    pub fn size_bytes(&self) -> (bytes: usize)
        requires
            self.stride * self.height <= usize::MAX,
        ensures
            bytes == self.stride * self.height,
    {
        self.stride as usize * self.height as usize
    }
}

/// What the kernel told of the framebuffer: `filled` when the call
/// succeeded.
pub fn get_info(reply: isize, filled: FramebufferInfo) -> (r: SysResult<FramebufferInfo>)
    ensures
        r == match done_of(reply) {
            Ok(_) => Ok::<FramebufferInfo, SysError>(filled),
            Err(e) => Err::<FramebufferInfo, SysError>(e),
        },
{
    match check_done(reply) {
        Ok(_) => Ok(filled),
        Err(e) => Err(e),
    }
}

/// What the kernel told of the framebuffer; another name for `get_info`.
pub fn get_framebuffer_info(reply: isize, filled: FramebufferInfo) -> (r: SysResult<
    FramebufferInfo,
>)
    ensures
        r == match done_of(reply) {
            Ok(_) => Ok::<FramebufferInfo, SysError>(filled),
            Err(e) => Err::<FramebufferInfo, SysError>(e),
        },
{
    get_info(reply, filled)
}

/// What clearing the screen came to.
pub fn clear_screen(reply: isize) -> (r: SysResult<()>)
    ensures
        r == done_of(reply),
{
    check_done(reply)
}

/// The number of bytes written to the framebuffer.
pub fn write_pixels(reply: isize) -> (r: SysResult<usize>)
    ensures
        r == reply_of(reply),
{
    check_error(reply)
}

/// The number of bytes written to the framebuffer; another name for
/// `write_pixels`.
pub fn write_framebuffer(reply: isize) -> (r: SysResult<usize>)
    ensures
        r == reply_of(reply),
{
    write_pixels(reply)
}

/// The framebuffer, known by what the kernel told of it.
#[derive(Debug, Clone, Copy, PartialEq, Eq, Structural)]
pub struct Framebuffer {
    pub info: FramebufferInfo,
}

/// A fill in progress: the rectangle, its color, and how far the fill has
/// come. Rows are written from the top, each row in runs from the left.
#[derive(Debug, Clone, Copy, PartialEq, Eq, Structural)]
pub struct Fill {
    pub x: u32,
    pub y: u32,
    pub width: u32,
    pub height: u32,
    pub color: Color,
    /// Rows that are done.
    pub row: u32,
    /// Pixels of the current row that are done.
    pub col: u32,
}

impl Fill {
    /// True when nothing is left to write within a framebuffer of `info`:
    /// all rows are done, the rectangle has no width, or the current row
    /// lies below the framebuffer or beyond what 32 bits can number.
    pub open spec fn finished(self, info: FramebufferInfo) -> bool {
        ||| self.width == 0
        ||| self.row >= self.height
        ||| self.y + self.row >= info.height
        ||| self.col >= self.width
        ||| self.x + self.col > u32::MAX
        ||| info.offset_of((self.x + self.col) as u32, (self.y + self.row) as u32) > usize::MAX
    }

    /// The pixels of the next run: what is left of the row, at most
    /// `CHUNK_WIDTH`.
    pub open spec fn run_len(self) -> int {
        min_of(self.width - self.col, CHUNK_WIDTH as int)
    }

    /// The fill after its next run: further along the row, or at the start
    /// of the next row.
    pub open spec fn advanced(self) -> Fill {
        if self.col + self.run_len() >= self.width {
            Fill { row: (self.row + 1) as u32, col: 0, ..self }
        } else {
            Fill { col: (self.col + self.run_len()) as u32, ..self }
        }
    }

    /// The next write of the fill, and the fill after it; nothing when the
    /// fill is finished.
    pub fn next(&mut self, info: &FramebufferInfo) -> (r: Option<RunWrite>)
        ensures
            old(self).finished(*info) ==> r is None && *final(self) == *old(self),
            !old(self).finished(*info) ==> r == Some(
                RunWrite {
                    offset: info.offset_of(
                        (old(self).x + old(self).col) as u32,
                        (old(self).y + old(self).row) as u32,
                    ) as usize,
                    pixels: old(self).run_len() as u32,
                    color: old(self).color,
                },
            ) && *final(self) == old(self).advanced(),
    {
        if self.width == 0 || self.row >= self.height || self.col >= self.width {
            return None;
        }
        if self.row > u32::MAX - self.y || self.col > u32::MAX - self.x {
            return None;
        }
        let py: u32 = self.y + self.row;
        if py >= info.height {
            return None;
        }
        let offset: usize = match info.checked_pixel_offset(self.x + self.col, py) {
            Some(offset) => offset,
            None => {
                return None;
            },
        };
        let left: u32 = self.width - self.col;
        let pixels: u32 = if left < CHUNK_WIDTH {
            left
        } else {
            CHUNK_WIDTH
        };
        let color: Color = self.color;
        if pixels >= left {
            self.row = self.row + 1;
            self.col = 0;
        } else {
            self.col = self.col + pixels;
        }
        Some(RunWrite { offset, pixels, color })
    }
}

/// Every run of a fill brings it nearer its end: a loop over `next` ends.
pub proof fn lemma_fill_advances(fill: Fill, info: FramebufferInfo)
    requires
        !fill.finished(info),
    ensures
        fill.advanced().row > fill.row || (fill.advanced().row == fill.row && fill.advanced().col
            > fill.col),
        fill.advanced().row <= fill.height,
        fill.run_len() >= 1,
{
}

impl Framebuffer {
    /// The framebuffer, from what the kernel told of it.
    pub fn new(reply: isize, filled: FramebufferInfo) -> (r: SysResult<Framebuffer>)
        ensures
            r == match done_of(reply) {
                Ok(_) => Ok::<Framebuffer, SysError>(Framebuffer { info: filled }),
                Err(e) => Err::<Framebuffer, SysError>(e),
            },
    {
        match get_info(reply, filled) {
            Ok(info) => Ok(Framebuffer { info }),
            Err(e) => Err(e),
        }
    }

    /// Width in pixels.
    pub fn width(&self) -> (w: u32)
        ensures
            w == self.info.width,
    {
        self.info.width
    }

    /// Height in pixels.
    pub fn height(&self) -> (h: u32)
        ensures
            h == self.info.height,
    {
        self.info.height
    }

    /// Width and height.
    pub fn size(&self) -> (s: Size)
        ensures
            s == (Size { width: self.info.width, height: self.info.height }),
    {
        self.info.size()
    }

    /// The rectangle of the whole framebuffer.
    pub fn bounds(&self) -> (r: Rect)
        ensures
            r == (Rect { x: 0, y: 0, width: self.info.width, height: self.info.height }),
    {
        self.info.bounds()
    }

    /// What clearing the framebuffer came to.
    pub fn clear(&self, reply: isize) -> (r: SysResult<()>)
        ensures
            r == done_of(reply),
    {
        clear_screen(reply)
    }

    /// The write that draws the pixel `(x, y)`; nothing for a pixel outside
    /// the framebuffer, which is skipped without an error.
    pub fn put_pixel(&self, x: u32, y: u32, color: Color) -> (w: Option<PixelWrite>)
        ensures
            w is Some <==> x < self.info.width && y < self.info.height && self.info.offset_of(x, y)
                <= usize::MAX,
            w is Some ==> w->Some_0.offset == self.info.offset_of(x, y) && w->Some_0.data@
                == crate::encoding::u32_le(color.0),
    {
        if x >= self.info.width || y >= self.info.height {
            return None;
        }
        match self.info.checked_pixel_offset(x, y) {
            Some(offset) => Some(PixelWrite { offset, data: color.to_le_bytes() }),
            None => None,
        }
    }

    /// The write that draws the pixel at `p`; nothing for a point with a
    /// negative coordinate or outside the framebuffer.
    pub fn put_pixel_at(&self, p: Point, color: Color) -> (w: Option<PixelWrite>)
        ensures
            w is Some <==> 0 <= p.x < self.info.width && 0 <= p.y < self.info.height
                && self.info.offset_of(p.x as u32, p.y as u32) <= usize::MAX,
            w is Some ==> w->Some_0.offset == self.info.offset_of(p.x as u32, p.y as u32)
                && w->Some_0.data@ == crate::encoding::u32_le(color.0),
    {
        if p.x < 0 || p.y < 0 {
            return None;
        }
        self.put_pixel(p.x as u32, p.y as u32, color)
    }

    /// The fill of `width` by `height` pixels from `(x, y)`. Rows below the
    /// framebuffer are not written; a row is written as long as it is
    /// given, also beyond the right edge.
    pub fn fill_rect(&self, x: u32, y: u32, width: u32, height: u32, color: Color) -> (f: Fill)
        ensures
            f == (Fill { x, y, width, height, color, row: 0, col: 0 }),
    {
        Fill { x, y, width, height, color, row: 0, col: 0 }
    }

    /// The fill of the part of `rect` that lies in the framebuffer; nothing
    /// when no part does.
    pub open spec fn fill_of(self, rect: Rect, color: Color) -> Option<Fill> {
        match rect.overlap(self.info.bounds_of()) {
            Some(c) => Some(
                Fill {
                    x: c.x as u32,
                    y: c.y as u32,
                    width: c.width,
                    height: c.height,
                    color,
                    row: 0,
                    col: 0,
                },
            ),
            None => None,
        }
    }

    /// The fill of the part of `rect` that lies in the framebuffer; nothing
    /// when no part does.
    pub fn fill(&self, rect: Rect, color: Color) -> (f: Option<Fill>)
        ensures
            f == self.fill_of(rect, color),
    {
        let bounds: Rect = self.bounds();
        match rect.intersection(&bounds) {
            Some(c) => Some(self.fill_rect(c.x as u32, c.y as u32, c.width, c.height, color)),
            None => None,
        }
    }

    /// The fills that draw the border of `rect`, `thickness` pixels wide:
    /// top, bottom, left and right, each cut to the framebuffer.
    pub fn stroke_rect(&self, rect: Rect, color: Color, thickness: u32) -> (sides: [Option<
        Fill,
    >; 4])
        requires
            crate::graphics::canvas::strokable(rect, thickness),
        ensures
            sides@ == seq![
                self.fill_of(
                    Rect { x: rect.x, y: rect.y, width: rect.width, height: thickness },
                    color,
                ),
                self.fill_of(
                    Rect {
                        x: rect.x,
                        y: (rect.y + rect.height - thickness) as i32,
                        width: rect.width,
                        height: thickness,
                    },
                    color,
                ),
                self.fill_of(
                    Rect { x: rect.x, y: rect.y, width: thickness, height: rect.height },
                    color,
                ),
                self.fill_of(
                    Rect {
                        x: (rect.x + rect.width - thickness) as i32,
                        y: rect.y,
                        width: thickness,
                        height: rect.height,
                    },
                    color,
                ),
            ],
    {
        let bottom: i64 = rect.y as i64 + rect.height as i64 - thickness as i64;
        let right: i64 = rect.x as i64 + rect.width as i64 - thickness as i64;
        let sides = [
            self.fill(Rect::new(rect.x, rect.y, rect.width, thickness), color),
            self.fill(Rect::new(rect.x, bottom as i32, rect.width, thickness), color),
            self.fill(Rect::new(rect.x, rect.y, thickness, rect.height), color),
            self.fill(Rect::new(right as i32, rect.y, thickness, rect.height), color),
        ];
        assert(sides@ =~= seq![
            self.fill_of(
                Rect { x: rect.x, y: rect.y, width: rect.width, height: thickness },
                color,
            ),
            self.fill_of(
                Rect {
                    x: rect.x,
                    y: (rect.y + rect.height - thickness) as i32,
                    width: rect.width,
                    height: thickness,
                },
                color,
            ),
            self.fill_of(
                Rect { x: rect.x, y: rect.y, width: thickness, height: rect.height },
                color,
            ),
            self.fill_of(
                Rect {
                    x: (rect.x + rect.width - thickness) as i32,
                    y: rect.y,
                    width: thickness,
                    height: rect.height,
                },
                color,
            ),
        ]);
        sides
    }

    /// The fill that draws a vertical line of `height` pixels from
    /// `(x, y)`, one pixel per row.
    pub fn vline(&self, x: u32, y: u32, height: u32, color: Color) -> (f: Option<Fill>)
        ensures
            f == (if x < self.info.width {
                Some(Fill { x, y, width: 1, height, color, row: 0, col: 0 })
            } else {
                None::<Fill>
            }),
    {
        if x < self.info.width {
            Some(self.fill_rect(x, y, 1, height, color))
        } else {
            None
        }
    }

    /// The fill that draws a horizontal line of `width` pixels from
    /// `(x, y)`.
    pub fn hline(&self, x: u32, y: u32, width: u32, color: Color) -> (f: Fill)
        ensures
            f == (Fill { x, y, width, height: 1, color, row: 0, col: 0 }),
    {
        self.fill_rect(x, y, width, 1, color)
    }
}

impl FramebufferInfo {
    /// The rectangle of the whole framebuffer.
    pub open spec fn bounds_of(self) -> Rect {
        Rect { x: 0, y: 0, width: self.width, height: self.height }
    }
}

} // verus!
