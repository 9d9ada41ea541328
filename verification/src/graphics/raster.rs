//! Pixels in a buffer: rows of 32-bit pixels, one after another.
//!
//! A buffer may be shorter than its rows say; a pixel that it does not hold
//! is skipped by every function here.

use vstd::arithmetic::div_mod::{lemma_fundamental_div_mod, lemma_fundamental_div_mod_converse};
use vstd::prelude::*;

use crate::graphics::geometry::{Rect, Size};

verus! {

/// What is drawn at each pixel: a value, or nothing where the pixel is
/// left as it is.
pub type Ink = spec_fn(int, int) -> Option<u32>;

/// Index of the pixel `(x, y)` in a buffer of rows of `width` pixels.
pub open spec fn pixel_index(width: u32, x: u32, y: u32) -> int {
    y * width + x
}

/// True when the pixel `(px, py)` lies in the first `rows` rows of the
/// rectangle `c`, or in the first `cols` pixels of the row after them.
pub open spec fn covers(c: Rect, rows: int, cols: int, px: int, py: int) -> bool {
    &&& c.x <= px < c.x + c.width
    &&& (c.y <= py < c.y + rows || (py == c.y + rows && px < c.x + cols))
}

/// The buffer `old` of rows of `width` pixels, drawn over with `ink` in the
/// first `rows` rows of `c` and in the first `cols` pixels of the row after
/// them.
pub open spec fn drawn_to(old: Seq<u32>, width: u32, c: Rect, rows: int, cols: int, ink: Ink) -> Seq<
    u32,
> {
    Seq::new(
        old.len(),
        |i: int|
            if width > 0 && covers(c, rows, cols, i % (width as int), i / (width as int)) && ink(
                i % (width as int),
                i / (width as int),
            ) is Some {
                ink(i % (width as int), i / (width as int))->Some_0
            } else {
                old[i]
            },
    )
}

/// The buffer `old` drawn over with `ink` in every pixel of `c`.
pub open spec fn drawn(old: Seq<u32>, width: u32, c: Rect, ink: Ink) -> Seq<u32> {
    drawn_to(old, width, c, c.height as int, 0, ink)
}

/// The ink of one color.
pub open spec fn solid(color: u32) -> Ink {
    |px: int, py: int| Some(color)
}

/// The buffer `old` with `color` in every pixel of `c`.
pub open spec fn painted(old: Seq<u32>, width: u32, c: Rect, color: u32) -> Seq<u32> {
    drawn(old, width, c, solid(color))
}

/// The ink that copies from `src`: the pixel `(px, py)` of the rectangle
/// `dst` gets the pixel of `src` that lies as far right of, and below, the
/// corner of `from` as `(px, py)` lies from the corner of `dst`. Nothing is
/// copied from a negative corner, from below the rows that `src_size`
/// names, or from beyond the end of `src`.
pub open spec fn copied(src: Seq<u32>, src_size: Size, from: Rect, dst: Rect) -> Ink {
    |px: int, py: int|
        {
            let at = (from.y + (py - dst.y)) * src_size.width + from.x + (px - dst.x);
            if from.x >= 0 && from.y >= 0 && from.y + (py - dst.y) < src_size.height && 0 <= at
                < src.len() {
                Some(src[at])
            } else {
                None
            }
        }
}

/// True when `c` lies within rows of `width` pixels, at coordinates that
/// are not negative and fit 32 bits.
pub open spec fn in_rows(c: Rect, width: u32) -> bool {
    &&& c.x >= 0
    &&& c.y >= 0
    &&& c.x + c.width <= width
    &&& c.y + c.height <= 0x7FFF_FFFF
}

/// A column and a row that lie in the rows are found again in the index of
/// their pixel.
pub proof fn lemma_index_parts(width: u32, x: int, y: int)
    requires
        0 <= x < width,
        0 <= y,
    ensures
        (y * width + x) % (width as int) == x,
        (y * width + x) / (width as int) == y,
        y * width + x >= 0,
{
    lemma_fundamental_div_mod_converse(y * width + x, width as int, y, x);
    assert(y * width >= 0) by (nonlinear_arith)
        requires
            y >= 0,
            width >= 0,
    ;
}

/// Drawing one more pixel of a row changes the buffer at that pixel and
/// nowhere else.
pub proof fn lemma_draw_one(
    old: Seq<u32>,
    now: Seq<u32>,
    width: u32,
    c: Rect,
    rows: int,
    cols: int,
    ink: Ink,
)
    requires
        in_rows(c, width),
        0 <= rows,
        0 <= cols < c.width,
        now == drawn_to(old, width, c, rows, cols, ink),
    ensures
        ({
            let idx = (c.y + rows) * width + (c.x + cols);
            let value = ink(c.x + cols, c.y + rows);
            &&& idx >= 0
            &&& idx < old.len() && value is Some ==> now.update(idx, value->Some_0) == drawn_to(
                old,
                width,
                c,
                rows,
                cols + 1,
                ink,
            )
            &&& idx >= old.len() || value is None ==> now == drawn_to(
                old,
                width,
                c,
                rows,
                cols + 1,
                ink,
            )
        }),
{
    let idx = (c.y + rows) * width + (c.x + cols);
    let value = ink(c.x + cols, c.y + rows);
    let w = width as int;
    lemma_index_parts(width, c.x + cols, c.y + rows);
    let next = drawn_to(old, width, c, rows, cols + 1, ink);
    let upd = if idx < old.len() && value is Some {
        now.update(idx, value->Some_0)
    } else {
        now
    };
    assert forall|i: int| 0 <= i < old.len() implies upd[i] == next[i] by {
        lemma_fundamental_div_mod(i, w);
        if i != idx {
            if i % w == c.x + cols && i / w == c.y + rows {
                assert(i == w * (i / w) + i % w);
                assert(w * (c.y + rows) == (c.y + rows) * w) by (nonlinear_arith);
                assert(false);
            }
        }
    }
    assert(upd =~= next);
}

/// A row that is drawn to its end is a row more that is drawn.
pub proof fn lemma_draw_row_end(old: Seq<u32>, width: u32, c: Rect, rows: int, ink: Ink)
    requires
        0 <= rows,
    ensures
        drawn_to(old, width, c, rows, c.width as int, ink) == drawn_to(
            old,
            width,
            c,
            rows + 1,
            0,
            ink,
        ),
{
    assert(drawn_to(old, width, c, rows, c.width as int, ink) =~= drawn_to(
        old,
        width,
        c,
        rows + 1,
        0,
        ink,
    ));
}

/// Gives every pixel of `c` the color.
pub fn paint_rect(buffer: &mut [u32], width: u32, c: Rect, color: u32)
    requires
        in_rows(c, width),
    ensures
        final(buffer)@ == painted(old(buffer)@, width, c, color),
{
    let len: usize = buffer.len();
    let ghost ink = solid(color);
    assert(buffer@ =~= drawn_to(old(buffer)@, width, c, 0, 0, ink));
    let mut row: u32 = 0;
    while row < c.height
        invariant
            row <= c.height,
            in_rows(c, width),
            ink == solid(color),
            len == buffer@.len(),
            buffer@.len() == old(buffer)@.len(),
            buffer@ == drawn_to(old(buffer)@, width, c, row as int, 0, ink),
        decreases c.height - row,
    {
        let y: u64 = c.y as u64 + row as u64;
        let mut col: u32 = 0;
        while col < c.width
            invariant
                col <= c.width,
                row < c.height,
                in_rows(c, width),
                ink == solid(color),
                y == c.y + row,
                len == buffer@.len(),
                buffer@.len() == old(buffer)@.len(),
                buffer@ == drawn_to(old(buffer)@, width, c, row as int, col as int, ink),
            decreases c.width - col,
        {
            assert(y * width <= 0x7FFF_FFFF * 0xFFFF_FFFF) by (nonlinear_arith)
                requires
                    0 <= y <= 0x7FFF_FFFF,
                    width <= 0xFFFF_FFFF,
            ;
            let idx: u64 = y * width as u64 + (c.x as u64 + col as u64);
            proof {
                lemma_draw_one(old(buffer)@, buffer@, width, c, row as int, col as int, ink);
            }
            if idx < len as u64 {
                buffer[idx as usize] = color;
            }
            col = col + 1;
        }
        proof {
            lemma_draw_row_end(old(buffer)@, width, c, row as int, ink);
        }
        row = row + 1;
    }
}

/// Copies pixels of `src` into the rectangle `dst` of the buffer: the
/// pixel of `src` at the corner of `from` goes to the corner of `dst`, and
/// so on, row by row. A pixel that `src` does not hold is left as it is.
pub fn copy_rect(
    buffer: &mut [u32],
    width: u32,
    dst: Rect,
    src: &[u32],
    src_size: Size,
    from: Rect,
)
    requires
        in_rows(dst, width),
    ensures
        final(buffer)@ == drawn(old(buffer)@, width, dst, copied(src@, src_size, from, dst)),
{
    let len: usize = buffer.len();
    let ghost ink = copied(src@, src_size, from, dst);
    assert(buffer@ =~= drawn_to(old(buffer)@, width, dst, 0, 0, ink));
    let mut row: u32 = 0;
    while row < dst.height
        invariant
            row <= dst.height,
            in_rows(dst, width),
            ink == copied(src@, src_size, from, dst),
            len == buffer@.len(),
            buffer@.len() == old(buffer)@.len(),
            buffer@ == drawn_to(old(buffer)@, width, dst, row as int, 0, ink),
        decreases dst.height - row,
    {
        let y: u64 = dst.y as u64 + row as u64;
        let src_y: i64 = from.y as i64 + row as i64;
        let mut col: u32 = 0;
        while col < dst.width
            invariant
                col <= dst.width,
                row < dst.height,
                in_rows(dst, width),
                ink == copied(src@, src_size, from, dst),
                y == dst.y + row,
                src_y == from.y + row,
                len == buffer@.len(),
                buffer@.len() == old(buffer)@.len(),
                buffer@ == drawn_to(old(buffer)@, width, dst, row as int, col as int, ink),
            decreases dst.width - col,
        {
            assert(y * width <= 0x7FFF_FFFF * 0xFFFF_FFFF) by (nonlinear_arith)
                requires
                    0 <= y <= 0x7FFF_FFFF,
                    width <= 0xFFFF_FFFF,
            ;
            let idx: u64 = y * width as u64 + (dst.x as u64 + col as u64);
            proof {
                lemma_draw_one(old(buffer)@, buffer@, width, dst, row as int, col as int, ink);
            }
            if idx < len as u64 && from.x >= 0 && from.y >= 0 && src_y < src_size.height as i64 {
                assert(src_y * src_size.width <= 0xFFFF_FFFF * 0xFFFF_FFFF) by (nonlinear_arith)
                    requires
                        0 <= src_y <= 0xFFFF_FFFF,
                        src_size.width <= 0xFFFF_FFFF,
                ;
                let at: u64 = src_y as u64 * src_size.width as u64 + (from.x as u64 + col as u64);
                if at < src.len() as u64 {
                    buffer[idx as usize] = src[at as usize];
                }
            }
            col = col + 1;
        }
        proof {
            lemma_draw_row_end(old(buffer)@, width, dst, row as int, ink);
        }
        row = row + 1;
    }
}

} // verus!
