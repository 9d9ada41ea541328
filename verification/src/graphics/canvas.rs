//! A canvas: a buffer of pixels to draw on, an optional clip, and a list of
//! the regions that were changed.
//!
//! Everything drawn is cut to the canvas and to the clip. The rectangles
//! that were filled or copied to are kept as damage, so that only they need
//! be shown again; damage that touches is merged, and when the list grows
//! beyond `MAX_DAMAGE` it is replaced by the one rectangle that holds all.

use vstd::prelude::*;

use crate::graphics::color::Color;
use crate::graphics::geometry::{as_signed, Point, Rect, Size};
use crate::graphics::raster::{copied, copy_rect, drawn, in_rows, paint_rect, painted};

verus! {

/// Most rectangles that the damage list holds.
pub const MAX_DAMAGE: usize = 8;

/// A surface to draw on.
pub struct Canvas<'a> {
    buffer: &'a mut [u32],
    width: u32,
    height: u32,
    clip: Option<Rect>,
    damage: Vec<Rect>,
}

/// A canvas as plain values.
pub struct CanvasView {
    /// The pixels, row after row.
    pub pixels: Seq<u32>,
    /// Pixels in a row.
    pub width: u32,
    /// Number of rows.
    pub height: u32,
    /// The rectangle that drawing is cut to, if any.
    pub clip: Option<Rect>,
    /// The regions that were changed.
    pub damage: Seq<Rect>,
}

impl<'a> View for Canvas<'a> {
    type V = CanvasView;

    closed spec fn view(&self) -> CanvasView {
        CanvasView {
            pixels: self.buffer@,
            width: self.width,
            height: self.height,
            clip: self.clip,
            damage: self.damage@,
        }
    }
}

/// True for a rectangle whose corners have no negative coordinate and fit
/// 32 bits. Every rectangle of the damage list is such.
pub open spec fn tidy(r: Rect) -> bool {
    &&& r.x >= 0
    &&& r.y >= 0
    &&& r.x + r.width <= 0x7FFF_FFFF
    &&& r.y + r.height <= 0x7FFF_FFFF
}

/// The empty rectangle at the origin.
pub open spec fn zero_rect() -> Rect {
    Rect { x: 0, y: 0, width: 0, height: 0 }
}

/// Index of the first rectangle of the list, from `from` on, that shares a
/// pixel with `rect`; -1 when none does.
pub open spec fn first_overlap(damage: Seq<Rect>, rect: Rect, from: int) -> int
    decreases damage.len() - from,
{
    if from < 0 || from >= damage.len() {
        -1
    } else if damage[from].overlaps(rect) {
        from
    } else {
        first_overlap(damage, rect, from + 1)
    }
}

/// The smallest rectangle that holds all of the list, taken from the left.
pub open spec fn hull_all(rects: Seq<Rect>) -> Rect
    decreases rects.len(),
{
    if rects.len() == 0 {
        zero_rect()
    } else if rects.len() == 1 {
        rects[0]
    } else {
        hull_all(rects.drop_last()).hull(rects.last())
    }
}

/// The damage list after `rect` was changed: an empty rectangle changes
/// nothing; a rectangle that touches one of the list is merged into the
/// first it touches; any other is added, and when the list then holds more
/// than `MAX_DAMAGE`, it becomes the one rectangle that holds all.
pub open spec fn damage_after(damage: Seq<Rect>, rect: Rect) -> Seq<Rect> {
    if rect.empty() {
        damage
    } else if first_overlap(damage, rect, 0) >= 0 {
        damage.update(
            first_overlap(damage, rect, 0),
            damage[first_overlap(damage, rect, 0)].hull(rect),
        )
    } else if damage.len() + 1 > MAX_DAMAGE {
        seq![hull_all(damage.push(rect))]
    } else {
        damage.push(rect)
    }
}

impl CanvasView {
    /// The rectangle of the whole canvas.
    pub open spec fn bounds(self) -> Rect {
        Rect { x: 0, y: 0, width: self.width, height: self.height }
    }

    /// `rect` cut to the canvas and to the clip; the empty rectangle at
    /// the origin when nothing is left.
    pub open spec fn clipped(self, rect: Rect) -> Rect {
        match rect.overlap(self.bounds()) {
            None => zero_rect(),
            Some(r) => match self.clip {
                None => r,
                Some(c) => match r.overlap(c) {
                    Some(rc) => rc,
                    None => zero_rect(),
                },
            },
        }
    }

    /// The canvas after `rect` was filled with `color`: the part of `rect`
    /// that lies in the canvas and in the clip has the color, and is added
    /// to the damage.
    pub open spec fn filled(self, rect: Rect, color: u32) -> CanvasView {
        CanvasView {
            pixels: painted(self.pixels, self.width, self.clipped(rect), color),
            damage: damage_after(self.damage, self.clipped(rect)),
            ..self
        }
    }

    /// The canvas after the border of `rect` was drawn `thickness` pixels
    /// wide: the top, the bottom, the left and the right side are filled in
    /// turn.
    pub open spec fn stroked(self, rect: Rect, color: u32, thickness: u32) -> CanvasView {
        self.filled(Rect { x: rect.x, y: rect.y, width: rect.width, height: thickness }, color)
            .filled(
            Rect {
                x: rect.x,
                y: (rect.y + rect.height - thickness) as i32,
                width: rect.width,
                height: thickness,
            },
            color,
        ).filled(Rect { x: rect.x, y: rect.y, width: thickness, height: rect.height }, color)
            .filled(
            Rect {
                x: (rect.x + rect.width - thickness) as i32,
                y: rect.y,
                width: thickness,
                height: rect.height,
            },
            color,
        )
    }

    /// What holds of every canvas: each rectangle of its damage list is
    /// tidy.
    pub open spec fn wf(self) -> bool {
        forall|k: int| 0 <= k < self.damage.len() ==> tidy(#[trigger] self.damage[k])
    }

    /// True when the pixel `(x, y)` may be drawn: it lies in the canvas and
    /// in the clip.
    pub open spec fn admits(self, x: i32, y: i32) -> bool {
        &&& 0 <= x < as_signed(self.width)
        &&& 0 <= y < as_signed(self.height)
        &&& match self.clip {
            Some(c) => c.holds_point(Point { x, y }),
            None => true,
        }
    }
}

/// True when the sides of a border of `rect`, `thickness` wide, have
/// corners that fit 32 bits.
pub open spec fn strokable(rect: Rect, thickness: u32) -> bool {
    &&& rect.x + rect.width <= 0x7FFF_FFFF
    &&& rect.y + rect.height <= 0x7FFF_FFFF
    &&& rect.x + rect.width - thickness >= -0x8000_0000
    &&& rect.y + rect.height - thickness >= -0x8000_0000
}

/// True when the border of `rect`, `thickness` wide, can be drawn.
pub fn can_stroke(rect: Rect, thickness: u32) -> (b: bool)
    ensures
        b == strokable(rect, thickness),
{
    let right: i64 = rect.x as i64 + rect.width as i64;
    let bottom: i64 = rect.y as i64 + rect.height as i64;
    right <= 0x7FFF_FFFF && bottom <= 0x7FFF_FFFF && right - thickness as i64 >= -0x8000_0000
        && bottom - thickness as i64 >= -0x8000_0000
}

/// The hull of two tidy rectangles is tidy, and its computation stays in
/// 32 bits.
pub proof fn lemma_hull_tidy(a: Rect, b: Rect)
    requires
        tidy(a),
        tidy(b),
    ensures
        a.hull_fits(b),
        tidy(a.hull(b)),
{
}

/// What is cut to the canvas is tidy and lies in its rows.
pub proof fn lemma_clipped_tidy(v: CanvasView, rect: Rect)
    ensures
        tidy(v.clipped(rect)),
        in_rows(v.clipped(rect), v.width),
        v.clipped(rect).y + v.clipped(rect).height <= v.height || v.clipped(rect).empty(),
{
}

/// The first overlap, if there is one, is a rectangle of the list, at or
/// after `from`, that shares a pixel with `rect`; and none before it does.
pub proof fn lemma_first_overlap(damage: Seq<Rect>, rect: Rect, from: int)
    requires
        0 <= from,
    ensures
        first_overlap(damage, rect, from) == -1 || from <= first_overlap(damage, rect, from)
            < damage.len(),
        first_overlap(damage, rect, from) >= 0 ==> damage[first_overlap(
            damage,
            rect,
            from,
        )].overlaps(rect),
        forall|j: int|
            from <= j < damage.len() && (first_overlap(damage, rect, from) == -1 || j
                < first_overlap(damage, rect, from)) ==> !(#[trigger] damage[j]).overlaps(rect),
    decreases damage.len() - from,
{
    if from < damage.len() && !damage[from].overlaps(rect) {
        lemma_first_overlap(damage, rect, from + 1);
    }
}

/// The damage list never grows beyond `MAX_DAMAGE`.
pub proof fn lemma_damage_bounded(damage: Seq<Rect>, rect: Rect)
    requires
        damage.len() <= MAX_DAMAGE,
    ensures
        damage_after(damage, rect).len() <= MAX_DAMAGE,
{
    lemma_first_overlap(damage, rect, 0);
}

impl<'a> Canvas<'a> {
    /// A canvas over `buffer`, which holds rows of `width` pixels. Nothing
    /// is clipped and nothing is damaged.
    pub fn new(buffer: &'a mut [u32], width: u32, height: u32) -> (canvas: Canvas<'a>)
        ensures
            canvas@ == (CanvasView {
                pixels: old(buffer)@,
                width,
                height,
                clip: None,
                damage: Seq::<Rect>::empty(),
            }),
            canvas@.wf(),
    {
        Canvas { buffer, width, height, clip: None, damage: Vec::new() }
    }

    /// Width and height of the canvas.
    pub fn size(&self) -> (s: Size)
        ensures
            s == (Size { width: self@.width, height: self@.height }),
    {
        Size::new(self.width, self.height)
    }

    /// Sets the rectangle that drawing is cut to, or lifts it.
    pub fn set_clip(&mut self, rect: Option<Rect>)
        requires
            old(self)@.wf(),
        ensures
            final(self)@.wf(),
            final(self)@ == (CanvasView { clip: rect, ..old(self)@ }),
    {
        self.clip = rect;
    }

    /// The regions that were changed.
    pub fn damage(&self) -> (d: &[Rect])
        ensures
            d@ == self@.damage,
    {
        self.damage.as_slice()
    }

    /// Hands the damage list over and starts a new one.
    pub fn take_damage(&mut self) -> (d: Vec<Rect>)
        requires
            old(self)@.wf(),
        ensures
            final(self)@.wf(),
            d@ == old(self)@.damage,
            final(self)@ == (CanvasView { damage: Seq::<Rect>::empty(), ..old(self)@ }),
    {
        let mut taken: Vec<Rect> = Vec::new();
        core::mem::swap(&mut self.damage, &mut taken);
        taken
    }

    /// Forgets the damage.
    pub fn clear_damage(&mut self)
        requires
            old(self)@.wf(),
        ensures
            final(self)@.wf(),
            final(self)@ == (CanvasView { damage: Seq::<Rect>::empty(), ..old(self)@ }),
    {
        self.damage.clear();
    }

    fn clip_rect(&self, rect: Rect) -> (r: Rect)
        ensures
            r == self@.clipped(rect),
    {
        let bounds = Rect::new(0, 0, self.width, self.height);
        let inside: Rect = match rect.intersection(&bounds) {
            Some(r) => r,
            None => {
                return Rect::zero();
            },
        };
        match &self.clip {
            None => inside,
            Some(clip) => match inside.intersection(clip) {
                Some(r) => r,
                None => Rect::zero(),
            },
        }
    }

    fn add_damage(&mut self, rect: Rect)
        requires
            old(self)@.wf(),
            tidy(rect),
        ensures
            final(self)@.wf(),
            final(self)@ == (CanvasView {
                damage: damage_after(old(self)@.damage, rect),
                ..old(self)@
            }),
    {
        if rect.is_empty() {
            return ;
        }
        let mut k: usize = 0;
        while k < self.damage.len()
            invariant
                k <= self.damage.len(),
                *self == *old(self),
                tidy(rect),
                !rect.empty(),
                forall|j: int| 0 <= j < self.damage@.len() ==> tidy(#[trigger] self.damage@[j]),
                first_overlap(self.damage@, rect, 0) == first_overlap(self.damage@, rect, k as int),
            decreases self.damage.len() - k,
        {
            let existing: Rect = self.damage[k];
            if existing.intersects(&rect) {
                proof {
                    lemma_hull_tidy(existing, rect);
                }
                let merged: Rect = existing.union(&rect);
                self.damage[k] = merged;
                assert(self.damage@ =~= old(self).damage@.update(k as int, merged));
                return ;
            }
            k = k + 1;
        }
        self.damage.push(rect);
        if self.damage.len() > MAX_DAMAGE {
            self.collapse_damage();
        }
    }

    fn collapse_damage(&mut self)
        requires
            old(self)@.wf(),
        ensures
            final(self)@.wf(),
            final(self)@ == (CanvasView {
                damage: if old(self)@.damage.len() <= 1 {
                    old(self)@.damage
                } else {
                    seq![hull_all(old(self)@.damage)]
                },
                ..old(self)@
            }),
    {
        if self.damage.len() <= 1 {
            return ;
        }
        let mut bounds: Rect = self.damage[0];
        let mut k: usize = 1;
        assert(self.damage@.subrange(0, 1).drop_last() =~= Seq::<Rect>::empty());
        while k < self.damage.len()
            invariant
                1 <= k <= self.damage.len(),
                *self == *old(self),
                forall|j: int| 0 <= j < self.damage@.len() ==> tidy(#[trigger] self.damage@[j]),
                tidy(bounds),
                bounds == hull_all(self.damage@.subrange(0, k as int)),
            decreases self.damage.len() - k,
        {
            let next: Rect = self.damage[k];
            proof {
                lemma_hull_tidy(bounds, next);
                assert(self.damage@.subrange(0, k + 1).drop_last() =~= self.damage@.subrange(
                    0,
                    k as int,
                ));
            }
            bounds = bounds.union(&next);
            k = k + 1;
        }
        assert(self.damage@.subrange(0, self.damage@.len() as int) =~= self.damage@);
        self.damage.clear();
        self.damage.push(bounds);
        assert(self.damage@ =~= seq![bounds]);
    }

    /// Fills the part of `rect` that lies in the canvas and in the clip,
    /// and adds it to the damage.
    pub fn fill_rect(&mut self, rect: Rect, color: Color)
        requires
            old(self)@.wf(),
        ensures
            final(self)@.wf(),
            final(self)@ == old(self)@.filled(rect, color.0),
    {
        let c: Rect = self.clip_rect(rect);
        proof {
            lemma_clipped_tidy(self@, rect);
        }
        paint_rect(self.buffer, self.width, c, color.as_u32());
        self.add_damage(c);
    }

    /// Draws the border of `rect`, `thickness` pixels wide, inside the
    /// rectangle.
    pub fn stroke_rect(&mut self, rect: Rect, color: Color, thickness: u32)
        requires
            old(self)@.wf(),
            strokable(rect, thickness),
        ensures
            final(self)@.wf(),
            final(self)@ == old(self)@.stroked(rect, color.0, thickness),
    {
        let bottom: i64 = rect.y as i64 + rect.height as i64 - thickness as i64;
        let right: i64 = rect.x as i64 + rect.width as i64 - thickness as i64;
        self.fill_rect(Rect::new(rect.x, rect.y, rect.width, thickness), color);
        self.fill_rect(Rect::new(rect.x, bottom as i32, rect.width, thickness), color);
        self.fill_rect(Rect::new(rect.x, rect.y, thickness, rect.height), color);
        self.fill_rect(Rect::new(right as i32, rect.y, thickness, rect.height), color);
    }

    /// Fills the whole canvas, as far as the clip allows.
    pub fn clear(&mut self, color: Color)
        requires
            old(self)@.wf(),
        ensures
            final(self)@.wf(),
            final(self)@ == old(self)@.filled(old(self)@.bounds(), color.0),
    {
        let all = Rect::new(0, 0, self.width, self.height);
        self.fill_rect(all, color);
    }

    /// Draws a horizontal line of `width` pixels from `(x, y)`.
    pub fn hline(&mut self, x: i32, y: i32, width: u32, color: Color)
        requires
            old(self)@.wf(),
        ensures
            final(self)@.wf(),
            final(self)@ == old(self)@.filled(Rect { x, y, width, height: 1 }, color.0),
    {
        self.fill_rect(Rect::new(x, y, width, 1), color);
    }

    /// Draws a vertical line of `height` pixels from `(x, y)`.
    pub fn vline(&mut self, x: i32, y: i32, height: u32, color: Color)
        requires
            old(self)@.wf(),
        ensures
            final(self)@.wf(),
            final(self)@ == old(self)@.filled(Rect { x, y, width: 1, height }, color.0),
    {
        self.fill_rect(Rect::new(x, y, 1, height), color);
    }

    /// Draws one pixel, if it lies in the canvas and in the clip. A single
    /// pixel is not added to the damage.
    pub fn put_pixel(&mut self, x: i32, y: i32, color: Color)
        requires
            old(self)@.wf(),
        ensures
            final(self)@.wf(),
            final(self)@ == (CanvasView {
                pixels: if old(self)@.admits(x, y) && y * old(self)@.width + x < old(
                    self,
                )@.pixels.len() {
                    old(self)@.pixels.update(y * old(self)@.width + x, color.0)
                } else {
                    old(self)@.pixels
                },
                ..old(self)@
            }),
    {
        if x < 0 || y < 0 || self.width > 0x7FFF_FFFF || self.height > 0x7FFF_FFFF || x as u32
            >= self.width || y as u32 >= self.height {
            return ;
        }
        match &self.clip {
            Some(clip) => {
                if !clip.contains_point(Point::new(x, y)) {
                    return ;
                }
            },
            None => {},
        }
        assert(y * self.width <= 0x7FFF_FFFF * 0x7FFF_FFFF) by (nonlinear_arith)
            requires
                0 <= y <= 0x7FFF_FFFF,
                self.width <= 0x7FFF_FFFF,
        ;
        let idx: u64 = y as u64 * self.width as u64 + x as u64;
        if idx < self.buffer.len() as u64 {
            self.buffer[idx as usize] = color.as_u32();
        }
    }

    /// Copies the rectangle `src_rect` of the pixels `src`, which are rows
    /// of `src_size.width` pixels, to the canvas at `dst_point`. The
    /// destination is cut to the canvas and to the clip; what is left of it
    /// is filled from the corner of `src_rect` on, and added to the damage.
    pub fn blit(&mut self, src: &[u32], src_size: Size, src_rect: Rect, dst_point: Point)
        requires
            old(self)@.wf(),
        ensures
            final(self)@.wf(),
            ({
                let dst = old(self)@.clipped(
                    Rect {
                        x: dst_point.x,
                        y: dst_point.y,
                        width: src_rect.width,
                        height: src_rect.height,
                    },
                );
                final(self)@ == (CanvasView {
                    pixels: drawn(
                        old(self)@.pixels,
                        old(self)@.width,
                        dst,
                        copied(src@, src_size, src_rect, dst),
                    ),
                    damage: damage_after(old(self)@.damage, dst),
                    ..old(self)@
                })
            }),
    {
        let dst: Rect = self.clip_rect(
            Rect::new(dst_point.x, dst_point.y, src_rect.width, src_rect.height),
        );
        proof {
            lemma_clipped_tidy(
                self@,
                Rect {
                    x: dst_point.x,
                    y: dst_point.y,
                    width: src_rect.width,
                    height: src_rect.height,
                },
            );
        }
        copy_rect(self.buffer, self.width, dst, src, src_size, src_rect);
        self.add_damage(dst);
    }
}

} // verus!
