//! Outlines of lines, rectangles and circles, point by point.
//!
//! Each shape is walked by a cursor: `next` gives the next point, and
//! nothing when the shape is done. The cursors compute in integers wide
//! enough that no step leaves their range.

use vstd::prelude::*;

use crate::graphics::geometry::{Point, Rect};

verus! {

/// A line segment between two points.
#[derive(Debug, Clone, Copy, PartialEq, Eq, Structural)]
pub struct Line {
    pub start: Point,
    pub end: Point,
}

/// The distance of `v` from 0.
pub open spec fn abs_of(v: int) -> int {
    if v < 0 {
        -v
    } else {
        v
    }
}

/// The direction from `from` to `to`: 1 when `to` is greater, else -1.
pub open spec fn step_toward(from: int, to: int) -> int {
    if from < to {
        1
    } else {
        -1
    }
}

// ---------------------------------------------------------------------------
// Lines
// ---------------------------------------------------------------------------
/// A walk along a line from its start to its end, one pixel at a time; each
/// step moves by one in x, in y, or in both.
#[derive(Debug, Clone, Copy)]
pub struct LineIterator {
    x: i32,
    y: i32,
    x1: i32,
    y1: i32,
    dx: i64,
    dy: i64,
    sx: i32,
    sy: i32,
    err: i128,
    done: bool,
}

/// A walk as plain values.
pub struct LineWalk {
    /// The point that comes next.
    pub x: int,
    pub y: int,
    /// The end of the line.
    pub x1: int,
    pub y1: int,
    /// Width of the line: distance from start to end in x.
    pub dx: int,
    /// Height of the line, negated.
    pub dy: int,
    /// Direction in x and in y.
    pub sx: int,
    pub sy: int,
    /// The error term: how far the walk is off the line.
    pub err: int,
    /// True when the end was given out.
    pub done: bool,
}

impl View for LineIterator {
    type V = LineWalk;

    closed spec fn view(&self) -> LineWalk {
        LineWalk {
            x: self.x as int,
            y: self.y as int,
            x1: self.x1 as int,
            y1: self.y1 as int,
            dx: self.dx as int,
            dy: self.dy as int,
            sx: self.sx as int,
            sy: self.sy as int,
            err: self.err as int,
            done: self.done,
        }
    }
}

impl LineWalk {
    /// The walk at the start of the line from `(x0, y0)` to `(x1, y1)`.
    pub open spec fn start(x0: int, y0: int, x1: int, y1: int) -> LineWalk {
        LineWalk {
            x: x0,
            y: y0,
            x1,
            y1,
            dx: abs_of(x1 - x0),
            dy: -abs_of(y1 - y0),
            sx: step_toward(x0, x1),
            sy: step_toward(y0, y1),
            err: abs_of(x1 - x0) - abs_of(y1 - y0),
            done: false,
        }
    }

    /// Steps left to take in x.
    pub open spec fn left_x(self) -> int {
        (self.x1 - self.x) * self.sx
    }

    /// Steps left to take in y.
    pub open spec fn left_y(self) -> int {
        (self.y1 - self.y) * self.sy
    }

    /// What holds of every walk: it has not passed its end in either
    /// direction, and its error term is the one that the steps taken so
    /// far add up to.
    pub open spec fn wf(self) -> bool {
        &&& (self.sx == 1 || self.sx == -1)
        &&& (self.sy == 1 || self.sy == -1)
        &&& 0 <= self.dx <= 0xFFFF_FFFF
        &&& -0xFFFF_FFFF <= self.dy <= 0
        &&& -0x8000_0000 <= self.x <= 0x7FFF_FFFF
        &&& -0x8000_0000 <= self.y <= 0x7FFF_FFFF
        &&& -0x8000_0000 <= self.x1 <= 0x7FFF_FFFF
        &&& -0x8000_0000 <= self.y1 <= 0x7FFF_FFFF
        &&& 0 <= self.left_x() <= self.dx
        &&& 0 <= self.left_y() <= -self.dy
        &&& self.err == self.dx * ((-self.dy - self.left_y()) + 1) + self.dy * ((self.dx
            - self.left_x()) + 1)
    }

    /// True when the walk stands on the end of the line.
    pub open spec fn at_end(self) -> bool {
        self.x == self.x1 && self.y == self.y1
    }

    /// True when the next step moves in x.
    pub open spec fn moves_x(self) -> bool {
        2 * self.err >= self.dy
    }

    /// True when the next step moves in y.
    pub open spec fn moves_y(self) -> bool {
        2 * self.err <= self.dx
    }

    /// The walk after the next point was given out.
    pub open spec fn stepped(self) -> LineWalk {
        if self.done {
            self
        } else if self.at_end() {
            LineWalk { done: true, ..self }
        } else {
            LineWalk {
                x: if self.moves_x() {
                    self.x + self.sx
                } else {
                    self.x
                },
                y: if self.moves_y() {
                    self.y + self.sy
                } else {
                    self.y
                },
                err: self.err + (if self.moves_x() {
                    self.dy
                } else {
                    0
                }) + (if self.moves_y() {
                    self.dx
                } else {
                    0
                }),
                ..self
            }
        }
    }
}

/// A step of a walk that is not at its end moves, in x or in y or in both,
/// by one pixel and toward the end without passing it: so a walk reaches
/// its end after no more steps than the line is wide plus high.
pub proof fn lemma_line_step(w: LineWalk)
    requires
        w.wf(),
        !w.done,
        !w.at_end(),
    ensures
        w.stepped().wf(),
        w.moves_x() || w.moves_y(),
        w.stepped().left_x() + w.stepped().left_y() < w.left_x() + w.left_y(),
        w.stepped().left_x() == w.left_x() - (if w.moves_x() {
            1int
        } else {
            0int
        }),
        w.stepped().left_y() == w.left_y() - (if w.moves_y() {
            1int
        } else {
            0int
        }),
{
    let lx = w.left_x();
    let ly = w.left_y();
    let a = w.dx - lx;
    let b = -w.dy - ly;
    assert(w.err == w.dx * (b + 1) + w.dy * (a + 1));
    if lx == 0 {
        // The end is reached in x: the walk must not move in x again.
        assert(ly > 0) by (nonlinear_arith)
            requires
                lx == (w.x1 - w.x) * w.sx,
                ly == (w.y1 - w.y) * w.sy,
                lx == 0,
                ly >= 0,
                w.sx == 1 || w.sx == -1,
                w.sy == 1 || w.sy == -1,
                !(w.x == w.x1 && w.y == w.y1),
        ;
        assert(2 * w.err < w.dy) by (nonlinear_arith)
            requires
                w.err == w.dx * (b + 1) + w.dy * (w.dx + 1),
                b + 1 <= -w.dy,
                w.dx >= 0,
                w.dy < 0,
        ;
    }
    if ly == 0 {
        assert(lx > 0) by (nonlinear_arith)
            requires
                lx == (w.x1 - w.x) * w.sx,
                ly == (w.y1 - w.y) * w.sy,
                ly == 0,
                lx >= 0,
                w.sx == 1 || w.sx == -1,
                w.sy == 1 || w.sy == -1,
                !(w.x == w.x1 && w.y == w.y1),
        ;
        assert(2 * w.err > w.dx) by (nonlinear_arith)
            requires
                w.err == w.dx * (-w.dy + 1) + w.dy * (a + 1),
                a + 1 <= w.dx,
                w.dx > 0,
                w.dy <= 0,
        ;
    }
    let s = w.stepped();
    assert(s.left_x() == lx - (if w.moves_x() {
        1int
    } else {
        0int
    })) by (nonlinear_arith)
        requires
            s.left_x() == (w.x1 - s.x) * w.sx,
            lx == (w.x1 - w.x) * w.sx,
            s.x == (if w.moves_x() {
                w.x + w.sx
            } else {
                w.x
            }),
            w.sx == 1 || w.sx == -1,
    ;
    assert(s.left_y() == ly - (if w.moves_y() {
        1int
    } else {
        0int
    })) by (nonlinear_arith)
        requires
            s.left_y() == (w.y1 - s.y) * w.sy,
            ly == (w.y1 - w.y) * w.sy,
            s.y == (if w.moves_y() {
                w.y + w.sy
            } else {
                w.y
            }),
            w.sy == 1 || w.sy == -1,
    ;
    let a2 = w.dx - s.left_x();
    let b2 = -w.dy - s.left_y();
    assert(s.err == w.dx * (b2 + 1) + w.dy * (a2 + 1)) by (nonlinear_arith)
        requires
            w.err == w.dx * (b + 1) + w.dy * (a + 1),
            s.err == w.err + (if w.moves_x() {
                w.dy
            } else {
                0
            }) + (if w.moves_y() {
                w.dx
            } else {
                0
            }),
            a2 == a + (if w.moves_x() {
                1int
            } else {
                0int
            }),
            b2 == b + (if w.moves_y() {
                1int
            } else {
                0int
            }),
    ;
    assert(-0x8000_0000 <= s.x <= 0x7FFF_FFFF && -0x8000_0000 <= s.y <= 0x7FFF_FFFF)
        by (nonlinear_arith)
        requires
            s.left_x() == (w.x1 - s.x) * w.sx,
            s.left_y() == (w.y1 - s.y) * w.sy,
            lx == (w.x1 - w.x) * w.sx,
            ly == (w.y1 - w.y) * w.sy,
            0 <= s.left_x() <= lx,
            0 <= s.left_y() <= ly,
            w.sx == 1 || w.sx == -1,
            w.sy == 1 || w.sy == -1,
            -0x8000_0000 <= w.x <= 0x7FFF_FFFF,
            -0x8000_0000 <= w.y <= 0x7FFF_FFFF,
            -0x8000_0000 <= w.x1 <= 0x7FFF_FFFF,
            -0x8000_0000 <= w.y1 <= 0x7FFF_FFFF,
    ;
}

proof fn lemma_line_err_bound(w: LineWalk)
    requires
        w.wf(),
    ensures
        -0x2_0000_0000_0000_0000 <= w.err <= 0x2_0000_0000_0000_0000,
{
    let a = w.dx - w.left_x();
    let b = -w.dy - w.left_y();
    assert(-0x2_0000_0000_0000_0000 <= w.dx * (b + 1) + w.dy * (a + 1) <= 0x2_0000_0000_0000_0000)
        by (nonlinear_arith)
        requires
            0 <= w.dx <= 0xFFFF_FFFF,
            -0xFFFF_FFFF <= w.dy <= 0,
            0 <= a <= 0xFFFF_FFFF,
            0 <= b <= 0xFFFF_FFFF,
    ;
}

impl LineIterator {
    /// The walk from `start` to `end`.
    pub fn new(start: Point, end: Point) -> (it: LineIterator)
        ensures
            it@ == LineWalk::start(start.x as int, start.y as int, end.x as int, end.y as int),
            it@.wf(),
    {
        let wide_dx: i64 = end.x as i64 - start.x as i64;
        let wide_dy: i64 = end.y as i64 - start.y as i64;
        let dx: i64 = if wide_dx < 0 {
            -wide_dx
        } else {
            wide_dx
        };
        let dy: i64 = if wide_dy < 0 {
            wide_dy
        } else {
            -wide_dy
        };
        let sx: i32 = if start.x < end.x {
            1
        } else {
            -1
        };
        let sy: i32 = if start.y < end.y {
            1
        } else {
            -1
        };
        let it = LineIterator {
            x: start.x,
            y: start.y,
            x1: end.x,
            y1: end.y,
            dx,
            dy,
            sx,
            sy,
            err: dx as i128 + dy as i128,
            done: false,
        };
        assert(it@.left_x() == it@.dx) by (nonlinear_arith)
            requires
                it@.left_x() == (it@.x1 - it@.x) * it@.sx,
                it@.sx == (if it@.x < it@.x1 {
                    1int
                } else {
                    -1int
                }),
                it@.dx == (if it@.x1 - it@.x < 0 {
                    -(it@.x1 - it@.x)
                } else {
                    it@.x1 - it@.x
                }),
        ;
        assert(it@.left_y() == -it@.dy) by (nonlinear_arith)
            requires
                it@.left_y() == (it@.y1 - it@.y) * it@.sy,
                it@.sy == (if it@.y < it@.y1 {
                    1int
                } else {
                    -1int
                }),
                -it@.dy == (if it@.y1 - it@.y < 0 {
                    -(it@.y1 - it@.y)
                } else {
                    it@.y1 - it@.y
                }),
        ;
        assert(it@.err == it@.dx * ((-it@.dy - it@.left_y()) + 1) + it@.dy * ((it@.dx
            - it@.left_x()) + 1)) by (nonlinear_arith)
            requires
                it@.err == it@.dx + it@.dy,
                it@.left_x() == it@.dx,
                it@.left_y() == -it@.dy,
        ;
        it
    }

    /// The next point of the line; nothing after its end.
    pub fn next(&mut self) -> (p: Option<Point>)
        requires
            old(self)@.wf(),
        ensures
            final(self)@ == old(self)@.stepped(),
            final(self)@.wf(),
            old(self)@.done ==> p is None,
            !old(self)@.done ==> p == Some(Point { x: old(self)@.x as i32, y: old(self)@.y as i32 }),
    {
        if self.done {
            return None;
        }
        let current = Point::new(self.x, self.y);
        if self.x == self.x1 && self.y == self.y1 {
            self.done = true;
            return Some(current);
        }
        proof {
            lemma_line_step(self@);
            lemma_line_err_bound(self@);
            lemma_line_err_bound(self@.stepped());
        }
        let e2: i128 = 2 * self.err;
        let moves_x: bool = e2 >= self.dy as i128;
        let moves_y: bool = e2 <= self.dx as i128;
        if moves_x {
            self.err = self.err + self.dy as i128;
            self.x = self.x + self.sx;
        }
        if moves_y {
            self.err = self.err + self.dx as i128;
            self.y = self.y + self.sy;
        }
        Some(current)
    }
}

/// The walk along `line`.
pub fn draw_line(line: Line) -> (it: LineIterator)
    ensures
        it@ == LineWalk::start(
            line.start.x as int,
            line.start.y as int,
            line.end.x as int,
            line.end.y as int,
        ),
        it@.wf(),
{
    LineIterator::new(line.start, line.end)
}

/// The walk from `(x0, y0)` to `(x1, y1)`.
pub fn line_points(x0: i32, y0: i32, x1: i32, y1: i32) -> (it: LineIterator)
    ensures
        it@ == LineWalk::start(x0 as int, y0 as int, x1 as int, y1 as int),
        it@.wf(),
{
    LineIterator::new(Point::new(x0, y0), Point::new(x1, y1))
}

// ---------------------------------------------------------------------------
// Rectangles
// ---------------------------------------------------------------------------
/// True when the border of `rect`, and the column left of it, can be named
/// by 32-bit coordinates.
pub open spec fn drawable(rect: Rect) -> bool {
    &&& rect.width <= 0x7FFF_FFFF
    &&& rect.height <= 0x7FFF_FFFF
    &&& -0x7FFF_FFFF <= rect.x
    &&& -0x7FFF_FFFF <= rect.y
    &&& rect.x + rect.width <= 0x7FFF_FFFF
    &&& rect.y + rect.height <= 0x7FFF_FFFF
}

/// `v`, or 0 when it is negative.
pub open spec fn at_least_0(v: int) -> int {
    if v < 0 {
        0
    } else {
        v
    }
}

/// Number of points on the border of a rectangle of `w` by `h`: the top
/// row, the right column below it, the bottom row left of that, and the
/// left column between the two rows.
pub open spec fn border_len(w: int, h: int) -> int {
    w + at_least_0(h - 1) + at_least_0(w - 1) + at_least_0(h - 2)
}

/// The `i`-th point on the border of `rect`, going around clockwise from
/// the top left corner.
pub open spec fn border_point(rect: Rect, i: int) -> Point {
    let w = rect.width as int;
    let h = rect.height as int;
    let right = at_least_0(h - 1);
    let bottom = at_least_0(w - 1);
    if i < w {
        Point { x: (rect.x + i) as i32, y: rect.y }
    } else if i < w + right {
        Point { x: (rect.x + w - 1) as i32, y: (rect.y + 1 + (i - w)) as i32 }
    } else if i < w + right + bottom {
        Point { x: (rect.x + (w - 2) - (i - w - right)) as i32, y: (rect.y + h - 1) as i32 }
    } else {
        Point { x: rect.x, y: (rect.y + (h - 2) - (i - w - right - bottom)) as i32 }
    }
}

/// A walk around the border of a rectangle.
#[derive(Debug, Clone, Copy)]
pub struct RectBorderIterator {
    rect: Rect,
    index: u64,
}

/// A walk around a border as plain values.
pub struct BorderWalk {
    pub rect: Rect,
    /// Number of points given out.
    pub index: int,
}

impl BorderWalk {
    /// What holds of every walk: its rectangle is drawable, and it has not
    /// given out more points than the border has.
    pub open spec fn wf(self) -> bool {
        drawable(self.rect) && 0 <= self.index <= border_len(
            self.rect.width as int,
            self.rect.height as int,
        )
    }
}

impl View for RectBorderIterator {
    type V = BorderWalk;

    closed spec fn view(&self) -> BorderWalk {
        BorderWalk { rect: self.rect, index: self.index as int }
    }
}

impl RectBorderIterator {
    /// The walk around `rect`, at its top left corner.
    pub fn new(rect: Rect) -> (it: RectBorderIterator)
        requires
            drawable(rect),
        ensures
            it@ == (BorderWalk { rect, index: 0 }),
            it@.wf(),
    {
        RectBorderIterator { rect, index: 0 }
    }

    /// The walk around `rect`, if its border can be named by 32-bit
    /// coordinates.
    pub fn try_new(rect: Rect) -> (it: Option<RectBorderIterator>)
        ensures
            drawable(rect) ==> it is Some && it->Some_0@ == (BorderWalk { rect, index: 0 })
                && it->Some_0@.wf(),
            !drawable(rect) ==> it is None,
    {
        if rect.width <= 0x7FFF_FFFF && rect.height <= 0x7FFF_FFFF && rect.x >= -0x7FFF_FFFF
            && rect.y >= -0x7FFF_FFFF && rect.x as i64 + rect.width as i64 <= 0x7FFF_FFFF
            && rect.y as i64 + rect.height as i64 <= 0x7FFF_FFFF {
            Some(RectBorderIterator::new(rect))
        } else {
            None
        }
    }

    /// The next point of the border; nothing when the walk is around.
    pub fn next(&mut self) -> (p: Option<Point>)
        requires
            old(self)@.wf(),
        ensures
            final(self)@.wf(),
            final(self)@.rect == old(self)@.rect,
            old(self)@.index < border_len(
                old(self)@.rect.width as int,
                old(self)@.rect.height as int,
            ) ==> p == Some(border_point(old(self)@.rect, old(self)@.index)) && final(self)@.index
                == old(self)@.index + 1,
            old(self)@.index >= border_len(
                old(self)@.rect.width as int,
                old(self)@.rect.height as int,
            ) ==> p is None && final(self)@.index == old(self)@.index,
    {
        let w: i64 = self.rect.width as i64;
        let h: i64 = self.rect.height as i64;
        let right: i64 = if h > 1 {
            h - 1
        } else {
            0
        };
        let bottom: i64 = if w > 1 {
            w - 1
        } else {
            0
        };
        let left: i64 = if h > 2 {
            h - 2
        } else {
            0
        };
        let i: i64 = self.index as i64;
        if i >= w + right + bottom + left {
            return None;
        }
        let x: i64 = self.rect.x as i64;
        let y: i64 = self.rect.y as i64;
        let p = if i < w {
            Point::new((x + i) as i32, self.rect.y)
        } else if i < w + right {
            Point::new(self.rect.right() - 1, (y + 1 + (i - w)) as i32)
        } else if i < w + right + bottom {
            Point::new((x + (w - 2) - (i - w - right)) as i32, self.rect.bottom() - 1)
        } else {
            Point::new(self.rect.x, (y + (h - 2) - (i - w - right - bottom)) as i32)
        };
        self.index = self.index + 1;
        Some(p)
    }
}

/// The walk around the border of `rect`.
pub fn draw_rect(rect: Rect) -> (it: RectBorderIterator)
    requires
        drawable(rect),
    ensures
        it@ == (BorderWalk { rect, index: 0 }),
        it@.wf(),
{
    RectBorderIterator::new(rect)
}

// ---------------------------------------------------------------------------
// Circles
// ---------------------------------------------------------------------------
/// A walk on a circle as plain values. The walk goes along one eighth of
/// the circle, from its top to the diagonal, and gives each point of that
/// eighth out eight times, mirrored into every octant.
pub struct CircleWalk {
    /// The center.
    pub cx: int,
    pub cy: int,
    /// The point of the first octant that is mirrored: `x` right of the
    /// center, `y` above it.
    pub x: int,
    pub y: int,
    /// The decision term: below 0 while the midpoint to the next point
    /// lies inside the circle.
    pub d: int,
    /// The octant that comes next.
    pub octant: int,
    /// True when the eighth is walked.
    pub done: bool,
}

/// True when a circle around `(cx, cy)` with `radius` can be named by
/// 32-bit coordinates, and so can the column right of its diagonal.
pub open spec fn circle_fits(cx: int, cy: int, radius: int) -> bool {
    &&& radius < 0x7FFF_FFFF
    &&& -0x8000_0000 <= cx - radius
    &&& cx + radius <= 0x7FFF_FFFF
    &&& -0x8000_0000 <= cy - radius
    &&& cy + radius <= 0x7FFF_FFFF
}

impl CircleWalk {
    /// The walk at the top of the circle; done at once when there is no
    /// radius.
    pub open spec fn start(cx: int, cy: int, radius: int) -> CircleWalk {
        CircleWalk { cx, cy, x: 0, y: radius, d: 1 - radius, octant: 0, done: radius <= 0 }
    }

    /// What holds of every walk: while it is not done it stands in the
    /// first octant, on a circle that fits 32 bits.
    pub open spec fn wf(self) -> bool {
        &&& 0 <= self.octant < 8
        &&& -0x8000_0000 <= self.x <= 0x7FFF_FFFF
        &&& -0x8000_0000 <= self.y <= 0x7FFF_FFFF
        &&& -0x8000_0000 <= self.cx <= 0x7FFF_FFFF
        &&& -0x8000_0000 <= self.cy <= 0x7FFF_FFFF
        &&& -0x2_0000_0000 * (self.x - self.y + 0x8000_0001) <= self.d <= 0x2_0000_0000 * (self.x
            - self.y + 0x8000_0001)
        &&& !self.done ==> 0 <= self.x <= self.y && circle_fits(self.cx, self.cy, self.y)
    }

    /// The point of the octant that comes next.
    pub open spec fn point(self) -> Point {
        if self.octant == 0 {
            Point { x: (self.cx + self.x) as i32, y: (self.cy - self.y) as i32 }
        } else if self.octant == 1 {
            Point { x: (self.cx + self.y) as i32, y: (self.cy - self.x) as i32 }
        } else if self.octant == 2 {
            Point { x: (self.cx + self.y) as i32, y: (self.cy + self.x) as i32 }
        } else if self.octant == 3 {
            Point { x: (self.cx + self.x) as i32, y: (self.cy + self.y) as i32 }
        } else if self.octant == 4 {
            Point { x: (self.cx - self.x) as i32, y: (self.cy + self.y) as i32 }
        } else if self.octant == 5 {
            Point { x: (self.cx - self.y) as i32, y: (self.cy + self.x) as i32 }
        } else if self.octant == 6 {
            Point { x: (self.cx - self.y) as i32, y: (self.cy - self.x) as i32 }
        } else {
            Point { x: (self.cx - self.x) as i32, y: (self.cy - self.y) as i32 }
        }
    }

    /// The walk one point of the first octant further: to the right, and
    /// down by one when the midpoint lies outside the circle. The walk is
    /// done when it has crossed the diagonal.
    pub open spec fn advanced(self) -> CircleWalk {
        let y = if self.d < 0 {
            self.y
        } else {
            self.y - 1
        };
        let d = if self.d < 0 {
            self.d + 2 * self.x + 3
        } else {
            self.d + 2 * (self.x - self.y) + 5
        };
        CircleWalk { x: self.x + 1, y, d, octant: 0, done: self.x + 1 > y, ..self }
    }

    /// The walk after the next point was given out.
    pub open spec fn stepped(self) -> CircleWalk {
        if self.done {
            self
        } else if self.octant < 7 {
            CircleWalk { octant: self.octant + 1, ..self }
        } else {
            self.advanced()
        }
    }
}

/// A walk around a circle, point by point.
#[derive(Debug, Clone, Copy)]
pub struct CircleIterator {
    cx: i32,
    cy: i32,
    x: i32,
    y: i32,
    d: i128,
    octant: u8,
    done: bool,
}

impl View for CircleIterator {
    type V = CircleWalk;

    closed spec fn view(&self) -> CircleWalk {
        CircleWalk {
            cx: self.cx as int,
            cy: self.cy as int,
            x: self.x as int,
            y: self.y as int,
            d: self.d as int,
            octant: self.octant as int,
            done: self.done,
        }
    }
}

/// True when a circle around `(cx, cy)` with `radius` can be named by
/// 32-bit coordinates.
pub fn fits_circle(cx: i32, cy: i32, radius: i32) -> (b: bool)
    ensures
        b == circle_fits(cx as int, cy as int, radius as int),
{
    let r: i64 = radius as i64;
    radius < 0x7FFF_FFFF && cx as i64 - r >= -0x8000_0000 && cx as i64 + r <= 0x7FFF_FFFF
        && cy as i64 - r >= -0x8000_0000 && cy as i64 + r <= 0x7FFF_FFFF
}

/// Every step of a walk keeps it well-formed, and every round of eight
/// points brings it nearer the diagonal: the walk ends.
pub proof fn lemma_circle_step(w: CircleWalk)
    requires
        w.wf(),
        !w.done,
    ensures
        w.stepped().wf(),
        w.octant == 7 ==> w.stepped().y - w.stepped().x < w.y - w.x,
        w.stepped().y <= w.y,
{
    if w.octant == 7 {
        let s = w.advanced();
        assert(-0x2_0000_0000 * (s.x - s.y + 0x8000_0001) <= s.d <= 0x2_0000_0000 * (s.x - s.y
            + 0x8000_0001)) by (nonlinear_arith)
            requires
                -0x2_0000_0000 * (w.x - w.y + 0x8000_0001) <= w.d <= 0x2_0000_0000 * (w.x - w.y
                    + 0x8000_0001),
                0 <= w.x <= w.y <= 0x7FFF_FFFF,
                s.x == w.x + 1,
                s.y == w.y || s.y == w.y - 1,
                s.d == w.d + 2 * w.x + 3 || s.d == w.d + 2 * (w.x - w.y) + 5,
        ;
    }
}

impl CircleIterator {
    /// The walk around the circle with center `(cx, cy)`. A radius of 0 or
    /// less gives no point.
    pub fn new(cx: i32, cy: i32, radius: i32) -> (it: CircleIterator)
        requires
            radius > 0 ==> circle_fits(cx as int, cy as int, radius as int),
        ensures
            it@ == CircleWalk::start(cx as int, cy as int, radius as int),
            it@.wf(),
    {
        let it = CircleIterator {
            cx,
            cy,
            x: 0,
            y: radius,
            d: 1 - radius as i128,
            octant: 0,
            done: radius <= 0,
        };
        assert(-0x2_0000_0000 * (0 - radius + 0x8000_0001) <= 1 - radius <= 0x2_0000_0000 * (0
            - radius + 0x8000_0001)) by (nonlinear_arith)
            requires
                -0x8000_0000 <= radius <= 0x7FFF_FFFF,
        ;
        it
    }

    /// The walk around the circle with center `(cx, cy)`, if the circle can
    /// be named by 32-bit coordinates.
    pub fn try_new(cx: i32, cy: i32, radius: i32) -> (it: Option<CircleIterator>)
        ensures
            radius <= 0 || circle_fits(cx as int, cy as int, radius as int) ==> it is Some
                && it->Some_0@ == CircleWalk::start(cx as int, cy as int, radius as int)
                && it->Some_0@.wf(),
            radius > 0 && !circle_fits(cx as int, cy as int, radius as int) ==> it is None,
    {
        if radius <= 0 || fits_circle(cx, cy, radius) {
            Some(CircleIterator::new(cx, cy, radius))
        } else {
            None
        }
    }

    /// The next point of the circle; nothing when the walk is done.
    pub fn next(&mut self) -> (p: Option<Point>)
        requires
            old(self)@.wf(),
        ensures
            final(self)@ == old(self)@.stepped(),
            final(self)@.wf(),
            old(self)@.done ==> p is None,
            !old(self)@.done ==> p == Some(old(self)@.point()),
    {
        if self.done {
            return None;
        }
        proof {
            lemma_circle_step(self@);
        }
        let p = if self.octant == 0 {
            Point::new(self.cx + self.x, self.cy - self.y)
        } else if self.octant == 1 {
            Point::new(self.cx + self.y, self.cy - self.x)
        } else if self.octant == 2 {
            Point::new(self.cx + self.y, self.cy + self.x)
        } else if self.octant == 3 {
            Point::new(self.cx + self.x, self.cy + self.y)
        } else if self.octant == 4 {
            Point::new(self.cx - self.x, self.cy + self.y)
        } else if self.octant == 5 {
            Point::new(self.cx - self.y, self.cy + self.x)
        } else if self.octant == 6 {
            Point::new(self.cx - self.y, self.cy - self.x)
        } else {
            Point::new(self.cx - self.x, self.cy - self.y)
        };
        if self.octant < 7 {
            self.octant = self.octant + 1;
        } else {
            self.octant = 0;
            assert(-0x2_0000_0000 * 0x1_0000_0001 <= self.d <= 0x2_0000_0000 * 0x1_0000_0001)
                by (nonlinear_arith)
                requires
                    -0x2_0000_0000 * (self.x - self.y + 0x8000_0001) <= self.d <= 0x2_0000_0000 * (
                    self.x - self.y + 0x8000_0001),
                    0 <= self.x <= self.y <= 0x7FFF_FFFF,
            ;
            if self.d < 0 {
                self.d = self.d + 2 * (self.x as i128) + 3;
            } else {
                self.d = self.d + 2 * (self.x as i128 - self.y as i128) + 5;
                self.y = self.y - 1;
            }
            if self.x >= self.y {
                self.x = self.x + 1;
                self.done = true;
            } else {
                self.x = self.x + 1;
            }
        }
        Some(p)
    }
}

/// The walk around the circle with center `(cx, cy)`.
pub fn circle_points(cx: i32, cy: i32, radius: i32) -> (it: CircleIterator)
    requires
        radius > 0 ==> circle_fits(cx as int, cy as int, radius as int),
    ensures
        it@ == CircleWalk::start(cx as int, cy as int, radius as int),
        it@.wf(),
{
    CircleIterator::new(cx, cy, radius)
}

// ---------------------------------------------------------------------------
// Filled circles
// ---------------------------------------------------------------------------
/// A horizontal run of pixels: its left end and its width.
#[derive(Debug, Clone, Copy, PartialEq, Eq, Structural)]
pub struct Span {
    pub x: i32,
    pub y: i32,
    pub width: i32,
}

/// A walk that fills a circle with horizontal runs, as plain values. Like
/// the walk around a circle it follows one eighth of the outline; for each
/// point of it, it gives the run through the point above the center and
/// the run through its mirror image below, and a run at the top each time
/// the outline steps down.
pub struct DiskWalk {
    pub cx: int,
    pub cy: int,
    pub x: int,
    pub y: int,
    /// The decision term, as for the outline.
    pub d: int,
    /// 0: the run above the center comes next; 1: the one below; 2: the
    /// outline moves on.
    pub phase: int,
    pub done: bool,
}

impl DiskWalk {
    /// The walk at the top of the circle; done at once when there is no
    /// radius.
    pub open spec fn start(cx: int, cy: int, radius: int) -> DiskWalk {
        DiskWalk { cx, cy, x: 0, y: radius, d: 1 - radius, phase: 0, done: radius <= 0 }
    }

    /// What holds of every walk: while it is not done it stands in the
    /// first octant, on a circle whose runs fit 32 bits.
    pub open spec fn wf(self) -> bool {
        &&& 0 <= self.phase <= 2
        &&& -0x8000_0000 <= self.x <= 0x7FFF_FFFF
        &&& -0x8000_0000 <= self.y <= 0x7FFF_FFFF
        &&& -0x8000_0000 <= self.cx <= 0x7FFF_FFFF
        &&& -0x8000_0000 <= self.cy <= 0x7FFF_FFFF
        &&& -0x2_0000_0000 * (self.x - self.y + 0x8000_0001) <= self.d <= 0x2_0000_0000 * (self.x
            - self.y + 0x8000_0001)
        &&& !self.done ==> 0 <= self.x <= self.y <= 0x3FFF_FFFF && circle_fits(
            self.cx,
            self.cy,
            self.y,
        )
    }

    /// True when the next call gives the run above the center.
    pub open spec fn gives_upper(self) -> bool {
        !self.done && self.phase == 0
    }

    /// True when the next call gives the run below the center; the center
    /// row itself is not given twice.
    pub open spec fn gives_lower(self) -> bool {
        !self.done && self.phase == 1 && self.x != 0
    }

    /// True when the next call gives the run at the top of the circle: the
    /// outline steps down, and not on the diagonal.
    pub open spec fn gives_cap(self) -> bool {
        !self.done && !self.gives_upper() && !self.gives_lower() && self.d >= 0 && self.x
            != self.y
    }

    /// The walk after the outline moved to the right, and down by one when
    /// the midpoint lay outside the circle.
    pub open spec fn moved(self) -> DiskWalk {
        let y = if self.d < 0 {
            self.y
        } else {
            self.y - 1
        };
        let d = if self.d < 0 {
            self.d + 2 * self.x + 3
        } else {
            self.d + 2 * (self.x - self.y) + 5
        };
        DiskWalk { x: self.x + 1, y, d, ..self }
    }

    /// The walk after the next call.
    pub open spec fn stepped(self) -> DiskWalk {
        if self.done {
            self
        } else if self.gives_upper() {
            DiskWalk { phase: 1, ..self }
        } else if self.gives_lower() {
            DiskWalk { phase: 2, ..self }
        } else if self.gives_cap() {
            DiskWalk { phase: 0, d: self.d + 2 * (self.x - self.y) + 5, y: self.y - 1, ..self }
        } else if self.moved().x > self.moved().y {
            DiskWalk { phase: 0, done: true, ..self.moved() }
        } else {
            DiskWalk { phase: 1, ..self.moved() }
        }
    }

    /// The run that the next call gives, if it gives one.
    pub open spec fn span(self) -> Option<Span> {
        if self.done {
            None
        } else if self.gives_upper() {
            Some(
                Span {
                    x: (self.cx - self.y) as i32,
                    y: (self.cy - self.x) as i32,
                    width: (2 * self.y + 1) as i32,
                },
            )
        } else if self.gives_lower() {
            Some(
                Span {
                    x: (self.cx - self.y) as i32,
                    y: (self.cy + self.x) as i32,
                    width: (2 * self.y + 1) as i32,
                },
            )
        } else if self.gives_cap() {
            Some(
                Span {
                    x: (self.cx - self.x) as i32,
                    y: (self.cy - self.y) as i32,
                    width: (2 * self.x + 1) as i32,
                },
            )
        } else if self.moved().x > self.moved().y {
            None
        } else {
            Some(
                Span {
                    x: (self.cx - self.moved().y) as i32,
                    y: (self.cy - self.moved().x) as i32,
                    width: (2 * self.moved().y + 1) as i32,
                },
            )
        }
    }
}

/// A walk that fills a circle, run by run.
#[derive(Debug, Clone, Copy)]
pub struct FilledCircleIterator {
    cx: i32,
    cy: i32,
    x: i32,
    y: i32,
    d: i128,
    phase: u8,
    done: bool,
}

impl View for FilledCircleIterator {
    type V = DiskWalk;

    closed spec fn view(&self) -> DiskWalk {
        DiskWalk {
            cx: self.cx as int,
            cy: self.cy as int,
            x: self.x as int,
            y: self.y as int,
            d: self.d as int,
            phase: self.phase as int,
            done: self.done,
        }
    }
}

/// Every call keeps the walk well-formed and gives a run unless it ends
/// the walk; and the walk comes nearer its end with every call: the
/// outline moves on, or the phase does.
pub proof fn lemma_disk_step(w: DiskWalk)
    requires
        w.wf(),
        !w.done,
    ensures
        w.stepped().wf(),
        w.span() is None <==> w.stepped().done,
        w.stepped().y - w.stepped().x < w.y - w.x || (w.stepped().y - w.stepped().x == w.y - w.x
            && w.stepped().phase > w.phase),
{
    let s = w.stepped();
    assert(-0x2_0000_0000 * (s.x - s.y + 0x8000_0001) <= s.d <= 0x2_0000_0000 * (s.x - s.y
        + 0x8000_0001)) by (nonlinear_arith)
        requires
            -0x2_0000_0000 * (w.x - w.y + 0x8000_0001) <= w.d <= 0x2_0000_0000 * (w.x - w.y
                + 0x8000_0001),
            0 <= w.x <= w.y <= 0x7FFF_FFFF,
            (s.x == w.x && s.y == w.y && s.d == w.d) || (s.x == w.x && s.y == w.y - 1 && s.d
                == w.d + 2 * (w.x - w.y) + 5) || (s.x == w.x + 1 && s.y == w.y && s.d == w.d + 2
                * w.x + 3) || (s.x == w.x + 1 && s.y == w.y - 1 && s.d == w.d + 2 * (w.x - w.y)
                + 5),
    ;
}

impl FilledCircleIterator {
    /// The walk that fills the circle with center `(cx, cy)`. A radius of 0
    /// or less gives no run.
    pub fn new(cx: i32, cy: i32, radius: i32) -> (it: FilledCircleIterator)
        requires
            radius > 0 ==> circle_fits(cx as int, cy as int, radius as int) && radius
                <= 0x3FFF_FFFF,
        ensures
            it@ == DiskWalk::start(cx as int, cy as int, radius as int),
            it@.wf(),
    {
        let it = FilledCircleIterator {
            cx,
            cy,
            x: 0,
            y: radius,
            d: 1 - radius as i128,
            phase: 0,
            done: radius <= 0,
        };
        assert(-0x2_0000_0000 * (0 - radius + 0x8000_0001) <= 1 - radius <= 0x2_0000_0000 * (0
            - radius + 0x8000_0001)) by (nonlinear_arith)
            requires
                -0x8000_0000 <= radius <= 0x7FFF_FFFF,
        ;
        it
    }

    /// The walk that fills the circle with center `(cx, cy)`, if its runs
    /// can be named by 32-bit numbers.
    pub fn try_new(cx: i32, cy: i32, radius: i32) -> (it: Option<FilledCircleIterator>)
        ensures
            radius <= 0 || (circle_fits(cx as int, cy as int, radius as int) && radius
                <= 0x3FFF_FFFF) ==> it is Some && it->Some_0@ == DiskWalk::start(
                cx as int,
                cy as int,
                radius as int,
            ) && it->Some_0@.wf(),
            radius > 0 && !(circle_fits(cx as int, cy as int, radius as int) && radius
                <= 0x3FFF_FFFF) ==> it is None,
    {
        if radius <= 0 || (fits_circle(cx, cy, radius) && radius <= 0x3FFF_FFFF) {
            Some(FilledCircleIterator::new(cx, cy, radius))
        } else {
            None
        }
    }

    /// The next run; nothing when the circle is filled.
    pub fn next(&mut self) -> (r: Option<Span>)
        requires
            old(self)@.wf(),
        ensures
            final(self)@ == old(self)@.stepped(),
            final(self)@.wf(),
            r == old(self)@.span(),
    {
        if self.done {
            return None;
        }
        proof {
            lemma_disk_step(self@);
        }
        if self.phase == 0 {
            self.phase = 1;
            return Some(Span { x: self.cx - self.y, y: self.cy - self.x, width: 2 * self.y + 1 });
        }
        if self.phase == 1 && self.x != 0 {
            self.phase = 2;
            return Some(Span { x: self.cx - self.y, y: self.cy + self.x, width: 2 * self.y + 1 });
        }
        assert(-0x2_0000_0000 * 0x1_0000_0001 <= self.d <= 0x2_0000_0000 * 0x1_0000_0001)
            by (nonlinear_arith)
            requires
                -0x2_0000_0000 * (self.x - self.y + 0x8000_0001) <= self.d <= 0x2_0000_0000 * (
                self.x - self.y + 0x8000_0001),
                0 <= self.x <= self.y <= 0x7FFF_FFFF,
        ;
        if self.d < 0 {
            self.d = self.d + 2 * (self.x as i128) + 3;
        } else {
            let cap = Span { x: self.cx - self.x, y: self.cy - self.y, width: 2 * self.x + 1 };
            let on_diagonal: bool = self.x == self.y;
            self.d = self.d + 2 * (self.x as i128 - self.y as i128) + 5;
            self.y = self.y - 1;
            if !on_diagonal {
                self.phase = 0;
                return Some(cap);
            }
        }
        if self.x >= self.y {
            self.x = self.x + 1;
            self.phase = 0;
            self.done = true;
            return None;
        }
        self.x = self.x + 1;
        self.phase = 1;
        Some(Span { x: self.cx - self.y, y: self.cy - self.x, width: 2 * self.y + 1 })
    }
}

/// The walk that fills the circle with center `(cx, cy)`.
pub fn fill_circle(cx: i32, cy: i32, radius: i32) -> (it: FilledCircleIterator)
    requires
        radius > 0 ==> circle_fits(cx as int, cy as int, radius as int) && radius <= 0x3FFF_FFFF,
    ensures
        it@ == DiskWalk::start(cx as int, cy as int, radius as int),
        it@.wf(),
{
    FilledCircleIterator::new(cx, cy, radius)
}

} // verus!
