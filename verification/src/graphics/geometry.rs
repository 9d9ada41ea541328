//! Points, sizes and rectangles on the integer grid.
//!
//! The types here hold plain numbers. Rectangle arithmetic is done by the
//! `gfx_types` crate, which the compositor uses too, so that both sides
//! clip and merge alike; the functions that call it state what it computes.

use vstd::prelude::*;

verus! {

/// A point; coordinates may be negative, for positions off screen.
#[derive(Debug, Clone, Copy, PartialEq, Eq, Structural)]
pub struct Point {
    pub x: i32,
    pub y: i32,
}

/// A width and a height.
#[derive(Debug, Clone, Copy, PartialEq, Eq, Structural)]
pub struct Size {
    pub width: u32,
    pub height: u32,
}

/// A rectangle: its top left corner and its size.
#[derive(Debug, Clone, Copy, PartialEq, Eq, Structural)]
pub struct Rect {
    pub x: i32,
    pub y: i32,
    pub width: u32,
    pub height: u32,
}

/// A width or height read as a signed 32-bit number with the same bits.
pub open spec fn as_signed(w: u32) -> int {
    if w <= 0x7FFF_FFFF {
        w as int
    } else {
        w - 0x1_0000_0000
    }
}

/// `v` held to the range of a signed 32-bit number.
pub open spec fn saturated(v: int) -> int {
    if v > 0x7FFF_FFFF {
        0x7FFF_FFFF
    } else if v < -0x8000_0000 {
        -0x8000_0000
    } else {
        v
    }
}

/// The smaller of two numbers.
pub open spec fn min_of(a: int, b: int) -> int {
    if a <= b {
        a
    } else {
        b
    }
}

/// The larger of two numbers.
pub open spec fn max_of(a: int, b: int) -> int {
    if a >= b {
        a
    } else {
        b
    }
}

impl Point {
    /// The point `(x, y)`.
    pub fn new(x: i32, y: i32) -> (p: Point)
        ensures
            p == (Point { x, y }),
    {
        Point { x, y }
    }
}

impl Size {
    /// The size `width` by `height`.
    pub fn new(width: u32, height: u32) -> (s: Size)
        ensures
            s == (Size { width, height }),
    {
        Size { width, height }
    }
}

impl Rect {
    /// The rectangle at `(x, y)` of the given size.
    pub fn new(x: i32, y: i32, width: u32, height: u32) -> (r: Rect)
        ensures
            r == (Rect { x, y, width, height }),
    {
        Rect { x, y, width, height }
    }

    /// The empty rectangle at the origin.
    pub fn zero() -> (r: Rect)
        ensures
            r == (Rect { x: 0, y: 0, width: 0, height: 0 }),
    {
        Rect { x: 0, y: 0, width: 0, height: 0 }
    }

    /// The first column right of the rectangle, held to 32 bits.
    pub open spec fn right_edge(self) -> int {
        saturated(self.x + as_signed(self.width))
    }

    /// The first row below the rectangle, held to 32 bits.
    pub open spec fn bottom_edge(self) -> int {
        saturated(self.y + as_signed(self.height))
    }

    /// True when the rectangle holds no pixel.
    pub open spec fn empty(self) -> bool {
        self.width == 0 || self.height == 0
    }

    /// True when `p` lies in the rectangle.
    pub open spec fn holds_point(self, p: Point) -> bool {
        self.x <= p.x < self.right_edge() && self.y <= p.y < self.bottom_edge()
    }

    /// True when the two rectangles share a pixel.
    pub open spec fn overlaps(self, other: Rect) -> bool {
        &&& self.x < other.right_edge()
        &&& self.right_edge() > other.x
        &&& self.y < other.bottom_edge()
        &&& self.bottom_edge() > other.y
    }

    /// The pixels that both rectangles hold, if there are any.
    pub open spec fn overlap(self, other: Rect) -> Option<Rect> {
        let x1 = max_of(self.x as int, other.x as int);
        let y1 = max_of(self.y as int, other.y as int);
        let x2 = min_of(self.right_edge(), other.right_edge());
        let y2 = min_of(self.bottom_edge(), other.bottom_edge());
        if x1 < x2 && y1 < y2 {
            Some(Rect { x: x1 as i32, y: y1 as i32, width: (x2 - x1) as u32, height: (y2 - y1) as u32 })
        } else {
            None
        }
    }

    /// The smallest rectangle that holds both; an empty rectangle adds
    /// nothing to the other.
    pub open spec fn hull(self, other: Rect) -> Rect {
        if self.empty() {
            other
        } else if other.empty() {
            self
        } else {
            let x1 = min_of(self.x as int, other.x as int);
            let y1 = min_of(self.y as int, other.y as int);
            let x2 = max_of(self.right_edge(), other.right_edge());
            let y2 = max_of(self.bottom_edge(), other.bottom_edge());
            Rect { x: x1 as i32, y: y1 as i32, width: (x2 - x1) as u32, height: (y2 - y1) as u32 }
        }
    }

    /// True when the size of the overlap fits a signed 32-bit number. It
    /// does whenever one of the two has no negative coordinate.
    pub open spec fn overlap_fits(self, other: Rect) -> bool {
        let x1 = max_of(self.x as int, other.x as int);
        let y1 = max_of(self.y as int, other.y as int);
        let x2 = min_of(self.right_edge(), other.right_edge());
        let y2 = min_of(self.bottom_edge(), other.bottom_edge());
        x1 < x2 && y1 < y2 ==> x2 - x1 <= 0x7FFF_FFFF && y2 - y1 <= 0x7FFF_FFFF
    }

    /// True when the size of the hull fits a signed 32-bit number, or one
    /// of the two is empty. It does whenever neither has a negative
    /// coordinate.
    pub open spec fn hull_fits(self, other: Rect) -> bool {
        let x1 = min_of(self.x as int, other.x as int);
        let y1 = min_of(self.y as int, other.y as int);
        let x2 = max_of(self.right_edge(), other.right_edge());
        let y2 = max_of(self.bottom_edge(), other.bottom_edge());
        !self.empty() && !other.empty() ==> -0x8000_0000 <= x2 - x1 <= 0x7FFF_FFFF && -0x8000_0000
            <= y2 - y1 <= 0x7FFF_FFFF
    }

    /// Calls `gfx_types::Rect::right`: the left edge plus the width read as
    /// a signed number, held to 32 bits.
    #[verifier::external_body]
    pub(crate) fn right(&self) -> (r: i32)
        ensures
            r == self.right_edge(),
    {
        gfx_types::Rect::new(self.x, self.y, self.width, self.height).right()
    }

    /// Calls `gfx_types::Rect::bottom`: the top edge plus the height read as
    /// a signed number, held to 32 bits.
    #[verifier::external_body]
    pub(crate) fn bottom(&self) -> (r: i32)
        ensures
            r == self.bottom_edge(),
    {
        gfx_types::Rect::new(self.x, self.y, self.width, self.height).bottom()
    }

    /// Calls `gfx_types::Rect::is_empty`: true when the width or the height
    /// is zero.
    #[verifier::external_body]
    pub(crate) fn is_empty(&self) -> (b: bool)
        ensures
            b == self.empty(),
    {
        gfx_types::Rect::new(self.x, self.y, self.width, self.height).is_empty()
    }

    /// Calls `gfx_types::Rect::contains_point`: true when the point is at or
    /// after the left and top edges and before the right and bottom edges.
    #[verifier::external_body]
    pub(crate) fn contains_point(&self, p: Point) -> (b: bool)
        ensures
            b == self.holds_point(p),
    {
        gfx_types::Rect::new(self.x, self.y, self.width, self.height).contains_point(
            gfx_types::Point::new(p.x, p.y),
        )
    }

    /// Calls `gfx_types::Rect::intersects`: true when each rectangle starts
    /// before the other ends, in both directions.
    #[verifier::external_body]
    pub(crate) fn intersects(&self, other: &Rect) -> (b: bool)
        ensures
            b == self.overlaps(*other),
    {
        gfx_types::Rect::new(self.x, self.y, self.width, self.height).intersects(
            &gfx_types::Rect::new(other.x, other.y, other.width, other.height),
        )
    }

    /// Calls `gfx_types::Rect::intersection`: the rectangle from the larger
    /// of the left and top edges to the smaller of the right and bottom
    /// edges, or nothing when that holds no pixel. The outside function
    /// subtracts edges in 32 bits, which `overlap_fits` keeps in range.
    #[verifier::external_body]
    pub(crate) fn intersection(&self, other: &Rect) -> (r: Option<Rect>)
        requires
            self.overlap_fits(*other),
        ensures
            r == self.overlap(*other),
    {
        let a = gfx_types::Rect::new(self.x, self.y, self.width, self.height);
        let b = gfx_types::Rect::new(other.x, other.y, other.width, other.height);
        match a.intersection(&b) {
            Some(c) => Some(Rect { x: c.x, y: c.y, width: c.width, height: c.height }),
            None => None,
        }
    }

    /// Calls `gfx_types::Rect::union`: the other rectangle when one is
    /// empty, else the rectangle from the smaller of the left and top edges
    /// to the larger of the right and bottom edges. The outside function
    /// subtracts edges in 32 bits, which `hull_fits` keeps in range.
    #[verifier::external_body]
    pub(crate) fn union(&self, other: &Rect) -> (r: Rect)
        requires
            self.hull_fits(*other),
        ensures
            r == self.hull(*other),
    {
        let a = gfx_types::Rect::new(self.x, self.y, self.width, self.height);
        let b = gfx_types::Rect::new(other.x, other.y, other.width, other.height);
        let c = a.union(&b);
        Rect { x: c.x, y: c.y, width: c.width, height: c.height }
    }
}

} // verus!
