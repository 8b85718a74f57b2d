//! Screen-space points and rectangles in whole logical pixels.
use vstd::prelude::*;

verus! {

/// A point or a displacement in screen space (y grows downwards).
#[derive(Clone, Copy, Debug, PartialEq, Eq, Structural, Default)]
pub struct Point {
    pub x: i64,
    pub y: i64,
}

/// An axis-aligned rectangle given by its two corners.
#[derive(Clone, Copy, Debug, PartialEq, Eq, Structural, Default)]
pub struct Rect {
    pub min: Point,
    pub max: Point,
}

impl Point {
    pub fn new(x: i64, y: i64) -> (p: Point)
        ensures
            p.x == x,
            p.y == y,
    {
        Point { x, y }
    }
}

impl Rect {
    /// Whether `p` lies in the rectangle, edges included.
    pub open spec fn spec_contains(self, p: Point) -> bool {
        self.min.x <= p.x <= self.max.x && self.min.y <= p.y <= self.max.y
    }

    /// The rectangle with top-left corner `(left, top)` and the given size.
    pub fn from_origin_size(left: i64, top: i64, width: i64, height: i64) -> (r: Rect)
        requires
            width >= 0,
            height >= 0,
            left + width <= i64::MAX,
            top + height <= i64::MAX,
        ensures
            r.min == (Point { x: left, y: top }),
            r.max.x == left + width,
            r.max.y == top + height,
    {
        Rect { min: Point { x: left, y: top }, max: Point { x: left + width, y: top + height } }
    }

    pub fn contains(&self, p: Point) -> (b: bool)
        ensures
            b == self.spec_contains(p),
    {
        self.min.x <= p.x && p.x <= self.max.x && self.min.y <= p.y && p.y <= self.max.y
    }
}

} // verus!
