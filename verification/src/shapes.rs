//! Geometry of the writing surface: points, line-segment strokes and the
//! rectangular capture bound.
//!
//! Coordinates are integers in surface space. Segment lengths are compared
//! through their squares, so no square root is ever taken and every
//! comparison against a threshold is exact.

use vstd::math::{max, min};
use vstd::prelude::*;

verus! {

/// A position in surface space.
#[derive(Clone, Copy, Debug, PartialEq, Eq, Structural)]
pub struct Point {
    pub x: i32,
    pub y: i32,
}

impl Point {
    /// The square of the Euclidean distance between two points.
    pub open spec fn spec_distance_squared(self, other: Point) -> int {
        (self.x - other.x) * (self.x - other.x) + (self.y - other.y) * (self.y - other.y)
    }

    pub fn distance_squared(&self, other: &Point) -> (r: i128)
        ensures
            r == self.spec_distance_squared(*other),
    {
        let dx: i128 = self.x as i128 - other.x as i128;
        let dy: i128 = self.y as i128 - other.y as i128;
        proof {
            assert(-0x100000000 <= dx <= 0x100000000);
            assert(-0x100000000 <= dy <= 0x100000000);
            assert(0 <= dx * dx <= 0x10000000000000000) by (nonlinear_arith)
                requires
                    -0x100000000 <= dx <= 0x100000000,
            ;
            assert(0 <= dy * dy <= 0x10000000000000000) by (nonlinear_arith)
                requires
                    -0x100000000 <= dy <= 0x100000000,
            ;
        }
        dx * dx + dy * dy
    }
}

/// One drawable line segment. A continuous pen trace is an ordered list of
/// strokes; only the most recently appended stroke is ever mutated, and only
/// its `end`.
#[derive(Clone, Copy, Debug, PartialEq, Eq, Structural)]
pub struct Stroke {
    pub start: Point,
    pub end: Point,
}

impl Stroke {
    /// The square of this segment's Euclidean length.
    pub open spec fn spec_length_squared(self) -> int {
        self.start.spec_distance_squared(self.end)
    }

    pub fn length_squared(&self) -> (r: i128)
        ensures
            r == self.spec_length_squared(),
    {
        self.start.distance_squared(&self.end)
    }
}

/// An axis-aligned rectangle given by two corner points in either order.
#[derive(Clone, Copy, Debug, PartialEq, Eq, Structural)]
pub struct Rect {
    pub x1: i32,
    pub y1: i32,
    pub x2: i32,
    pub y2: i32,
}

impl Rect {
    /// Whether `point` lies inside the rectangle, borders included. The
    /// corners may be given in any order.
    pub open spec fn spec_contains(self, point: Point) -> bool {
        &&& min(self.x1 as int, self.x2 as int) <= point.x <= max(self.x1 as int, self.x2 as int)
        &&& min(self.y1 as int, self.y2 as int) <= point.y <= max(self.y1 as int, self.y2 as int)
    }

    pub fn contains(&self, point: &Point) -> (r: bool)
        ensures
            r == self.spec_contains(*point),
    {
        let x1 = if self.x1 <= self.x2 {
            self.x1
        } else {
            self.x2
        };
        let x2 = if self.x1 <= self.x2 {
            self.x2
        } else {
            self.x1
        };
        let y1 = if self.y1 <= self.y2 {
            self.y1
        } else {
            self.y2
        };
        let y2 = if self.y1 <= self.y2 {
            self.y2
        } else {
            self.y1
        };
        x1 <= point.x && point.x <= x2 && y1 <= point.y && point.y <= y2
    }
}

} // verus!
