//! Integer geometry in minimap coordinates.
use vstd::prelude::*;

verus! {

/// Largest magnitude a coordinate or an extent may have.
///
/// Two coordinates within the limit can always be subtracted in `i32`.
pub const COORDINATE_LIMIT: i32 = 1_000_000_000;

/// A point of the minimap.
#[derive(Clone, Copy, Debug, PartialEq, Eq, Structural, Hash)]
pub struct Point {
    pub x: i32,
    pub y: i32,
}

impl Point {
    /// Both coordinates are within [`COORDINATE_LIMIT`] of the origin.
    pub open spec fn in_range(self) -> bool {
        &&& -COORDINATE_LIMIT <= self.x <= COORDINATE_LIMIT
        &&& -COORDINATE_LIMIT <= self.y <= COORDINATE_LIMIT
    }

    pub fn new(x: i32, y: i32) -> (point: Point)
        ensures
            point == (Point { x, y }),
    {
        Point { x, y }
    }

    /// Tells whether the point may take part in distance computations.
    pub fn is_in_range(&self) -> (ok: bool)
        ensures
            ok == self.in_range(),
    {
        -COORDINATE_LIMIT <= self.x && self.x <= COORDINATE_LIMIT && -COORDINATE_LIMIT <= self.y
            && self.y <= COORDINATE_LIMIT
    }
}

impl Default for Point {
    fn default() -> (point: Point)
        ensures
            point == (Point { x: 0, y: 0 }),
    {
        Point { x: 0, y: 0 }
    }
}

/// An axis-aligned rectangle of the minimap, anchored at its top-left corner.
#[derive(Clone, Copy, Debug, PartialEq, Eq, Structural, Hash)]
pub struct Rect {
    pub x: i32,
    pub y: i32,
    pub width: i32,
    pub height: i32,
}

impl Rect {
    /// The corner is in range and the extents are non-negative and within
    /// [`COORDINATE_LIMIT`].
    pub open spec fn in_range(self) -> bool {
        &&& -COORDINATE_LIMIT <= self.x <= COORDINATE_LIMIT
        &&& -COORDINATE_LIMIT <= self.y <= COORDINATE_LIMIT
        &&& 0 <= self.width <= COORDINATE_LIMIT
        &&& 0 <= self.height <= COORDINATE_LIMIT
    }

    /// The point lies inside the rectangle, the right and bottom edges excluded.
    pub open spec fn spec_contains(self, point: Point) -> bool {
        &&& self.x <= point.x < self.x + self.width
        &&& self.y <= point.y < self.y + self.height
    }

    pub fn new(x: i32, y: i32, width: i32, height: i32) -> (rect: Rect)
        ensures
            rect == (Rect { x, y, width, height }),
    {
        Rect { x, y, width, height }
    }

    pub fn is_in_range(&self) -> (ok: bool)
        ensures
            ok == self.in_range(),
    {
        -COORDINATE_LIMIT <= self.x && self.x <= COORDINATE_LIMIT && -COORDINATE_LIMIT <= self.y
            && self.y <= COORDINATE_LIMIT && 0 <= self.width && self.width <= COORDINATE_LIMIT
            && 0 <= self.height && self.height <= COORDINATE_LIMIT
    }

    /// Tests whether `point` lies inside the rectangle.
    pub fn contains(&self, point: Point) -> (inside: bool)
        requires
            self.in_range(),
        ensures
            inside == self.spec_contains(point),
    {
        self.x <= point.x && point.x < self.x + self.width && self.y <= point.y && point.y
            < self.y + self.height
    }
}

impl Default for Rect {
    fn default() -> (rect: Rect)
        ensures
            rect == (Rect { x: 0, y: 0, width: 0, height: 0 }),
    {
        Rect { x: 0, y: 0, width: 0, height: 0 }
    }
}

} // verus!
