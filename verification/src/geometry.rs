//! Rectangles in pixel coordinates and their centres.

use vstd::prelude::*;

verus! {

/// An axis-aligned rectangle: origin and extents.
///
/// The origin is a pixel position. The extents are signed and wide enough to
/// hold the difference of any two pixel coordinates, so a drag between any two
/// positions is represented exactly, also one that runs leftwards or upwards.
#[derive(Clone, Copy, Debug, PartialEq, Eq, Structural)]
pub struct Rect {
    pub x: i32,
    pub y: i32,
    pub width: i64,
    pub height: i64,
}

/// A position with the precision of one pixel.
#[derive(Clone, Copy, Debug, PartialEq, Eq, Structural)]
pub struct Point {
    pub x: i64,
    pub y: i64,
}

/// Half of `extent`, rounded towards negative infinity.
pub open spec fn half(extent: int) -> int {
    extent / 2
}

/// Half of `extent`, rounded towards negative infinity.
pub fn half_floor(extent: i64) -> (h: i64)
    ensures
        h == half(extent as int),
        2 * h <= extent < 2 * h + 2,
{
    if extent >= 0 {
        extent / 2
    } else {
        let below: i64 = -(extent + 1);
        -(below / 2) - 1
    }
}

impl Rect {
    /// The rectangle at the origin with no extent.
    pub open spec fn spec_empty() -> Rect {
        Rect { x: 0, y: 0, width: 0, height: 0 }
    }

    /// Whether both extents are strictly positive. Only such a rectangle can
    /// become an active selection.
    pub open spec fn is_committable(self) -> bool {
        self.width > 0 && self.height > 0
    }

    /// The centre: the origin moved by half of each extent. Both coordinates
    /// are within the range of `Point` for every rectangle.
    pub open spec fn spec_centroid(self) -> Point {
        Point {
            x: (self.x + half(self.width as int)) as i64,
            y: (self.y + half(self.height as int)) as i64,
        }
    }

    /// The rectangle at the origin with no extent.
    pub fn empty() -> (r: Rect)
        ensures
            r == Rect::spec_empty(),
            !r.is_committable(),
    {
        Rect { x: 0, y: 0, width: 0, height: 0 }
    }

    /// Whether both extents are strictly positive.
    pub fn committable(&self) -> (b: bool)
        ensures
            b == self.is_committable(),
    {
        self.width > 0 && self.height > 0
    }

    /// The centre of the rectangle, `(x + width / 2, y + height / 2)`, each
    /// half rounded towards negative infinity. No rectangle overflows it.
    pub fn centroid(&self) -> (c: Point)
        ensures
            c == self.spec_centroid(),
            c.x == self.x + self.width / 2,
            c.y == self.y + self.height / 2,
            2 * (c.x - self.x) <= self.width < 2 * (c.x - self.x) + 2,
            2 * (c.y - self.y) <= self.height < 2 * (c.y - self.y) + 2,
    {
        let hx: i64 = half_floor(self.width);
        let hy: i64 = half_floor(self.height);
        Point { x: self.x as i64 + hx, y: self.y as i64 + hy }
    }
}

} // verus!
