//! Integer geometry in logical pixels.
//!
//! Pointer positions are 32-bit. Rectangles carry 64-bit fields and are
//! *well formed* when their size is non-negative and all four edges lie
//! within `COORD_LIMIT` of the origin, which leaves ample room around every
//! pointer position and keeps all edge arithmetic inside `i64`.

use vstd::prelude::*;

verus! {

/// Largest magnitude an edge of a well-formed rectangle may have.
pub const COORD_LIMIT: i64 = 0x100_0000_0000;

/// A pointer position.
#[derive(Clone, Copy, Debug, PartialEq, Eq, Structural)]
pub struct Point {
    pub x: i32,
    pub y: i32,
}

/// An axis-aligned rectangle given by its top-left corner and its size.
#[derive(Clone, Copy, Debug, PartialEq, Eq, Structural)]
pub struct Rect {
    pub x: i64,
    pub y: i64,
    pub width: i64,
    pub height: i64,
}

impl Point {
    pub fn new(x: i32, y: i32) -> (p: Point)
        ensures
            p == (Point { x, y }),
    {
        Point { x, y }
    }
}

impl Rect {
    /// The x coordinate just past the right edge.
    pub open spec fn right(self) -> int {
        self.x + self.width
    }

    /// The y coordinate just past the bottom edge.
    pub open spec fn bottom(self) -> int {
        self.y + self.height
    }

    /// Non-negative size and every edge within `COORD_LIMIT` of the origin.
    pub open spec fn wf(self) -> bool {
        &&& 0 <= self.width
        &&& 0 <= self.height
        &&& -COORD_LIMIT <= self.x
        &&& -COORD_LIMIT <= self.y
        &&& self.right() <= COORD_LIMIT
        &&& self.bottom() <= COORD_LIMIT
    }

    /// Whether `p` lies inside: the left and top edges belong to the
    /// rectangle, the right and bottom edges do not.
    pub open spec fn contains(self, p: Point) -> bool {
        &&& self.x <= p.x < self.right()
        &&& self.y <= p.y < self.bottom()
    }

    /// Whether `inner` lies fully inside, edges included.
    pub open spec fn encloses(self, inner: Rect) -> bool {
        &&& self.x <= inner.x
        &&& self.y <= inner.y
        &&& inner.right() <= self.right()
        &&& inner.bottom() <= self.bottom()
    }

    /// The rectangle with corners `(left, top)` and `(right, bottom)`.
    pub open spec fn from_edges(left: int, top: int, right: int, bottom: int) -> Rect {
        Rect {
            x: left as i64,
            y: top as i64,
            width: (right - left) as i64,
            height: (bottom - top) as i64,
        }
    }

    pub fn new(x: i64, y: i64, width: i64, height: i64) -> (r: Rect)
        ensures
            r == (Rect { x, y, width, height }),
    {
        Rect { x, y, width, height }
    }

    /// Decides well-formedness.
    pub fn is_valid(&self) -> (ok: bool)
        ensures
            ok == self.wf(),
    {
        0 <= self.width && self.width <= 2 * COORD_LIMIT && 0 <= self.height && self.height <= 2
            * COORD_LIMIT && -COORD_LIMIT <= self.x && self.x <= COORD_LIMIT && -COORD_LIMIT
            <= self.y && self.y <= COORD_LIMIT && self.x + self.width <= COORD_LIMIT && self.y
            + self.height <= COORD_LIMIT
    }

    /// Decides `contains` for a well-formed rectangle.
    pub fn contains_point(&self, p: Point) -> (inside: bool)
        requires
            self.wf(),
        ensures
            inside == self.contains(p),
    {
        let px: i64 = p.x as i64;
        let py: i64 = p.y as i64;
        self.x <= px && px < self.x + self.width && self.y <= py && py < self.y + self.height
    }

    /// Decides `encloses` for two well-formed rectangles.
    pub fn encloses_rect(&self, inner: &Rect) -> (inside: bool)
        requires
            self.wf(),
            inner.wf(),
        ensures
            inside == self.encloses(*inner),
    {
        self.x <= inner.x && self.y <= inner.y && inner.x + inner.width <= self.x + self.width
            && inner.y + inner.height <= self.y + self.height
    }
}

/// A rectangle enclosed by a well-formed rectangle is well formed whenever
/// its own size is non-negative.
pub proof fn law_enclosed_is_well_formed(outer: Rect, inner: Rect)
    requires
        outer.wf(),
        outer.encloses(inner),
        0 <= inner.width,
        0 <= inner.height,
    ensures
        inner.wf(),
{
}

} // verus!
