//! Axis-aligned rectangles with a strict-overlap intersection predicate.

use vstd::prelude::*;

verus! {

/// An axis-aligned rectangle: origin `(x, y)` plus non-negative extents.
#[derive(Clone, Copy, Debug, PartialEq, Eq, Structural)]
pub struct Rect {
    pub x: i32,
    pub y: i32,
    pub width: u32,
    pub height: u32,
}

/// The open interval `(l1, r1)` meets the open interval `(l2, r2)`: the
/// larger left end lies strictly left of the smaller right end.
pub open spec fn ranges_overlap(l1: int, r1: int, l2: int, r2: int) -> bool {
    (if l2 > l1 {
        l2
    } else {
        l1
    }) < (if r2 < r1 {
        r2
    } else {
        r1
    })
}

impl Rect {
    /// The rectangle's extents stay within machine range, so that its right
    /// and bottom edges can be computed in 32-bit arithmetic.
    pub open spec fn in_range(self) -> bool {
        &&& self.width <= i32::MAX
        &&& self.height <= i32::MAX
        &&& self.x + self.width <= i32::MAX
        &&& self.y + self.height <= i32::MAX
    }

    /// True iff the two rectangles overlap with strictly positive area:
    /// their projections overlap on both axes.  Rectangles that only touch at
    /// an edge or corner do not intersect, and a rectangle of zero width or
    /// height intersects nothing.
    pub open spec fn spec_intersects(self, other: Rect) -> bool {
        &&& ranges_overlap(self.x as int, self.x + self.width, other.x as int, other.x + other.width)
        &&& ranges_overlap(
            self.y as int,
            self.y + self.height,
            other.y as int,
            other.y + other.height,
        )
    }

    pub fn new(x: i32, y: i32, width: u32, height: u32) -> (r: Rect)
        ensures
            r == (Rect { x, y, width, height }),
    {
        Rect { x, y, width, height }
    }

    /// Strict-overlap intersection test on both axes.
    pub fn has_intersection(&self, other: &Rect) -> (r: bool)
        requires
            self.in_range(),
            other.in_range(),
        ensures
            r == self.spec_intersects(*other),
    {
        /* Horizontal intersection */
        let mut a_min = self.x;
        let mut a_max = a_min + self.width as i32;
        let mut b_min = other.x;
        let mut b_max = b_min + other.width as i32;

        if b_min > a_min {
            a_min = b_min;
        }
        if b_max < a_max {
            a_max = b_max;
        }

        if a_max <= a_min {
            return false;
        }

        /* Vertical intersection */
        a_min = self.y;
        a_max = a_min + self.height as i32;
        b_min = other.y;
        b_max = b_min + other.height as i32;
        if b_min > a_min {
            a_min = b_min;
        }
        if b_max < a_max {
            a_max = b_max;
        }

        if a_max <= a_min {
            return false;
        }

        true
    }
}

/// Intersection is symmetric: for all rectangles `a` and `b`,
/// `a` intersects `b` exactly when `b` intersects `a`.
pub proof fn lemma_intersects_symmetric(a: Rect, b: Rect)
    ensures
        a.spec_intersects(b) == b.spec_intersects(a),
{
}

/// Rectangles that share only a boundary edge or corner (so their overlap has
/// zero area) do not intersect: if one rectangle starts exactly where the
/// other ends on either axis, the test is false both ways round.
pub proof fn lemma_touching_does_not_intersect(a: Rect, b: Rect)
    requires
        a.x + a.width == b.x || b.x + b.width == a.x || a.y + a.height == b.y || b.y + b.height
            == a.y,
    ensures
        !a.spec_intersects(b),
        !b.spec_intersects(a),
{
}

} // verus!
