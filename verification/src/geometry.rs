//! Integer geometry in logical compositor space: points, sizes and rectangles.

use vstd::prelude::*;

verus! {

/// Smallest of two integers.
pub open spec fn min2(a: int, b: int) -> int {
    if a <= b { a } else { b }
}

/// Largest of two integers.
pub open spec fn max2(a: int, b: int) -> int {
    if a >= b { a } else { b }
}

/// Whether an integer is representable as an `i32`.
pub open spec fn fits_i32(v: int) -> bool {
    i32::MIN <= v <= i32::MAX
}

/// A point (or an offset) in logical coordinates.
#[derive(Clone, Copy, PartialEq, Eq, Structural, Debug)]
pub struct Point {
    pub x: i32,
    pub y: i32,
}

/// A size (width and height) in logical coordinates.
#[derive(Clone, Copy, PartialEq, Eq, Structural, Debug)]
pub struct Size {
    pub w: i32,
    pub h: i32,
}

/// An axis-aligned rectangle given by its top-left corner and its size.
#[derive(Clone, Copy, PartialEq, Eq, Structural, Debug)]
pub struct Rectangle {
    pub loc: Point,
    pub size: Size,
}

impl Point {
    /// Whether the sum of two points stays within `i32`.
    pub open spec fn add_fits(self, other: Point) -> bool {
        fits_i32(self.x + other.x) && fits_i32(self.y + other.y)
    }

    /// Component-wise sum of two points.
    pub fn add(self, other: Point) -> (r: Point)
        requires
            self.add_fits(other),
        ensures
            r.x == self.x + other.x,
            r.y == self.y + other.y,
    {
        Point { x: self.x + other.x, y: self.y + other.y }
    }
}

impl Rectangle {
    /// Left edge.
    pub open spec fn left(self) -> int {
        self.loc.x as int
    }

    /// Top edge.
    pub open spec fn top(self) -> int {
        self.loc.y as int
    }

    /// Right edge (exclusive): `x + w`.
    pub open spec fn right(self) -> int {
        self.loc.x + self.size.w
    }

    /// Bottom edge (exclusive): `y + h`.
    pub open spec fn bottom(self) -> int {
        self.loc.y + self.size.h
    }

    /// Whether the right and bottom edges are representable.
    pub open spec fn edges_fit(self) -> bool {
        fits_i32(self.right()) && fits_i32(self.bottom())
    }

    /// Smallest x among the corners of two rectangles.
    pub open spec fn merged_min_x(self, other: Rectangle) -> int {
        min2(min2(self.left(), self.right()), min2(other.left(), other.right()))
    }

    /// Smallest y among the corners of two rectangles.
    pub open spec fn merged_min_y(self, other: Rectangle) -> int {
        min2(min2(self.top(), self.bottom()), min2(other.top(), other.bottom()))
    }

    /// Largest x among the corners of two rectangles.
    pub open spec fn merged_max_x(self, other: Rectangle) -> int {
        max2(max2(self.left(), self.right()), max2(other.left(), other.right()))
    }

    /// Largest y among the corners of two rectangles.
    pub open spec fn merged_max_y(self, other: Rectangle) -> int {
        max2(max2(self.top(), self.bottom()), max2(other.top(), other.bottom()))
    }

    /// Whether merging two rectangles can be computed without leaving `i32`.
    pub open spec fn merge_fits(self, other: Rectangle) -> bool {
        &&& self.edges_fit()
        &&& other.edges_fit()
        &&& fits_i32(self.merged_max_x(other) - self.merged_min_x(other))
        &&& fits_i32(self.merged_max_y(other) - self.merged_min_y(other))
    }

    /// The bounding box of the four corner points of two rectangles.
    pub open spec fn spec_merge(self, other: Rectangle) -> Rectangle {
        Rectangle {
            loc: Point {
                x: self.merged_min_x(other) as i32,
                y: self.merged_min_y(other) as i32,
            },
            size: Size {
                w: (self.merged_max_x(other) - self.merged_min_x(other)) as i32,
                h: (self.merged_max_y(other) - self.merged_min_y(other)) as i32,
            },
        }
    }

    /// Whether the corners of `inner` lie inside the span of the corners of
    /// this rectangle (edges inclusive).
    pub open spec fn encloses(self, inner: Rectangle) -> bool {
        &&& min2(self.left(), self.right()) <= min2(inner.left(), inner.right())
        &&& min2(self.top(), self.bottom()) <= min2(inner.top(), inner.bottom())
        &&& max2(inner.left(), inner.right()) <= max2(self.left(), self.right())
        &&& max2(inner.top(), inner.bottom()) <= max2(self.top(), self.bottom())
    }

    /// A merged rectangle encloses both rectangles it was merged from.
    pub proof fn lemma_merge_encloses(self, other: Rectangle)
        requires
            self.merge_fits(other),
        ensures
            self.spec_merge(other).encloses(self),
            self.spec_merge(other).encloses(other),
    {
    }

    /// Merging does not depend on the order of the two rectangles, and
    /// neither does overlapping.
    pub proof fn lemma_merge_and_overlap_symmetric(self, other: Rectangle)
        ensures
            self.spec_merge(other) == other.spec_merge(self),
            self.spec_overlaps(other) == other.spec_overlaps(self),
    {
    }

    /// Build a rectangle from its location and size.
    pub fn from_loc_and_size(loc: Point, size: Size) -> (r: Rectangle)
        ensures
            r.loc == loc,
            r.size == size,
    {
        Rectangle { loc, size }
    }

    /// The smallest rectangle containing both rectangles (the bounding box of
    /// their corners).
    pub fn merge(self, other: Rectangle) -> (r: Rectangle)
        requires
            self.merge_fits(other),
        ensures
            r == self.spec_merge(other),
            r.encloses(self),
            r.encloses(other),
    {
        let ax1 = self.loc.x;
        let ax2 = self.loc.x + self.size.w;
        let bx1 = other.loc.x;
        let bx2 = other.loc.x + other.size.w;
        let ay1 = self.loc.y;
        let ay2 = self.loc.y + self.size.h;
        let by1 = other.loc.y;
        let by2 = other.loc.y + other.size.h;
        let min_a_x = if ax1 <= ax2 { ax1 } else { ax2 };
        let min_b_x = if bx1 <= bx2 { bx1 } else { bx2 };
        let min_x = if min_a_x <= min_b_x { min_a_x } else { min_b_x };
        let max_a_x = if ax1 >= ax2 { ax1 } else { ax2 };
        let max_b_x = if bx1 >= bx2 { bx1 } else { bx2 };
        let max_x = if max_a_x >= max_b_x { max_a_x } else { max_b_x };
        let min_a_y = if ay1 <= ay2 { ay1 } else { ay2 };
        let min_b_y = if by1 <= by2 { by1 } else { by2 };
        let min_y = if min_a_y <= min_b_y { min_a_y } else { min_b_y };
        let max_a_y = if ay1 >= ay2 { ay1 } else { ay2 };
        let max_b_y = if by1 >= by2 { by1 } else { by2 };
        let max_y = if max_a_y >= max_b_y { max_a_y } else { max_b_y };
        Rectangle {
            loc: Point { x: min_x, y: min_y },
            size: Size { w: max_x - min_x, h: max_y - min_y },
        }
    }

    /// Whether two rectangles overlap, touching edges included.
    pub open spec fn spec_overlaps(self, other: Rectangle) -> bool {
        !(self.right() < other.left() || self.left() > other.right() || self.bottom()
            < other.top() || self.top() > other.bottom())
    }

    /// Whether two rectangles overlap. Rectangles that share an edge count as
    /// overlapping.
    pub fn overlaps(self, other: Rectangle) -> (r: bool)
        requires
            self.edges_fit(),
            other.edges_fit(),
        ensures
            r == self.spec_overlaps(other),
    {
        !(self.loc.x + self.size.w < other.loc.x || self.loc.x > other.loc.x + other.size.w
            || self.loc.y + self.size.h < other.loc.y || self.loc.y > other.loc.y
            + other.size.h)
    }
}

} // verus!
