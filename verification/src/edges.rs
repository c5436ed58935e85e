//! The set of window edges an interactive resize is dragging.

use vstd::prelude::*;

verus! {

/// No edge.
pub const NONE: u32 = 0;

/// The top edge.
pub const TOP: u32 = 1;

/// The bottom edge.
pub const BOTTOM: u32 = 2;

/// The left edge.
pub const LEFT: u32 = 4;

/// The top-left corner.
pub const TOP_LEFT: u32 = 5;

/// The bottom-left corner.
pub const BOTTOM_LEFT: u32 = 6;

/// The right edge.
pub const RIGHT: u32 = 8;

/// The top-right corner.
pub const TOP_RIGHT: u32 = 9;

/// The bottom-right corner.
pub const BOTTOM_RIGHT: u32 = 10;

/// The union of every edge flag.
pub const ALL: u32 = 15;

/// A set of edges, as a bit set over `TOP`, `BOTTOM`, `LEFT` and `RIGHT`.
/// Every value holds only bits of `ALL`.
#[derive(Clone, Copy, PartialEq, Eq, Structural, Debug)]
pub struct ResizeEdge {
    pub bits: u32,
}

impl ResizeEdge {
    /// Every bit is one of the four edge flags.
    pub open spec fn wf(self) -> bool {
        self.bits < 16
    }

    /// The edge set holding exactly `bits`, if every bit names an edge.
    pub fn from_bits(bits: u32) -> (r: Option<ResizeEdge>)
        ensures
            r is Some <==> bits < 16,
            r matches Some(e) ==> e.bits == bits && e.wf(),
    {
        proof {
            assert((bits & !15u32 == 0) <==> bits < 16) by (bit_vector);
        }
        if bits & !ALL == 0 {
            Some(ResizeEdge { bits })
        } else {
            None
        }
    }

    /// The raw bits of this edge set.
    pub fn bits(self) -> (r: u32)
        ensures
            r == self.bits,
    {
        self.bits
    }

    /// Whether this set shares at least one edge with `mask`.
    pub open spec fn spec_intersects(self, mask: u32) -> bool {
        self.bits & mask != 0
    }

    /// Whether this set shares at least one edge with `mask`.
    pub fn intersects(self, mask: u32) -> (r: bool)
        ensures
            r == self.spec_intersects(mask),
    {
        self.bits & mask != 0
    }
}

} // verus!
