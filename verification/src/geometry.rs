//! Lengths, positions and layout bounds.
//!
//! Every length and coordinate is a whole number of tenths of a layout unit,
//! so that the height of a line of text, 1.2 times its font size, is exact.

use vstd::prelude::*;

verus! {

/// Tenths in one layout unit.
pub const UNIT: u64 = 10;

/// A position, in tenths of a layout unit. `y` grows downwards.
#[derive(Clone, Copy, Debug, PartialEq, Eq, Structural)]
pub struct Point {
    pub x: i64,
    pub y: i64,
}

/// The extent of a node, in tenths of a layout unit.
#[derive(Clone, Copy, Debug, PartialEq, Eq, Structural)]
pub struct Size {
    pub width: u64,
    pub height: u64,
}

/// Bounds that a parent hands to a child when it asks for its size.
#[derive(Clone, Copy, Debug, PartialEq, Eq, Structural)]
pub struct LayoutConstraint {
    pub min_width: u64,
    pub max_width: u64,
    pub min_height: u64,
    pub max_height: u64,
}

/// `y` moved down by `height`, stopping at the largest coordinate.
pub open spec fn lowered(y: i64, height: u64) -> i64 {
    if y + height > i64::MAX {
        i64::MAX
    } else {
        (y + height) as i64
    }
}

/// `total` as a length, stopping at the largest length.
pub open spec fn clipped(total: int) -> u64 {
    if total > u64::MAX {
        u64::MAX
    } else if total < 0 {
        0
    } else {
        total as u64
    }
}

impl Point {
    /// The origin.
    pub open spec fn origin() -> Point {
        Point { x: 0, y: 0 }
    }

    /// This point moved down by `height`.
    pub open spec fn spec_below(self, height: u64) -> Point {
        Point { x: self.x, y: lowered(self.y, height) }
    }

    /// This point moved down by `height`; the coordinate saturates.
    #[verifier::when_used_as_spec(spec_below)]
    pub fn below(self, height: u64) -> (moved: Point)
        ensures
            moved == self.spec_below(height),
    {
        let target: i128 = self.y as i128 + height as i128;
        if target > i64::MAX as i128 {
            Point { x: self.x, y: i64::MAX }
        } else {
            Point { x: self.x, y: target as i64 }
        }
    }
}

impl Size {
    /// The size of nothing.
    pub open spec fn zero() -> Size {
        Size { width: 0, height: 0 }
    }
}

impl LayoutConstraint {
    /// The bounds that `default` gives: every bound is zero.
    pub open spec fn empty() -> LayoutConstraint {
        LayoutConstraint { min_width: 0, max_width: 0, min_height: 0, max_height: 0 }
    }
}

impl Default for Point {
    fn default() -> (point: Point)
        ensures
            point == Point::origin(),
    {
        Point { x: 0, y: 0 }
    }
}

impl Default for Size {
    fn default() -> (size: Size)
        ensures
            size == Size::zero(),
    {
        Size { width: 0, height: 0 }
    }
}

impl Default for LayoutConstraint {
    fn default() -> (constraints: LayoutConstraint)
        ensures
            constraints == LayoutConstraint::empty(),
    {
        LayoutConstraint { min_width: 0, max_width: 0, min_height: 0, max_height: 0 }
    }
}

} // verus!
