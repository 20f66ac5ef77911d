//! The axis of a split, and the sizes and positions measured along it.

use vstd::prelude::*;

verus! {

/// How the two panes sit beside each other.
#[derive(Clone, Copy, Debug, PartialEq, Eq, Structural)]
pub enum SplitOrientation {
    /// Left and right; the split axis is the width.
    Horizontal,
    /// Top and bottom; the split axis is the height.
    Vertical,
}

/// The size of the container, in raw pixels.
#[derive(Clone, Copy, Debug, PartialEq, Eq, Structural)]
pub struct Size {
    pub width: i64,
    pub height: i64,
}

/// A pointer position inside the container, in raw pixels.
#[derive(Clone, Copy, Debug, PartialEq, Eq, Structural)]
pub struct Point {
    pub x: i64,
    pub y: i64,
}

impl Size {
    /// The size of a container that has not been laid out yet.
    pub open spec fn zero() -> Size {
        Size { width: 0, height: 0 }
    }

    /// The extent along the split axis.
    pub open spec fn along(self, orientation: SplitOrientation) -> i64 {
        match orientation {
            SplitOrientation::Horizontal => self.width,
            SplitOrientation::Vertical => self.height,
        }
    }

    /// The extent along the split axis.
    pub fn extent(self, orientation: SplitOrientation) -> (r: i64)
        ensures
            r == self.along(orientation),
    {
        match orientation {
            SplitOrientation::Horizontal => self.width,
            SplitOrientation::Vertical => self.height,
        }
    }
}

impl Point {
    /// The coordinate along the split axis.
    pub open spec fn along(self, orientation: SplitOrientation) -> i64 {
        match orientation {
            SplitOrientation::Horizontal => self.x,
            SplitOrientation::Vertical => self.y,
        }
    }

    /// The coordinate along the split axis.
    pub fn coordinate(self, orientation: SplitOrientation) -> (r: i64)
        ensures
            r == self.along(orientation),
    {
        match orientation {
            SplitOrientation::Horizontal => self.x,
            SplitOrientation::Vertical => self.y,
        }
    }
}

} // verus!
