//! Integer displacement per frame.
use vstd::prelude::*;

verus! {

/// Cells moved per frame along each axis.
#[derive(Clone, Copy, Debug, PartialEq, Eq)]
pub struct Velocity {
    pub x: isize,
    pub y: isize,
}

impl Velocity {
    /// Each component is -1, 0 or 1, as a ball's velocity always is.
    pub open spec fn is_unit(&self) -> bool {
        -1 <= self.x <= 1 && -1 <= self.y <= 1
    }

    /// The same velocity with both components inverted.
    pub open spec fn flipped_both(&self) -> Velocity {
        Velocity { x: (-self.x) as isize, y: (-self.y) as isize }
    }

    /// The same velocity with the horizontal component inverted.
    pub open spec fn flipped_x(&self) -> Velocity {
        Velocity { x: (-self.x) as isize, y: self.y }
    }

    /// The same velocity with the vertical component inverted.
    pub open spec fn flipped_y(&self) -> Velocity {
        Velocity { x: self.x, y: (-self.y) as isize }
    }
}

} // verus!
