//! Grid geometry: cell locations, the four headings, and bounds checks.

use vstd::prelude::*;

verus! {

/// A position on the grid, in whole-cell units. The vertical axis grows
/// downward, so `Up` decreases `y`.
#[derive(Clone, Copy, PartialEq, Eq, Structural, Debug)]
pub struct Location {
    pub x: i32,
    pub y: i32,
}

/// One of the four cardinal directions of travel.
#[derive(Clone, Copy, PartialEq, Eq, Structural, Debug)]
pub enum Heading {
    Up,
    Down,
    Left,
    Right,
}

impl Heading {
    /// The geometric opposite of this heading.
    pub open spec fn spec_opposite(self) -> Heading {
        match self {
            Heading::Up => Heading::Down,
            Heading::Down => Heading::Up,
            Heading::Left => Heading::Right,
            Heading::Right => Heading::Left,
        }
    }

    /// The geometric opposite of this heading.
    #[verifier::when_used_as_spec(spec_opposite)]
    pub fn opposite(self) -> (r: Heading)
        ensures
            r == self.spec_opposite(),
    {
        match self {
            Heading::Up => Heading::Down,
            Heading::Down => Heading::Up,
            Heading::Left => Heading::Right,
            Heading::Right => Heading::Left,
        }
    }

    /// Horizontal component of this heading's unit vector.
    pub open spec fn dx(self) -> int {
        match self {
            Heading::Up => 0,
            Heading::Down => 0,
            Heading::Left => -1,
            Heading::Right => 1,
        }
    }

    /// Vertical component of this heading's unit vector (y grows downward).
    pub open spec fn dy(self) -> int {
        match self {
            Heading::Up => -1,
            Heading::Down => 1,
            Heading::Left => 0,
            Heading::Right => 0,
        }
    }
}

/// Whether `l` lies on a board of the given width and height.
pub open spec fn in_bounds(l: Location, width: i32, height: i32) -> bool {
    &&& 0 <= l.x < width
    &&& 0 <= l.y < height
}

} // verus!
