//! Plain 2-D coordinates and sizes, and the saturating arithmetic the rest
//! of the library states its contracts with.

use vstd::prelude::*;

verus! {

/// `a - b`, clamped at zero: the mathematical value of a saturating
/// subtraction on unsigned integers.
pub open spec fn sat_sub(a: int, b: int) -> int {
    if a >= b {
        a - b
    } else {
        0
    }
}

/// `a + b`, clamped at `usize::MAX`: the mathematical value of a saturating
/// addition on `usize`.
pub open spec fn sat_add(a: int, b: int) -> int {
    if a + b <= usize::MAX {
        a + b
    } else {
        usize::MAX as int
    }
}

/// A pair of non-negative integers, used for the point location, a render
/// origin, and the viewport scroll offset alike. `x` is the column, `y` the
/// row.
#[derive(Copy, Clone, PartialEq, Eq, Structural, Debug)]
pub struct Coordinate {
    pub x: usize,
    pub y: usize,
}

impl Coordinate {
    /// Component-wise subtraction, saturating at zero. Subtracting a larger
    /// component from a smaller one is a caller mistake; the result then
    /// clamps that component to zero rather than failing.
    pub fn subtract(&self, coordinate: Self) -> (r: Self)
        ensures
            r.x as int == sat_sub(self.x as int, coordinate.x as int),
            r.y as int == sat_sub(self.y as int, coordinate.y as int),
    {
        Self { x: self.x.saturating_sub(coordinate.x), y: self.y.saturating_sub(coordinate.y) }
    }
}

impl Default for Coordinate {
    /// The origin `(0, 0)`.
    fn default() -> (r: Self)
        ensures
            r == (Coordinate { x: 0, y: 0 }),
    {
        Self { x: 0, y: 0 }
    }
}

/// The rectangle a display surface offers for rendering, in character cells.
#[derive(Copy, Clone, PartialEq, Eq, Structural, Debug)]
pub struct Size {
    pub height: usize,
    pub width: usize,
}

impl Default for Size {
    /// The empty rectangle.
    fn default() -> (r: Self)
        ensures
            r == (Size { height: 0, width: 0 }),
    {
        Self { height: 0, width: 0 }
    }
}

} // verus!
