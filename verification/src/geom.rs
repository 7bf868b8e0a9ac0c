//! Plain geometry for the terminal grid: rectangles, positions and sizes.

use vstd::prelude::*;

verus! {

/// A rectangular region of the terminal, given by its origin and extent.
#[derive(Clone, Copy, Debug, PartialEq, Eq, Structural)]
pub struct Rect {
    pub x: u16,
    pub y: u16,
    pub width: u16,
    pub height: u16,
}

impl Rect {
    /// Number of cells the rectangle covers.
    pub open spec fn cell_count_spec(self) -> int {
        self.width * self.height
    }

    pub fn new(x: u16, y: u16, width: u16, height: u16) -> (r: Rect)
        ensures
            r == (Rect { x, y, width, height }),
    {
        Rect { x, y, width, height }
    }

    /// The empty rectangle at the origin.
    pub fn zero() -> (r: Rect)
        ensures
            r == (Rect { x: 0u16, y: 0u16, width: 0u16, height: 0u16 }),
    {
        Rect { x: 0, y: 0, width: 0, height: 0 }
    }

    /// How many cells a buffer over this rectangle holds.
    pub fn cell_count(&self) -> (n: usize)
        ensures
            n == self.cell_count_spec(),
    {
        proof {
            assert(self.width * self.height <= 0xffff * 0xffff) by (nonlinear_arith)
                requires
                    self.width <= 0xffff,
                    self.height <= 0xffff,
            ;
        }
        (self.width as usize) * (self.height as usize)
    }

    /// A rectangle is empty when it covers no cells.
    pub fn is_empty(&self) -> (b: bool)
        ensures
            b == (self.cell_count_spec() == 0),
    {
        proof {
            assert((self.width * self.height == 0) == (self.width == 0 || self.height == 0))
                by (nonlinear_arith);
        }
        self.width == 0 || self.height == 0
    }
}

/// An absolute cursor position on the screen.
#[derive(Clone, Copy, Debug, PartialEq, Eq, Structural)]
pub struct Position {
    pub x: u16,
    pub y: u16,
}

impl Position {
    pub fn new(x: u16, y: u16) -> (r: Position)
        ensures
            r == (Position { x, y }),
    {
        Position { x, y }
    }
}

/// The extent of the terminal screen.
#[derive(Clone, Copy, Debug, PartialEq, Eq, Structural)]
pub struct Size {
    pub width: u16,
    pub height: u16,
}

impl Size {
    pub fn new(width: u16, height: u16) -> (r: Size)
        ensures
            r == (Size { width, height }),
    {
        Size { width, height }
    }
}

} // verus!
