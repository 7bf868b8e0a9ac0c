//! Colors and style-attribute flags for terminal cells.

use vstd::prelude::*;

verus! {

/// A terminal color: the closed set of named palette values, an indexed
/// palette value, or a direct RGB triple. Equality is structural.
#[derive(Clone, Copy, Debug, PartialEq, Eq, Structural)]
pub enum Color {
    Reset,
    Black,
    Red,
    Green,
    Yellow,
    Blue,
    Magenta,
    Cyan,
    Gray,
    DarkGray,
    LightRed,
    LightGreen,
    LightYellow,
    LightBlue,
    LightMagenta,
    LightCyan,
    White,
    Indexed(u8),
    Rgb(u8, u8, u8),
}

/// The set of style-attribute flags a cell can carry, one flag per field.
///
/// The five flags are exactly the ones the style tracker knows how to toggle
/// on the terminal; intensity (bold/dim) shares one encoding axis there.
#[derive(Clone, Copy, Debug, PartialEq, Eq, Structural)]
pub struct Modifier {
    pub bold: bool,
    pub dim: bool,
    pub italic: bool,
    pub underlined: bool,
    pub reversed: bool,
}

impl Modifier {
    /// The empty flag set.
    pub open spec fn empty_spec() -> Modifier {
        Modifier { bold: false, dim: false, italic: false, underlined: false, reversed: false }
    }

    /// The empty flag set.
    pub fn empty() -> (m: Modifier)
        ensures
            m == Modifier::empty_spec(),
    {
        Modifier { bold: false, dim: false, italic: false, underlined: false, reversed: false }
    }
}

} // verus!
