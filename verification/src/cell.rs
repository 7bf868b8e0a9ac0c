//! The atomic styled character unit of the grid.

use vstd::prelude::*;

use crate::style::{Color, Modifier};

verus! {

/// One styled character position: a short symbol text (typically one display
/// glyph), a foreground and background color, and a set of style flags.
///
/// Two cells are equal iff all four fields are equal.
#[derive(Debug)]
pub struct Cell {
    pub symbol: String,
    pub fg: Color,
    pub bg: Color,
    pub modifier: Modifier,
}

/// The mathematical value of a [`Cell`]: the symbol as a character sequence
/// together with the three style fields.
pub ghost struct CellV {
    pub symbol: Seq<char>,
    pub fg: Color,
    pub bg: Color,
    pub modifier: Modifier,
}

impl View for Cell {
    type V = CellV;

    open spec fn view(&self) -> CellV {
        CellV { symbol: self.symbol@, fg: self.fg, bg: self.bg, modifier: self.modifier }
    }
}

/// The default cell: a single space, default colors, no modifiers.
pub open spec fn default_cell() -> CellV {
    CellV {
        symbol: seq![' '],
        fg: Color::Reset,
        bg: Color::Reset,
        modifier: Modifier::empty_spec(),
    }
}

impl Cell {
    pub fn new(symbol: String, fg: Color, bg: Color, modifier: Modifier) -> (c: Cell)
        ensures
            c@ == (CellV { symbol: symbol@, fg, bg, modifier }),
    {
        Cell { symbol, fg, bg, modifier }
    }
}

impl Default for Cell {
    /// The default cell: a single space with default colors and no modifiers.
    fn default() -> (c: Cell)
        ensures
            c@ == default_cell(),
    {
        proof {
            reveal_strlit(" ");
            assert(" "@ =~= seq![' ']);
        }
        Cell {
            symbol: String::from_str(" "),
            fg: Color::Reset,
            bg: Color::Reset,
            modifier: Modifier::empty(),
        }
    }
}

impl Clone for Cell {
    fn clone(&self) -> (c: Cell)
        ensures
            c@ == self@,
    {
        Cell { symbol: self.symbol.clone(), fg: self.fg, bg: self.bg, modifier: self.modifier }
    }
}

impl PartialEq for Cell {
    fn eq(&self, other: &Cell) -> (r: bool) {
        self.symbol == other.symbol && self.fg == other.fg && self.bg == other.bg
            && self.modifier == other.modifier
    }
}

impl vstd::std_specs::cmp::PartialEqSpecImpl for Cell {
    open spec fn obeys_eq_spec() -> bool {
        true
    }

    open spec fn eq_spec(&self, other: &Cell) -> bool {
        self@ == other@
    }
}

} // verus!
