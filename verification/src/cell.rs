//! One styled character position of the grid.

use vstd::prelude::*;

use crate::style::Style;
use crate::style::default_style;

verus! {

/// A single grid position: one Unicode scalar and the style it was written
/// with. Equality is structural and is the differ's change predicate.
#[derive(Clone, Copy, Debug, PartialEq, Eq, Structural)]
pub struct Cell {
    pub style: Style,
    pub symbol: char,
}

/// The cell every position starts as and is cleared to: a space in the
/// default style.
pub open spec fn default_cell() -> Cell {
    Cell { style: default_style(), symbol: ' ' }
}

impl Cell {
    /// Replaces the character, keeping the style.
    pub fn set_symbol(&mut self, symbol: char)
        ensures
            *final(self) == (Cell { symbol, ..*old(self) }),
    {
        self.symbol = symbol;
    }

    /// Replaces the style, keeping the character.
    pub fn set_style(&mut self, style: Style)
        ensures
            *final(self) == (Cell { style, ..*old(self) }),
    {
        self.style = style;
    }

    /// Clears the cell back to the default.
    pub fn reset(&mut self)
        ensures
            *final(self) == default_cell(),
    {
        self.symbol = ' ';
        self.style.reset();
    }
}

impl Default for Cell {
    fn default() -> (r: Cell)
        ensures
            r == default_cell(),
    {
        Cell { style: Style::new(), symbol: ' ' }
    }
}

} // verus!
