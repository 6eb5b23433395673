//! Screen placement of the emulator viewport.

use vstd::prelude::*;

verus! {

/// A rectangle in host-screen coordinates: the viewport origin and its size.
/// `width * height` is the grid size; host position of grid cell
/// `(col, row)` is `(x + col, y + row)`.
#[derive(Clone, Copy, Debug, PartialEq, Eq, Structural)]
pub struct Rect {
    pub x: usize,
    pub y: usize,
    pub width: usize,
    pub height: usize,
}

impl Rect {
    /// Builds a rectangle from its origin and size.
    pub fn new(x: usize, y: usize, width: usize, height: usize) -> (r: Rect)
        ensures
            r == (Rect { x, y, width, height }),
    {
        Rect { x, y, width, height }
    }

    /// The first column to the right of the rectangle.
    pub fn right(&self) -> (r: usize)
        requires
            self.x + self.width <= usize::MAX,
        ensures
            r == self.x + self.width,
    {
        self.x + self.width
    }

    /// The leftmost column.
    pub fn left(&self) -> (r: usize)
        ensures
            r == self.x,
    {
        self.x
    }

    /// The topmost row.
    pub fn top(&self) -> (r: usize)
        ensures
            r == self.y,
    {
        self.y
    }

    /// The first row below the rectangle.
    pub fn bottom(&self) -> (r: usize)
        requires
            self.y + self.height <= usize::MAX,
        ensures
            r == self.y + self.height,
    {
        self.y + self.height
    }
}

} // verus!
