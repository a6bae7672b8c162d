//! Coordinates on the board.

use vstd::prelude::*;

verus! {

/// A square named by its column `x` and its row `y`, counted from the top
/// left. Any pair can be built; whether it lies on the board is decided when
/// a move is made.
#[derive(Clone, Copy, PartialEq, Eq, Structural, Debug)]
pub struct Point {
    x: usize,
    y: usize,
}

/// A pair of coordinates as natural numbers.
pub struct Coord {
    pub x: nat,
    pub y: nat,
}

impl View for Point {
    type V = Coord;

    closed spec fn view(&self) -> Coord {
        Coord { x: self.x as nat, y: self.y as nat }
    }
}

impl Point {
    /// The point in column `x` of row `y`.
    pub fn new(x: usize, y: usize) -> (point: Self)
        ensures
            point@ == (Coord { x: x as nat, y: y as nat }),
    {
        Self { x, y }
    }

    /// The column.
    pub fn x(&self) -> (x: usize)
        ensures
            x == self@.x,
    {
        self.x
    }

    /// The row.
    pub fn y(&self) -> (y: usize)
        ensures
            y == self@.y,
    {
        self.y
    }
}

} // verus!
