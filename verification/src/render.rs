//! The board as lines of text, for whoever shows it to the players.

use vstd::prelude::*;
use crate::board::{rows_of, TicTacToe, CELL_COUNT};
use crate::player::Cell;

verus! {

/// The letter `X`.
pub const CROSS: u8 = 88;

/// The letter `O`.
pub const NOUGHT: u8 = 79;

/// A blank.
pub const BLANK: u8 = 32;

/// The bar that closes a square.
pub const BAR: u8 = 124;

/// The character that shows a square: `X` for player `A`, `O` for player `B`
/// and a blank for a free square.
pub open spec fn cell_symbol(cell: Cell) -> u8 {
    match cell {
        Cell::Player1 => CROSS,
        Cell::Player2 => NOUGHT,
        Cell::Vacant => BLANK,
    }
}

/// The text of a row: each square's character followed by a bar.
pub open spec fn row_text(row: Seq<Cell>) -> Seq<u8> {
    seq![cell_symbol(row[0]), BAR, cell_symbol(row[1]), BAR, cell_symbol(row[2]), BAR]
}

impl Cell {
    /// The character that shows this square.
    pub fn symbol(self) -> (symbol: u8)
        ensures
            symbol == cell_symbol(self),
    {
        match self {
            Cell::Player1 => CROSS,
            Cell::Player2 => NOUGHT,
            Cell::Vacant => BLANK,
        }
    }
}

impl TicTacToe {
    /// The three rows of the board as ASCII text, top row first. A line of
    /// the picture is a bar followed by the row's text.
    pub fn board_rows(&self) -> (lines: [[u8; 6]; 3])
        ensures
            forall|y: int| 0 <= y < 3 ==> (#[trigger] lines[y])@ == row_text(self@.rows[y]),
    {
        let board = self.board();
        let mut lines = [[0u8; 6]; 3];

        let mut y: usize = 0;
        while y < CELL_COUNT
            invariant
                y <= 3,
                rows_of(board) == self@.rows,
                forall|j: int| 0 <= j < y ==> (#[trigger] lines[j])@ == row_text(self@.rows[j]),
            decreases 3 - y,
        {
            let mut row = [0u8; 6];
            let mut i: usize = 0;

            let mut x: usize = 0;
            while x < CELL_COUNT
                invariant
                    x <= 3,
                    y < 3,
                    i == 2 * x,
                    forall|k: int|
                        0 <= k < x ==> row[2 * k] == cell_symbol(#[trigger] board[y as int][k])
                            && row[2 * k + 1] == BAR,
                decreases 3 - x,
            {
                row[i] = board[y][x].symbol();
                row[i + 1] = BAR;
                i += 2;
                x += 1;
            }

            assert(row@ =~= row_text(self@.rows[y as int])) by {
                assert(board[y as int][0] == self@.rows[y as int][0]);
                assert(board[y as int][1] == self@.rows[y as int][1]);
                assert(board[y as int][2] == self@.rows[y as int][2]);
            }
            lines[y] = row;
            y += 1;
        }
        lines
    }
}

} // verus!
