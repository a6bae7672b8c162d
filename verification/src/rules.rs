//! The rules of the game, stated over a mathematical picture of it.
//!
//! A board is a sequence of three rows of three squares; `rows[y][x]` is the
//! square in column `x` of row `y`. Everything here is specification: the
//! executable game in `board` is proved to follow it.

use vstd::prelude::*;
use crate::player::{flipped, mark_of, occupant, Cell, Player};
use crate::point::Coord;
use crate::status::{MoveError, State};

verus! {

/// A game as the contracts see it.
pub struct GameView {
    /// The three rows of the board, top row first.
    pub rows: Seq<Seq<Cell>>,
    /// Who moved last.
    pub previous: Player,
    /// How far the game has come.
    pub state: State,
}

/// The board has three rows of three squares.
pub open spec fn well_formed(rows: Seq<Seq<Cell>>) -> bool {
    &&& rows.len() == 3
    &&& rows[0].len() == 3
    &&& rows[1].len() == 3
    &&& rows[2].len() == 3
}

/// The game before any move: an empty board, `B` recorded as the last mover
/// so that `A` opens, and play in progress.
pub open spec fn initial_game() -> GameView {
    GameView {
        rows: Seq::new(3, |y: int| Seq::new(3, |x: int| Cell::Vacant)),
        previous: Player::B,
        state: State::InProgress,
    }
}

/// The flag that a scan keeps for a line of three squares `a`, `b`, `c` after
/// `steps` comparisons: the first square is taken, and each square looked at
/// so far equals the one before it.
pub open spec fn agreeing(a: Cell, b: Cell, c: Cell, steps: int) -> bool {
    &&& a != Cell::Vacant
    &&& steps >= 1 ==> b == a
    &&& steps >= 2 ==> c == b
}

/// Three squares hold the same player's mark.
pub open spec fn uniform(a: Cell, b: Cell, c: Cell) -> bool {
    agreeing(a, b, c, 2)
}

/// Row `y` is filled by one player.
pub open spec fn row_won(rows: Seq<Seq<Cell>>, y: int) -> bool {
    uniform(rows[y][0], rows[y][1], rows[y][2])
}

/// Column `x` is filled by one player.
pub open spec fn column_won(rows: Seq<Seq<Cell>>, x: int) -> bool {
    uniform(rows[0][x], rows[1][x], rows[2][x])
}

/// The diagonal from the top left is filled by one player.
pub open spec fn main_diagonal_won(rows: Seq<Seq<Cell>>) -> bool {
    uniform(rows[0][0], rows[1][1], rows[2][2])
}

/// The diagonal from the top right is filled by one player.
pub open spec fn anti_diagonal_won(rows: Seq<Seq<Cell>>) -> bool {
    uniform(rows[0][2], rows[1][1], rows[2][0])
}

/// Some row, column or diagonal is filled by one player.
pub open spec fn line_complete(rows: Seq<Seq<Cell>>) -> bool {
    ||| row_won(rows, 0)
    ||| row_won(rows, 1)
    ||| row_won(rows, 2)
    ||| column_won(rows, 0)
    ||| column_won(rows, 1)
    ||| column_won(rows, 2)
    ||| main_diagonal_won(rows)
    ||| anti_diagonal_won(rows)
}

/// Some square of the row is still free.
pub open spec fn row_has_vacant(row: Seq<Cell>) -> bool {
    row[0] == Cell::Vacant || row[1] == Cell::Vacant || row[2] == Cell::Vacant
}

/// Some square of the board is still free.
pub open spec fn has_vacant(rows: Seq<Seq<Cell>>) -> bool {
    row_has_vacant(rows[0]) || row_has_vacant(rows[1]) || row_has_vacant(rows[2])
}

/// Where the scan of rows and columns ends. Index `i` stands for row `i` and
/// column `i` together; the scan goes from 0 upwards and ends at the first
/// index whose row or column is won, or at 2 when none is.
pub open spec fn scan_end(rows: Seq<Seq<Cell>>) -> int {
    if row_won(rows, 0) || column_won(rows, 0) {
        0
    } else if row_won(rows, 1) || column_won(rows, 1) {
        1
    } else {
        2
    }
}

/// The square that decides the row or column found by the scan, a row going
/// before the column of the same index.
pub open spec fn straight_winner(rows: Seq<Seq<Cell>>) -> Option<Cell> {
    let i = scan_end(rows);
    if row_won(rows, i) {
        Some(rows[i][0])
    } else if column_won(rows, i) {
        Some(rows[0][i])
    } else {
        None
    }
}

/// The flag kept for the main diagonal once the scan has passed index
/// `depth`: the top left square is taken and each square of the diagonal down
/// to row `depth` equals the one above it.
pub open spec fn main_diagonal_flag(rows: Seq<Seq<Cell>>, depth: int) -> bool {
    agreeing(rows[0][0], rows[1][1], rows[2][2], depth)
}

/// The flag kept for the other diagonal once the scan has passed index
/// `depth`, seeded on the top right square.
pub open spec fn anti_diagonal_flag(rows: Seq<Seq<Cell>>, depth: int) -> bool {
    agreeing(rows[0][2], rows[1][1], rows[2][0], depth)
}

/// The square whose mark names the winner, if there is one.
///
/// The diagonal flags are looked at after the scan, whatever it found, and
/// as far as the scan got: the main diagonal overrides a row or column, and
/// the other diagonal overrides both. When the scan ended early a flag may
/// stand for only part of its diagonal.
pub open spec fn winning_cell(rows: Seq<Seq<Cell>>) -> Option<Cell> {
    let depth = scan_end(rows);
    if anti_diagonal_flag(rows, depth) {
        Some(rows[0][2])
    } else if main_diagonal_flag(rows, depth) {
        Some(rows[0][0])
    } else {
        straight_winner(rows)
    }
}

/// The player that the board declares winner, if any.
pub open spec fn winner(rows: Seq<Seq<Cell>>) -> Option<Player> {
    match winning_cell(rows) {
        Some(cell) => occupant(cell),
        None => None,
    }
}

/// The state of a game whose board is `rows` and whose state was `current`
/// before the board was looked at: a winner if the board has one, a stalemate
/// if it is full without one, and `current` otherwise.
pub open spec fn evaluated(rows: Seq<Seq<Cell>>, current: State) -> State {
    match winner(rows) {
        Some(player) => State::Winner(player),
        None => if has_vacant(rows) {
            current
        } else {
            State::Stalemate
        },
    }
}

/// The point lies on the board.
pub open spec fn on_board(at: Coord) -> bool {
    at.x < 3 && at.y < 3
}

/// What the square at `at` holds.
pub open spec fn cell_at(rows: Seq<Seq<Cell>>, at: Coord) -> Cell {
    rows[at.y as int][at.x as int]
}

/// The board with `mark` put on the square at `at`.
pub open spec fn marked(rows: Seq<Seq<Cell>>, at: Coord, mark: Cell) -> Seq<Seq<Cell>> {
    rows.update(at.y as int, rows[at.y as int].update(at.x as int, mark))
}

/// What a move at `at` does to a game: the reason it is turned down, or the
/// game that follows. The tests come in this order: a finished game takes no
/// move, the point must lie on the board, and the square must be free. Then
/// the player who did not move last marks the square and the state is
/// evaluated anew.
pub open spec fn move_result(game: GameView, at: Coord) -> Result<GameView, MoveError> {
    if game.state != State::InProgress {
        Err(MoveError::GameFinished)
    } else if !on_board(at) {
        Err(MoveError::PointOutOfBounds)
    } else if cell_at(game.rows, at) != Cell::Vacant {
        Err(MoveError::CellOccupied)
    } else {
        let mover = flipped(game.previous);
        let rows = marked(game.rows, at, mark_of(mover));
        Ok(GameView { rows, previous: mover, state: evaluated(rows, game.state) })
    }
}

} // verus!
