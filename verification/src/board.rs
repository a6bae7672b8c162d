//! The executable game: a board of three by three squares, the player who
//! moved last and the state of play.

use vstd::prelude::*;
use crate::player::{flipped, mark_of, Cell, Player};
use crate::point::Point;
use crate::rules::{
    agreeing, anti_diagonal_flag, cell_at, column_won, evaluated, has_vacant, initial_game,
    main_diagonal_flag, marked, move_result, on_board, row_has_vacant, row_won, scan_end,
    straight_winner, well_formed, GameView,
};
use crate::status::{MoveError, State};

verus! {

/// Squares in a row, and rows on the board.
pub const CELL_COUNT: usize = 3;

/// A game of noughts and crosses.
#[derive(Clone, Copy, Debug)]
pub struct TicTacToe {
    board: [[Cell; 3]; 3],
    previous: Player,
    state: State,
}

/// The rows of a board held as an array of arrays.
pub open spec fn rows_of(board: [[Cell; 3]; 3]) -> Seq<Seq<Cell>> {
    Seq::new(3, |y: int| board[y]@)
}

impl View for TicTacToe {
    type V = GameView;

    closed spec fn view(&self) -> GameView {
        GameView { rows: rows_of(self.board), previous: self.previous, state: self.state }
    }
}

/// Some square is free in the first `count` rows.
spec fn vacant_in_rows(rows: Seq<Seq<Cell>>, count: int) -> bool {
    ||| count >= 1 && row_has_vacant(rows[0])
    ||| count >= 2 && row_has_vacant(rows[1])
    ||| count >= 3 && row_has_vacant(rows[2])
}

/// Some square is free among the first `count` squares of a row.
spec fn vacant_in_prefix(row: Seq<Cell>, count: int) -> bool {
    ||| count >= 1 && row[0] == Cell::Vacant
    ||| count >= 2 && row[1] == Cell::Vacant
    ||| count >= 3 && row[2] == Cell::Vacant
}

impl TicTacToe {
    /// A game before its first move.
    pub fn new() -> (game: Self)
        ensures
            game@ == initial_game(),
    {
        let board = [
            [Cell::Vacant; CELL_COUNT],
            [Cell::Vacant; CELL_COUNT],
            [Cell::Vacant; CELL_COUNT],
        ];
        let game = Self { board, previous: Player::B, state: State::InProgress };
        assert(game@.rows =~~= initial_game().rows);
        game
    }

    /// The game with the given board, last mover and state of play. Nothing
    /// is asked of the three: a game received from elsewhere may be any such
    /// value, and a move on it is judged by the rules as on any other.
    pub fn from_parts(board: [[Cell; 3]; 3], previous: Player, state: State) -> (game: Self)
        ensures
            game@ == (GameView { rows: rows_of(board), previous, state }),
    {
        Self { board, previous, state }
    }

    /// Every game has a board of three rows of three squares.
    pub proof fn view_is_well_formed(&self)
        ensures
            well_formed(self@.rows),
    {
    }

    /// The squares of the board, `board[y][x]` being column `x` of row `y`.
    pub fn board(&self) -> (board: [[Cell; 3]; 3])
        ensures
            rows_of(board) == self@.rows,
    {
        self.board
    }

    /// The player who moved last; before the first move, `B`.
    pub fn previous(&self) -> (player: Player)
        ensures
            player == self@.previous,
    {
        self.previous
    }

    /// How far the game has come.
    pub fn state(&self) -> (state: State)
        ensures
            state == self@.state,
    {
        self.state
    }

    /// The player whose turn it is.
    pub fn current_player(&self) -> (player: Player)
        ensures
            player == flipped(self@.previous),
    {
        self.previous.flip()
    }

    /// Makes the move of the player whose turn it is, on the square at
    /// `point`, or says why it cannot be made.
    ///
    /// A move that is turned down leaves the game exactly as it was.
    pub fn make_move(&mut self, point: Point) -> (result: Result<(), MoveError>)
        ensures
            match move_result(old(self)@, point@) {
                Ok(game) => result is Ok && final(self)@ == game,
                Err(error) => result == Err::<(), MoveError>(error),
            },
            old(self)@.state != State::InProgress ==> result == Err::<(), MoveError>(
                MoveError::GameFinished,
            ),
            old(self)@.state == State::InProgress && !on_board(point@) ==> result == Err::<
                (),
                MoveError,
            >(MoveError::PointOutOfBounds),
            old(self)@.state == State::InProgress && on_board(point@) && cell_at(
                old(self)@.rows,
                point@,
            ) != Cell::Vacant ==> result == Err::<(), MoveError>(MoveError::CellOccupied),
            result is Err ==> *final(self) == *old(self),
    {
        if self.state != State::InProgress {
            return Err(MoveError::GameFinished);
        }

        if point.x() >= CELL_COUNT || point.y() >= CELL_COUNT {
            return Err(MoveError::PointOutOfBounds);
        }

        if self.board[point.y()][point.x()] != Cell::Vacant {
            return Err(MoveError::CellOccupied);
        }

        let current = self.previous.flip();

        self.previous = current;
        self.board[point.y()][point.x()] = Cell::from(current);

        assert(self@.rows =~~= marked(old(self)@.rows, point@, mark_of(current)));

        self.update_state();

        Ok(())
    }

    /// Looks the board over and sets the state: a winner, a stalemate, or
    /// the state as it was.
    fn update_state(&mut self)
        ensures
            final(self)@ == (GameView {
                state: evaluated(old(self)@.rows, old(self)@.state),
                ..old(self)@
            }),
    {
        let ghost rows = self@.rows;
        let mut any_vacant = false;

        let mut left_diag = self.board[0][0] != Cell::Vacant;
        let mut right_diag = self.board[0][CELL_COUNT - 1] != Cell::Vacant;

        let mut winner: Option<Cell> = None;

        let mut y: usize = 0;
        while y < CELL_COUNT
            invariant_except_break
                y <= 3,
                winner is None,
                forall|j: int| 0 <= j < y ==> !row_won(rows, j) && !column_won(rows, j),
                left_diag == main_diagonal_flag(rows, y - 1),
                right_diag == anti_diagonal_flag(rows, y - 1),
                any_vacant == vacant_in_rows(rows, y as int),
            invariant
                *self == *old(self),
                rows == self@.rows,
            ensures
                winner == straight_winner(rows),
                left_diag == main_diagonal_flag(rows, scan_end(rows)),
                right_diag == anti_diagonal_flag(rows, scan_end(rows)),
                winner is None ==> any_vacant == has_vacant(rows),
            decreases 3 - y,
        {
            let mut horizontal = self.board[y][0] != Cell::Vacant;
            let mut vertical = self.board[0][y] != Cell::Vacant;

            if left_diag && y > 0 {
                left_diag = self.board[y][y] == self.board[y - 1][y - 1];
            }

            if right_diag && y > 0 {
                let last_index = CELL_COUNT - 1;

                right_diag = self.board[y][last_index - y] == self.board[y - 1][last_index - y + 1];
            }

            let mut x: usize = 0;
            while x < CELL_COUNT
                invariant
                    x <= 3,
                    y < 3,
                    *self == *old(self),
                    rows == self@.rows,
                    horizontal == agreeing(
                        rows[y as int][0],
                        rows[y as int][1],
                        rows[y as int][2],
                        x - 1,
                    ),
                    vertical == agreeing(
                        rows[0][y as int],
                        rows[1][y as int],
                        rows[2][y as int],
                        x - 1,
                    ),
                    any_vacant == (vacant_in_rows(rows, y as int) || vacant_in_prefix(
                        rows[y as int],
                        x as int,
                    )),
                decreases 3 - x,
            {
                let cell = self.board[y][x];

                if cell == Cell::Vacant {
                    any_vacant = true;
                }

                if horizontal && x > 0 {
                    horizontal = cell == self.board[y][x - 1];
                }

                if vertical && x > 0 {
                    vertical = self.board[x][y] == self.board[x - 1][y];
                }

                x += 1;
            }

            if horizontal {
                winner = Some(self.board[y][0]);

                break;
            }

            if vertical {
                winner = Some(self.board[0][y]);

                break;
            }

            y += 1;
        }

        if left_diag {
            winner = Some(self.board[0][0]);
        }

        if right_diag {
            winner = Some(self.board[0][CELL_COUNT - 1]);
        }

        if let Some(winner) = winner {
            let player = match winner {
                Cell::Player1 => Player::A,
                Cell::Player2 => Player::B,
                Cell::Vacant => vstd::pervasive::unreached(),
            };

            self.state = State::Winner(player);
        } else if !any_vacant {
            self.state = State::Stalemate;
        }
    }
}

} // verus!
