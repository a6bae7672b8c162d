//! The canonical bytes of a game: eleven bytes, each of which means
//! something. They are what gets hashed, so two parties that hold the same
//! game must get the same bytes.
//!
//! The nine squares come first, row by row, then the player who moved last,
//! then the state of play.

use vstd::prelude::*;
use crate::board::{rows_of, TicTacToe};
use crate::player::{Cell, Player};
use crate::rules::GameView;
use crate::status::State;

verus! {

/// The number of bytes that a game is written in.
pub const ENCODED_LEN: usize = 11;

/// The byte for a square.
pub open spec fn cell_byte(cell: Cell) -> u8 {
    match cell {
        Cell::Player1 => 0,
        Cell::Player2 => 1,
        Cell::Vacant => 2,
    }
}

/// The byte for a player.
pub open spec fn player_byte(player: Player) -> u8 {
    match player {
        Player::A => 0,
        Player::B => 1,
    }
}

/// The byte for a state of play. A winner is written as the winning player
/// is; the two states without a winner take the next two values.
pub open spec fn state_byte(state: State) -> u8 {
    match state {
        State::Winner(player) => player_byte(player),
        State::InProgress => 2,
        State::Stalemate => 3,
    }
}

/// The bytes for a row of the board.
pub open spec fn row_bytes(row: Seq<Cell>) -> Seq<u8> {
    seq![cell_byte(row[0]), cell_byte(row[1]), cell_byte(row[2])]
}

/// The canonical bytes of a game.
pub open spec fn encoding(game: GameView) -> Seq<u8> {
    row_bytes(game.rows[0]) + row_bytes(game.rows[1]) + row_bytes(game.rows[2]) + seq![
        player_byte(game.previous),
        state_byte(game.state),
    ]
}

impl Cell {
    /// The byte that stands for this square in the canonical bytes.
    pub fn to_byte(self) -> (byte: u8)
        ensures
            byte == cell_byte(self),
    {
        match self {
            Cell::Player1 => 0,
            Cell::Player2 => 1,
            Cell::Vacant => 2,
        }
    }
}

impl Player {
    /// The byte that stands for this player in the canonical bytes.
    pub fn to_byte(self) -> (byte: u8)
        ensures
            byte == player_byte(self),
    {
        match self {
            Player::A => 0,
            Player::B => 1,
        }
    }
}

impl State {
    /// The byte that stands for this state in the canonical bytes.
    pub fn to_byte(self) -> (byte: u8)
        ensures
            byte == state_byte(self),
    {
        match self {
            State::Winner(player) => player.to_byte(),
            State::InProgress => 2,
            State::Stalemate => 3,
        }
    }
}

impl TicTacToe {
    /// The canonical bytes of this game.
    pub fn as_bytes(&self) -> (bytes: [u8; 11])
        ensures
            bytes@ == encoding(self@),
    {
        let board = self.board();
        let ghost rows = self@.rows;
        let mut bytes = [0u8; ENCODED_LEN];

        let mut y: usize = 0;
        while y < 3
            invariant
                y <= 3,
                rows == rows_of(board),
                forall|j: int, i: int|
                    0 <= j < y && 0 <= i < 3 ==> bytes@[3 * j + i] == cell_byte(
                        #[trigger] rows[j][i],
                    ),
            decreases 3 - y,
        {
            let mut x: usize = 0;
            while x < 3
                invariant
                    x <= 3,
                    y < 3,
                    rows == rows_of(board),
                    forall|j: int, i: int|
                        0 <= j < y && 0 <= i < 3 ==> bytes@[3 * j + i] == cell_byte(
                            #[trigger] rows[j][i],
                        ),
                    forall|i: int|
                        0 <= i < x ==> bytes@[3 * y + i] == cell_byte(#[trigger] rows[y as int][i]),
                decreases 3 - x,
            {
                bytes[3 * y + x] = board[y][x].to_byte();
                x += 1;
            }
            y += 1;
        }
        bytes[9] = self.previous().to_byte();
        bytes[10] = self.state().to_byte();

        assert(bytes@ =~= encoding(self@)) by {
            assert(rows[0][0] == rows[0][0] && rows[0][1] == rows[0][1] && rows[0][2] == rows[0][2]);
            assert(rows[1][0] == rows[1][0] && rows[1][1] == rows[1][1] && rows[1][2] == rows[1][2]);
            assert(rows[2][0] == rows[2][0] && rows[2][1] == rows[2][1] && rows[2][2] == rows[2][2]);
        }
        bytes
    }
}

} // verus!
