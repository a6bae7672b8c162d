//! How far a game has come, and why a move can be turned down.

use vstd::prelude::*;
use crate::player::Player;

verus! {

/// Whether a game is still being played, and how it ended if not.
#[derive(Clone, Copy, PartialEq, Eq, Structural, Debug)]
pub enum State {
    InProgress,
    Stalemate,
    Winner(Player),
}

/// Why a move was not made.
#[derive(Clone, Copy, PartialEq, Eq, Structural, Debug)]
pub enum MoveError {
    /// The point lies outside the three by three board.
    PointOutOfBounds,
    /// The square already holds a mark.
    CellOccupied,
    /// The game has a winner or ended in a stalemate.
    GameFinished,
}

impl MoveError {
    /// The sentence shown to a player whose move was turned down.
    pub fn message(&self) -> (text: &'static str)
        ensures
            text@ == match *self {
                MoveError::PointOutOfBounds =>
                    "Invalid cell coordinates. Must be between 0 0 and 2 2"@,
                MoveError::CellOccupied => "Cell is already occupied."@,
                MoveError::GameFinished => "Game has already finished."@,
            },
    {
        match self {
            MoveError::PointOutOfBounds => "Invalid cell coordinates. Must be between 0 0 and 2 2",
            MoveError::CellOccupied => "Cell is already occupied.",
            MoveError::GameFinished => "Game has already finished.",
        }
    }
}

} // verus!
