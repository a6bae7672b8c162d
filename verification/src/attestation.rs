//! What one attested move yields: the game after the move, and the digest of
//! the game it was made on.

use vstd::prelude::*;
use crate::board::TicTacToe;
use crate::encoding::encoding;
use crate::hash::{sha256, StateHash};
use crate::point::{Coord, Point};
use crate::rules::{move_result, GameView};
use crate::status::MoveError;

verus! {

/// The public result of one move made under proof.
#[derive(Clone, Copy, Debug)]
pub struct VmResponse {
    /// The game after the move.
    pub game: TicTacToe,
    /// The digest of the game before the move.
    pub prev_state_hash: StateHash,
}

/// An attested move as the contracts see it.
pub struct VmResponseView {
    pub game: GameView,
    pub prev_state_hash: Seq<u8>,
}

impl View for VmResponse {
    type V = VmResponseView;

    open spec fn view(&self) -> VmResponseView {
        VmResponseView { game: self.game@, prev_state_hash: self.prev_state_hash@ }
    }
}

/// What the attested program yields for a move at `at` on `game`: the game
/// that follows, with the digest of `game` itself; or the reason the move is
/// turned down.
pub open spec fn attested(game: GameView, at: Coord) -> Result<VmResponseView, MoveError> {
    match move_result(game, at) {
        Ok(next) => Ok(VmResponseView { game: next, prev_state_hash: sha256(encoding(game)) }),
        Err(error) => Err(error),
    }
}

impl TicTacToe {
    /// The program whose run is attested: takes the digest of the game as it
    /// stands, makes the move, and pairs the game that follows with that
    /// digest. A move that the rules turn down yields its error and nothing
    /// to attest.
    pub fn attest_move(self, point: Point) -> (result: Result<VmResponse, MoveError>)
        ensures
            match attested(self@, point@) {
                Ok(response) => result is Ok && result->Ok_0@ == response,
                Err(error) => result == Err::<VmResponse, MoveError>(error),
            },
    {
        let mut game = self;
        let prev_state_hash = game.state_hash();

        match game.make_move(point) {
            Ok(()) => Ok(VmResponse { game, prev_state_hash }),
            Err(error) => Err(error),
        }
    }
}

} // verus!
