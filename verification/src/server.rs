//! The side that holds the game and takes the players' moves.

use vstd::prelude::*;
use crate::attestation::VmResponse;
use crate::board::TicTacToe;
use crate::point::{Coord, Point};
use crate::rules::initial_game;

verus! {

/// The holder of the game that the players follow.
#[derive(Clone, Copy, Debug)]
pub struct Server {
    /// The game as it stands.
    pub game: TicTacToe,
}

/// The byte is an ASCII digit.
pub open spec fn is_digit(byte: u8) -> bool {
    48 <= byte <= 57
}

/// The point that a line of input names. The line, without the end of line,
/// is a digit, one blank and a digit: the column, then the row.
pub open spec fn parsed(line: Seq<u8>) -> Option<Coord> {
    if line.len() == 3 && line[1] == 32 && is_digit(line[0]) && is_digit(line[2]) {
        Some(Coord { x: (line[0] - 48) as nat, y: (line[2] - 48) as nat })
    } else {
        None
    }
}

/// Whether the byte is an ASCII digit.
pub fn is_ascii_num(byte: u8) -> (digit: bool)
    ensures
        digit == is_digit(byte),
{
    byte >= 48 && byte <= 57
}

impl Server {
    /// A server with a game before its first move.
    pub fn new() -> (server: Self)
        ensures
            server.game@ == initial_game(),
    {
        Self { game: TicTacToe::new() }
    }

    /// Reads a point from a line of input that has lost its end of line, or
    /// tells that the line names none.
    pub fn parse_input(line: &[u8]) -> (point: Option<Point>)
        ensures
            match parsed(line@) {
                Some(at) => point is Some && point->Some_0@ == at,
                None => point is None,
            },
    {
        if line.len() == 3 && line[1] == 32 && is_ascii_num(line[0]) && is_ascii_num(line[2]) {
            let x: u8 = line[0] - 48;
            let y: u8 = line[2] - 48;

            Some(Point::new(x as usize, y as usize))
        } else {
            None
        }
    }

    /// Takes over the game that an attested move led to.
    pub fn adopt(&mut self, response: &VmResponse)
        ensures
            final(self).game == response.game,
    {
        self.game = response.game;
    }
}

} // verus!
