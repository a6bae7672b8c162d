//! The two players and what a square of the board holds.

use vstd::prelude::*;

verus! {

/// One of the two parties of a game.
#[derive(Clone, Copy, PartialEq, Eq, Structural, Debug)]
pub enum Player {
    A,
    B,
}

/// What one square of the board holds.
#[derive(Clone, Copy, PartialEq, Eq, Structural, Debug)]
pub enum Cell {
    /// Taken by player `A`.
    Player1,
    /// Taken by player `B`.
    Player2,
    /// Not taken yet.
    Vacant,
}

/// The other player.
pub open spec fn flipped(p: Player) -> Player {
    match p {
        Player::A => Player::B,
        Player::B => Player::A,
    }
}

/// The mark that a player leaves on a square.
pub open spec fn mark_of(p: Player) -> Cell {
    match p {
        Player::A => Cell::Player1,
        Player::B => Cell::Player2,
    }
}

/// The player whose mark a square holds, if any.
pub open spec fn occupant(c: Cell) -> Option<Player> {
    match c {
        Cell::Player1 => Some(Player::A),
        Cell::Player2 => Some(Player::B),
        Cell::Vacant => None,
    }
}

impl Player {
    /// The other player.
    pub fn flip(&self) -> (other: Self)
        ensures
            other == flipped(*self),
    {
        match self {
            Self::A => Self::B,
            Self::B => Self::A,
        }
    }
}

impl From<Player> for Cell {
    fn from(player: Player) -> (cell: Cell) {
        match player {
            Player::A => Cell::Player1,
            Player::B => Cell::Player2,
        }
    }
}

impl vstd::std_specs::convert::FromSpecImpl<Player> for Cell {
    open spec fn obeys_from_spec() -> bool {
        true
    }

    open spec fn from_spec(player: Player) -> Cell {
        mark_of(player)
    }
}

} // verus!
