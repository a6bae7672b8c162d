//! A two-player game of noughts and crosses whose every move can be attested:
//! the rules of the board, the canonical bytes of a game, the digest chain that
//! ties one state to the next, and the record a player keeps to follow the
//! chain without trusting whoever computes the moves.

pub mod attestation;
pub mod board;
pub mod client;
pub mod encoding;
pub mod hash;
pub mod laws;
pub mod player;
pub mod point;
pub mod render;
pub mod rules;
pub mod server;
pub mod status;

pub use attestation::VmResponse;
pub use board::TicTacToe;
pub use client::{Client, VerifyError};
pub use hash::StateHash;
pub use player::{Cell, Player};
pub use point::Point;
pub use server::{is_ascii_num, Server};
pub use status::{MoveError, State};
