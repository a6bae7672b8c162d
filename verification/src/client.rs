//! The record a player keeps to follow a game that someone else computes.
//!
//! The player holds the digest of the last state it accepted. A new state is
//! accepted only with a valid proof and only if it names that digest as the
//! state it came from; the record then moves on to the digest of the new
//! state.

use vstd::prelude::*;
use crate::attestation::{VmResponse, VmResponseView};
use crate::board::TicTacToe;
use crate::encoding::encoding;
use crate::hash::{sha256, StateHash};
use crate::rules::initial_game;
use crate::status::State;

verus! {

/// Why an attested move was not accepted.
#[derive(Clone, Copy, PartialEq, Eq, Structural, Debug)]
pub enum VerifyError {
    /// The game had already ended when the move arrived.
    AlreadyEnded,
    /// The proof does not hold for the program that makes moves.
    ProofInvalid,
    /// The move was made on another state than the one last accepted.
    HashMismatch,
}

impl VerifyError {
    /// The sentence that reports the failure.
    pub fn message(&self) -> (text: &'static str)
        ensures
            text@ == match *self {
                VerifyError::AlreadyEnded => "Game has already ended!"@,
                VerifyError::ProofInvalid => "receipt verification failed"@,
                VerifyError::HashMismatch => "Game state hash mismatch!"@,
            },
    {
        match self {
            VerifyError::AlreadyEnded => "Game has already ended!",
            VerifyError::ProofInvalid => "receipt verification failed",
            VerifyError::HashMismatch => "Game state hash mismatch!",
        }
    }
}

/// What a player knows of the game.
#[derive(Clone, Copy, Debug)]
pub struct Client {
    game_state: State,
    state_hash: StateHash,
}

/// A player's record as the contracts see it.
pub struct ClientView {
    /// The state of play last accepted.
    pub game_state: State,
    /// The digest of the game last accepted.
    pub state_hash: Seq<u8>,
}

impl View for Client {
    type V = ClientView;

    closed spec fn view(&self) -> ClientView {
        ClientView { game_state: self.game_state, state_hash: self.state_hash@ }
    }
}

/// The record of a player at the start of a game.
pub open spec fn initial_client() -> ClientView {
    ClientView { game_state: State::InProgress, state_hash: sha256(encoding(initial_game())) }
}

/// What checking an attested move does to a player's record: the reason it
/// is refused, or the record that follows. The tests come in this order: no
/// move is taken once the game has ended, the proof must be valid, and the
/// move must name the digest that the player holds.
pub open spec fn verify_result(
    client: ClientView,
    response: VmResponseView,
    proof_valid: bool,
) -> Result<ClientView, VerifyError> {
    if client.game_state != State::InProgress {
        Err(VerifyError::AlreadyEnded)
    } else if !proof_valid {
        Err(VerifyError::ProofInvalid)
    } else if response.prev_state_hash != client.state_hash {
        Err(VerifyError::HashMismatch)
    } else {
        Ok(
            ClientView {
                game_state: response.game.state,
                state_hash: sha256(encoding(response.game)),
            },
        )
    }
}

impl Client {
    /// The record of a player at the start of a game.
    pub fn new() -> (client: Self)
        ensures
            client@ == initial_client(),
    {
        Self { state_hash: TicTacToe::initial_hash(), game_state: State::InProgress }
    }

    /// The state of play last accepted.
    pub fn game_state(&self) -> (state: State)
        ensures
            state == self@.game_state,
    {
        self.game_state
    }

    /// The digest of the game last accepted.
    pub fn state_hash(&self) -> (hash: StateHash)
        ensures
            hash@ == self@.state_hash,
    {
        self.state_hash
    }

    /// Checks an attested move and, if it stands, takes over its state.
    ///
    /// `proof_valid` says whether the proof that came with `response` holds
    /// for the program that makes moves. A move that is refused leaves the
    /// record exactly as it was; in particular a move that names another
    /// digest than the one held is always refused.
    pub fn verify_receipt(&mut self, response: &VmResponse, proof_valid: bool) -> (result: Result<
        (),
        VerifyError,
    >)
        ensures
            match verify_result(old(self)@, response@, proof_valid) {
                Ok(client) => result is Ok && final(self)@ == client,
                Err(error) => result == Err::<(), VerifyError>(error),
            },
            result is Err ==> *final(self) == *old(self),
            response@.prev_state_hash != old(self)@.state_hash ==> result is Err,
            !proof_valid ==> result is Err,
    {
        if self.game_state != State::InProgress {
            return Err(VerifyError::AlreadyEnded);
        }

        if !proof_valid {
            return Err(VerifyError::ProofInvalid);
        }

        if !self.state_hash.matches(&response.prev_state_hash) {
            return Err(VerifyError::HashMismatch);
        }

        self.game_state = response.game.state();
        self.state_hash = response.game.state_hash();

        Ok(())
    }

    /// Closes the record of a game that has ended. A game whose end the
    /// player never accepted cannot be closed.
    pub fn on_game_ended(self)
        requires
            self@.game_state != State::InProgress,
    {
    }
}

} // verus!
