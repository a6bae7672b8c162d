use game::{
    Cell, Client, MoveError, Player, Point, State, StateHash, TicTacToe, VerifyError, VmResponse,
};
use risc0_zkvm::SessionReceipt;

fn attest(game: TicTacToe, x: usize, y: usize) -> VmResponse {
    game.attest_move(Point::new(x, y)).unwrap()
}

#[test]
fn new_client_expects_the_initial_state() {
    let client = Client::new();
    assert_eq!(client.game_state(), State::InProgress);
    assert_eq!(client.state_hash(), TicTacToe::initial_hash());
}

#[test]
fn attested_move_carries_prior_hash_and_next_game() {
    let game = TicTacToe::new();
    let response = attest(game, 1, 1);
    assert_eq!(response.prev_state_hash, game.state_hash());
    let mut next = game;
    assert_eq!(next.make_move(Point::new(1, 1)), Ok(()));
    assert_eq!(response.game.as_bytes(), next.as_bytes());
}

#[test]
fn refused_move_is_not_attested() {
    let game = TicTacToe::new();
    assert_eq!(game.attest_move(Point::new(3, 3)).err(), Some(MoveError::PointOutOfBounds));
    let played = attest(game, 0, 0).game;
    assert_eq!(played.attest_move(Point::new(0, 0)).err(), Some(MoveError::CellOccupied));
    let finished = TicTacToe::from_parts([[Cell::Vacant; 3]; 3], Player::B, State::Stalemate);
    assert_eq!(finished.attest_move(Point::new(0, 0)).err(), Some(MoveError::GameFinished));
}

#[test]
fn client_follows_a_chain_of_attested_moves() {
    let mut client = Client::new();
    let mut game = TicTacToe::new();
    for (x, y) in [(0, 0), (1, 0), (0, 1), (1, 1), (0, 2)] {
        let response = attest(game, x, y);
        assert_eq!(client.verify_receipt(&response, true), Ok(()));
        game = response.game;
        assert_eq!(client.game_state(), game.state());
        assert_eq!(client.state_hash(), game.state_hash());
    }
    assert_eq!(client.game_state(), State::Winner(Player::A));
    client.on_game_ended();
}

#[test]
fn hash_mismatch_is_rejected_and_changes_nothing() {
    let mut client = Client::new();
    let mut response = attest(TicTacToe::new(), 1, 1);
    response.prev_state_hash = StateHash::from_bytes([0; 32]);
    assert_eq!(client.verify_receipt(&response, true), Err(VerifyError::HashMismatch));
    assert_eq!(client.game_state(), State::InProgress);
    assert_eq!(client.state_hash(), TicTacToe::initial_hash());
}

#[test]
fn move_on_a_later_state_is_rejected_by_a_client_that_missed_one() {
    let mut client = Client::new();
    let first = attest(TicTacToe::new(), 0, 0);
    let second = attest(first.game, 1, 1);
    assert_eq!(client.verify_receipt(&second, true), Err(VerifyError::HashMismatch));
    assert_eq!(client.state_hash(), TicTacToe::initial_hash());
    assert_eq!(client.verify_receipt(&first, true), Ok(()));
    assert_eq!(client.verify_receipt(&second, true), Ok(()));
}

#[test]
fn replayed_attestation_is_rejected() {
    let mut client = Client::new();
    let response = attest(TicTacToe::new(), 2, 2);
    assert_eq!(client.verify_receipt(&response, true), Ok(()));
    let accepted = client.state_hash();
    assert_ne!(accepted, TicTacToe::initial_hash());
    assert_eq!(client.verify_receipt(&response, true), Err(VerifyError::HashMismatch));
    assert_eq!(client.state_hash(), accepted);
    assert_eq!(client.game_state(), State::InProgress);
}

#[test]
fn invalid_proof_is_rejected_and_changes_nothing() {
    let mut client = Client::new();
    let response = attest(TicTacToe::new(), 1, 1);
    assert_eq!(client.verify_receipt(&response, false), Err(VerifyError::ProofInvalid));
    assert_eq!(client.game_state(), State::InProgress);
    assert_eq!(client.state_hash(), TicTacToe::initial_hash());
}

#[test]
fn forged_receipt_fails_proof_validation() {
    // A receipt that carries a journal but no proof of its own.
    let receipt = SessionReceipt { segments: vec![], journal: vec![1, 0, 0, 0] };
    let proof_valid = receipt.verify([0u32; 8]).is_ok();
    assert!(!proof_valid);
    let mut tampered = attest(TicTacToe::new(), 1, 1);
    tampered.game = TicTacToe::from_parts(
        [[Cell::Player1; 3]; 3],
        Player::A,
        State::Winner(Player::A),
    );
    let mut client = Client::new();
    assert_eq!(client.verify_receipt(&tampered, proof_valid), Err(VerifyError::ProofInvalid));
    assert_eq!(client.game_state(), State::InProgress);
    assert_eq!(client.state_hash(), TicTacToe::initial_hash());
}

#[test]
fn nothing_is_accepted_after_the_game_has_ended() {
    let mut client = Client::new();
    let ended = VmResponse {
        game: TicTacToe::from_parts([[Cell::Player2; 3]; 3], Player::B, State::Winner(Player::B)),
        prev_state_hash: TicTacToe::initial_hash(),
    };
    assert_eq!(client.verify_receipt(&ended, true), Ok(()));
    assert_eq!(client.game_state(), State::Winner(Player::B));
    let held = client.state_hash();
    assert_eq!(held, ended.game.state_hash());

    let next = VmResponse { game: TicTacToe::new(), prev_state_hash: held };
    assert_eq!(client.verify_receipt(&next, true), Err(VerifyError::AlreadyEnded));
    assert_eq!(client.verify_receipt(&next, false), Err(VerifyError::AlreadyEnded));
    assert_eq!(client.verify_receipt(&ended, true), Err(VerifyError::AlreadyEnded));
    assert_eq!(client.game_state(), State::Winner(Player::B));
    assert_eq!(client.state_hash(), held);
    client.on_game_ended();
}

#[test]
fn invalid_proof_is_reported_before_a_hash_mismatch() {
    let mut client = Client::new();
    let mut response = attest(TicTacToe::new(), 1, 1);
    response.prev_state_hash = StateHash::from_bytes([7; 32]);
    assert_eq!(client.verify_receipt(&response, false), Err(VerifyError::ProofInvalid));
}

#[test]
fn stalemate_closes_the_record() {
    let mut client = Client::new();
    let mut game = TicTacToe::new();
    let moves = [(0, 0), (1, 0), (2, 0), (1, 1), (0, 1), (2, 1), (1, 2), (0, 2), (2, 2)];
    for (x, y) in moves {
        let response = attest(game, x, y);
        assert_eq!(client.verify_receipt(&response, true), Ok(()));
        game = response.game;
    }
    assert_eq!(client.game_state(), State::Stalemate);
    client.on_game_ended();
}

#[test]
fn verify_error_messages() {
    assert_eq!(VerifyError::AlreadyEnded.message(), "Game has already ended!");
    assert_eq!(VerifyError::ProofInvalid.message(), "receipt verification failed");
    assert_eq!(VerifyError::HashMismatch.message(), "Game state hash mismatch!");
}
