use game::{Cell, Player, Point, State, StateHash, TicTacToe};
use risc0_zkvm::sha::{Impl, Sha256};

const INITIAL_DIGEST: [u8; 32] = [
    151, 138, 76, 198, 128, 147, 175, 132, 32, 16, 22, 165, 159, 154, 16, 90, 169, 159, 76, 141,
    63, 232, 89, 225, 57, 238, 185, 151, 92, 119, 81, 248,
];

#[test]
fn initial_game_bytes() {
    assert_eq!(TicTacToe::new().as_bytes(), [2, 2, 2, 2, 2, 2, 2, 2, 2, 1, 2]);
}

#[test]
fn bytes_follow_the_board_row_by_row() {
    let mut game = TicTacToe::new();
    assert_eq!(game.make_move(Point::new(1, 0)), Ok(()));
    assert_eq!(game.as_bytes(), [2, 0, 2, 2, 2, 2, 2, 2, 2, 0, 2]);
    assert_eq!(game.make_move(Point::new(0, 2)), Ok(()));
    assert_eq!(game.as_bytes(), [2, 0, 2, 2, 2, 2, 1, 2, 2, 1, 2]);
}

#[test]
fn bytes_of_each_state() {
    let board = [[Cell::Player1; 3]; 3];
    let bytes = |state| TicTacToe::from_parts(board, Player::A, state).as_bytes();
    assert_eq!(bytes(State::Winner(Player::A)), [0, 0, 0, 0, 0, 0, 0, 0, 0, 0, 0]);
    assert_eq!(bytes(State::Winner(Player::B)), [0, 0, 0, 0, 0, 0, 0, 0, 0, 0, 1]);
    assert_eq!(bytes(State::InProgress), [0, 0, 0, 0, 0, 0, 0, 0, 0, 0, 2]);
    assert_eq!(bytes(State::Stalemate), [0, 0, 0, 0, 0, 0, 0, 0, 0, 0, 3]);
}

#[test]
fn single_bytes() {
    assert_eq!(Cell::Player1.to_byte(), 0);
    assert_eq!(Cell::Player2.to_byte(), 1);
    assert_eq!(Cell::Vacant.to_byte(), 2);
    assert_eq!(Player::A.to_byte(), 0);
    assert_eq!(Player::B.to_byte(), 1);
    assert_eq!(State::Winner(Player::A).to_byte(), 0);
    assert_eq!(State::Winner(Player::B).to_byte(), 1);
    assert_eq!(State::InProgress.to_byte(), 2);
    assert_eq!(State::Stalemate.to_byte(), 3);
}

#[test]
fn equal_games_have_equal_bytes() {
    let moves = [(1, 1), (0, 0), (2, 1), (0, 1)];
    let mut first = TicTacToe::new();
    let mut second = TicTacToe::new();
    for (x, y) in moves {
        assert_eq!(first.make_move(Point::new(x, y)), Ok(()));
    }
    for (x, y) in moves {
        assert_eq!(second.make_move(Point::new(x, y)), Ok(()));
    }
    assert_eq!(first.as_bytes(), second.as_bytes());
    assert_eq!(first.as_bytes(), first.as_bytes());
    let rebuilt = TicTacToe::from_parts(first.board(), first.previous(), first.state());
    assert_eq!(rebuilt.as_bytes(), first.as_bytes());
    assert_eq!(rebuilt.state_hash(), first.state_hash());
}

#[test]
fn different_games_have_different_bytes() {
    let mut first = TicTacToe::new();
    let mut second = TicTacToe::new();
    assert_eq!(first.make_move(Point::new(0, 1)), Ok(()));
    assert_eq!(second.make_move(Point::new(1, 0)), Ok(()));
    assert_ne!(first.as_bytes(), second.as_bytes());
    assert_ne!(first.as_bytes(), TicTacToe::new().as_bytes());
}

#[test]
fn digest_is_sha256() {
    let expected = [
        186, 120, 22, 191, 143, 1, 207, 234, 65, 65, 64, 222, 93, 174, 34, 35, 176, 3, 97, 163,
        150, 23, 122, 156, 180, 16, 255, 97, 242, 0, 21, 173,
    ];
    assert_eq!(StateHash::of(b"abc").to_bytes(), expected);
}

#[test]
fn initial_hash_is_the_digest_of_the_initial_bytes() {
    assert_eq!(TicTacToe::initial_hash().to_bytes(), INITIAL_DIGEST);
    assert_eq!(TicTacToe::new().state_hash().to_bytes(), INITIAL_DIGEST);
    assert_eq!(TicTacToe::initial_hash(), StateHash::of(&TicTacToe::new().as_bytes()));
}

#[test]
fn state_hash_agrees_with_the_zkvm_digest() {
    let mut game = TicTacToe::new();
    assert_eq!(game.make_move(Point::new(1, 1)), Ok(()));
    let digest = Impl::hash_bytes(&game.as_bytes());
    assert_eq!(game.state_hash().to_bytes().as_slice(), digest.as_bytes());
    let expected = [
        94, 3, 103, 78, 220, 241, 6, 44, 154, 112, 4, 43, 130, 10, 1, 69, 161, 252, 205, 244, 250,
        20, 210, 17, 18, 27, 96, 182, 19, 22, 214, 136,
    ];
    assert_eq!(game.state_hash().to_bytes(), expected);
}

#[test]
fn state_hash_equality() {
    let zero = StateHash::from_bytes([0; 32]);
    let mut bytes = [0; 32];
    bytes[31] = 1;
    let other = StateHash::from_bytes(bytes);
    assert!(zero.matches(&zero));
    assert!(!zero.matches(&other));
    assert_eq!(zero, StateHash::from_bytes([0; 32]));
    assert_ne!(zero, other);
    assert_eq!(other.to_bytes(), bytes);
}
