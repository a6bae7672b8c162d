use game::{is_ascii_num, Cell, Point, Server, State, TicTacToe};

#[test]
fn digits_are_recognised() {
    assert!(!is_ascii_num(47));
    assert!(is_ascii_num(48));
    assert!(is_ascii_num(b'5'));
    assert!(is_ascii_num(57));
    assert!(!is_ascii_num(58));
    assert!(!is_ascii_num(b' '));
    assert!(!is_ascii_num(0));
    assert!(!is_ascii_num(255));
}

#[test]
fn well_formed_line_names_a_point() {
    assert_eq!(Server::parse_input(b"1 2"), Some(Point::new(1, 2)));
    assert_eq!(Server::parse_input(b"0 0"), Some(Point::new(0, 0)));
    assert_eq!(Server::parse_input(b"2 0"), Some(Point::new(2, 0)));
}

#[test]
fn parsed_point_need_not_lie_on_the_board() {
    assert_eq!(Server::parse_input(b"9 9"), Some(Point::new(9, 9)));
    assert_eq!(Server::parse_input(b"3 1"), Some(Point::new(3, 1)));
}

#[test]
fn malformed_lines_name_no_point() {
    for line in [
        &b""[..], b"1", b"12", b"1 ", b" 1 2", b"1 2 ", b"1  2", b"1,2", b"a 1", b"1 b", b"1-2",
        b"1\t2", b"10 2", b"1 2\n", b"/ 0", b"0 :",
    ] {
        assert_eq!(Server::parse_input(line), None);
    }
}

#[test]
fn new_server_holds_a_new_game() {
    let server = Server::new();
    assert_eq!(server.game.as_bytes(), TicTacToe::new().as_bytes());
    assert_eq!(server.game.state(), State::InProgress);
}

#[test]
fn server_adopts_the_attested_game() {
    let mut server = Server::new();
    let response = server.game.attest_move(Point::new(2, 1)).unwrap();
    server.adopt(&response);
    assert_eq!(server.game.as_bytes(), response.game.as_bytes());
    assert_eq!(server.game.board()[1][2], Cell::Player1);
}

#[test]
fn empty_board_is_drawn_with_blanks() {
    let lines = TicTacToe::new().board_rows();
    assert_eq!(&lines[0], b" | | |");
    assert_eq!(&lines[1], b" | | |");
    assert_eq!(&lines[2], b" | | |");
}

#[test]
fn marks_are_drawn_where_they_stand() {
    let mut game = TicTacToe::new();
    for (x, y) in [(0, 0), (1, 0), (2, 2), (0, 1)] {
        assert_eq!(game.make_move(Point::new(x, y)), Ok(()));
    }
    let lines = game.board_rows();
    assert_eq!(&lines[0], b"X|O| |");
    assert_eq!(&lines[1], b"O| | |");
    assert_eq!(&lines[2], b" | |X|");
}

#[test]
fn cell_symbols() {
    assert_eq!(Cell::Player1.symbol(), b'X');
    assert_eq!(Cell::Player2.symbol(), b'O');
    assert_eq!(Cell::Vacant.symbol(), b' ');
}
