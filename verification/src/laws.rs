//! What holds of the rules, the canonical bytes and the digest chain, proved
//! from their definitions.

use vstd::prelude::*;
use crate::attestation::{attested, VmResponseView};
use crate::client::{initial_client, verify_result, ClientView, VerifyError};
use crate::encoding::encoding;
use crate::hash::sha256;
use crate::player::{flipped, mark_of, occupant, Cell, Player};
use crate::point::Coord;
use crate::rules::{
    anti_diagonal_won, cell_at, column_won, evaluated, has_vacant, initial_game, line_complete,
    main_diagonal_won, move_result, on_board, row_won, well_formed, winner, GameView,
};
use crate::status::{MoveError, State};

verus! {

/// The first move of a game is made by player `A`: on the game before any
/// move, every point on the board can be played, and whatever move succeeds
/// leaves the mark of `A` on its square and `A` as the last mover.
pub proof fn first_move_is_by_player_a(at: Coord)
    ensures
        on_board(at) <==> move_result(initial_game(), at) is Ok,
        move_result(initial_game(), at) matches Ok(next) ==> next.previous == Player::A && cell_at(
            next.rows,
            at,
        ) == Cell::Player1,
{
}

/// A finished game never changes: once the state is a stalemate or a winner,
/// every move is refused.
pub proof fn finished_game_takes_no_move(game: GameView, at: Coord)
    requires
        game.state != State::InProgress,
    ensures
        move_result(game, at) == Err::<GameView, MoveError>(MoveError::GameFinished),
{
}

/// The players take turns: a move that succeeds is made by the player who did
/// not make the move before it, so of two moves in a row each is made by
/// another player.
pub proof fn players_alternate(game: GameView, first: Coord, second: Coord)
    requires
        move_result(game, first) is Ok,
        move_result(move_result(game, first)->Ok_0, second) is Ok,
    ensures
        move_result(game, first)->Ok_0.previous == flipped(game.previous),
        move_result(move_result(game, first)->Ok_0, second)->Ok_0.previous == game.previous,
{
}

/// A move marks the square it is made on, which was free, with the mover's
/// mark and changes no other square; so a square that holds a mark keeps it
/// for the rest of the game.
pub proof fn move_marks_one_square(game: GameView, at: Coord, other: Coord)
    requires
        well_formed(game.rows),
        on_board(other),
        move_result(game, at) is Ok,
    ensures
        well_formed(move_result(game, at)->Ok_0.rows),
        cell_at(game.rows, at) == Cell::Vacant,
        cell_at(move_result(game, at)->Ok_0.rows, at) == mark_of(flipped(game.previous)),
        other != at ==> cell_at(move_result(game, at)->Ok_0.rows, other) == cell_at(
            game.rows,
            other,
        ),
        cell_at(game.rows, other) != Cell::Vacant ==> cell_at(
            move_result(game, at)->Ok_0.rows,
            other,
        ) == cell_at(game.rows, other),
{
}

/// A board has a winner exactly when some row, column or diagonal is filled
/// by one player.
pub proof fn winner_exactly_when_line_complete(rows: Seq<Seq<Cell>>)
    ensures
        winner(rows) is Some <==> line_complete(rows),
{
}

/// When no row and no column is filled by one player, the winner is the
/// player who fills a diagonal, the one from the top right going first.
pub proof fn diagonal_winner(rows: Seq<Seq<Cell>>)
    requires
        forall|i: int| 0 <= i < 3 ==> !row_won(rows, i) && !column_won(rows, i),
    ensures
        anti_diagonal_won(rows) ==> winner(rows) == occupant(rows[0][2]),
        !anti_diagonal_won(rows) && main_diagonal_won(rows) ==> winner(rows)
            == occupant(rows[0][0]),
        !anti_diagonal_won(rows) && !main_diagonal_won(rows) ==> winner(rows) is None,
{
}

/// When the scan ends on the first row or the first column, neither diagonal
/// has been followed beyond its corner on the top row. The winner is then the
/// player who holds the top right corner, if it is taken, and otherwise the
/// player who holds the top left corner, who also fills the line found.
pub proof fn early_line_is_decided_by_the_top_corners(rows: Seq<Seq<Cell>>)
    requires
        row_won(rows, 0) || column_won(rows, 0),
    ensures
        rows[0][2] != Cell::Vacant ==> winner(rows) == occupant(rows[0][2]),
        rows[0][2] == Cell::Vacant ==> winner(rows) == occupant(rows[0][0]),
        rows[0][0] != Cell::Vacant,
{
}

/// A full board on which no row, column or diagonal is filled by one player
/// is a stalemate.
pub proof fn full_board_without_line_is_stalemate(rows: Seq<Seq<Cell>>, current: State)
    requires
        !has_vacant(rows),
        !line_complete(rows),
    ensures
        evaluated(rows, current) == State::Stalemate,
{
}

/// A move ends the game exactly when it completes a line or fills the last
/// free square.
pub proof fn move_ends_game_exactly_when(game: GameView, at: Coord)
    requires
        move_result(game, at) is Ok,
    ensures
        move_result(game, at)->Ok_0.state != State::InProgress <==> line_complete(
            move_result(game, at)->Ok_0.rows,
        ) || !has_vacant(move_result(game, at)->Ok_0.rows),
{
}

/// The canonical bytes depend on the game alone: two games that are equal
/// have the same bytes, and these are eleven.
pub proof fn encoding_is_deterministic(first: GameView, second: GameView)
    requires
        first == second,
    ensures
        encoding(first) == encoding(second),
        encoding(first).len() == 11,
{
}

/// No byte of the canonical form is idle: two well-formed games with the
/// same bytes are the same game.
pub proof fn encoding_is_injective(first: GameView, second: GameView)
    requires
        well_formed(first.rows),
        well_formed(second.rows),
        encoding(first) == encoding(second),
    ensures
        first == second,
{
    let a = encoding(first);
    let b = encoding(second);
    assert forall|y: int, x: int| 0 <= y < 3 && 0 <= x < 3 implies first.rows[y][x]
        == second.rows[y][x] by {
        assert(a[3 * y + x] == b[3 * y + x]);
    }
    assert(a[9] == b[9]);
    assert(a[10] == b[10]);
    assert(first.rows[0] =~= second.rows[0]);
    assert(first.rows[1] =~= second.rows[1]);
    assert(first.rows[2] =~= second.rows[2]);
    assert(first.rows =~= second.rows);
}

/// A player's record is in step with a game: it holds the game's state of
/// play and the digest of the game.
pub open spec fn in_step(client: ClientView, game: GameView) -> bool {
    client.game_state == game.state && client.state_hash == sha256(encoding(game))
}

/// A new record is in step with a new game.
pub proof fn new_client_is_in_step()
    ensures
        in_step(initial_client(), initial_game()),
{
}

/// The digest chain holds together: a player in step with a game accepts the
/// attested result of any move that the rules allow on it, given a valid
/// proof, and is then in step with the game after the move.
pub proof fn attested_move_is_accepted(client: ClientView, game: GameView, at: Coord)
    requires
        in_step(client, game),
        attested(game, at) is Ok,
    ensures
        verify_result(client, attested(game, at)->Ok_0, true) is Ok,
        in_step(
            verify_result(client, attested(game, at)->Ok_0, true)->Ok_0,
            move_result(game, at)->Ok_0,
        ),
{
}

/// A move made on another state than the one the player holds is refused,
/// whatever the proof says.
pub proof fn foreign_move_is_refused(
    client: ClientView,
    response: VmResponseView,
    proof_valid: bool,
)
    requires
        response.prev_state_hash != client.state_hash,
    ensures
        verify_result(client, response, proof_valid) is Err,
        client.game_state == State::InProgress && proof_valid ==> verify_result(
            client,
            response,
            proof_valid,
        ) == Err::<ClientView, VerifyError>(VerifyError::HashMismatch),
{
}

/// An attested move is accepted once only. After a player has accepted it,
/// the record holds the digest of the new state; if that differs from the
/// digest the move names, handing the move in again fails: with a digest
/// mismatch while the game goes on, and because the game has ended otherwise.
pub proof fn accepted_move_is_not_accepted_again(client: ClientView, response: VmResponseView)
    requires
        verify_result(client, response, true) is Ok,
        sha256(encoding(response.game)) != response.prev_state_hash,
    ensures
        verify_result(verify_result(client, response, true)->Ok_0, response, true) == Err::<
            ClientView,
            VerifyError,
        >(
            if response.game.state == State::InProgress {
                VerifyError::HashMismatch
            } else {
                VerifyError::AlreadyEnded
            },
        ),
{
}

} // verus!
