//! What holds of every game.
//!
//! Each law is stated over the state machine of `game` and proved from its
//! definitions. The operations of `Contract` are specified by that state
//! machine, so what is proved here holds of every call of them.

use vstd::prelude::*;
use crate::cell::Cell;
use crate::contract::board_codes;
use crate::error::GameError;
use crate::event::{Event, Winner};
use crate::game::{
    move_events, move_rejection, moved, placed, replied, reply_events, start_rejection, started,
    GameState,
};
use crate::identity::Identity;
use crate::opponent::{lemma_reply_is_empty_square, reply};
use crate::rules::{
    count_of, has_winner, is_full, lemma_count_update, lemma_counts_partition, marks_on, verdict,
    Verdict,
};
use crate::status::{turn_code, GameStatus, Turn};

verus! {

/// Starting afresh wipes the slate. Whenever no game is in progress, and so
/// after every finished game, `start_game` is accepted, and whatever the
/// board held before, the new game has nine empty squares, is bound to the
/// caller, is in progress, and has the player to move.
pub proof fn law_start_resets(s: GameState, caller: Identity)
    requires
        s.status != GameStatus::InProgress,
    ensures
        start_rejection(s) is None,
        started(caller).well_formed(),
        forall|i: int| 0 <= i < 9 ==> started(caller).board[i] == Cell::Empty,
        started(caller).player == caller,
        started(caller).turn == Some(Turn::PlayerTurn),
        started(caller).status == GameStatus::InProgress,
{
}

/// A game in progress cannot be started over.
pub proof fn law_running_game_is_not_restarted(s: GameState)
    requires
        s.status == GameStatus::InProgress,
    ensures
        start_rejection(s) == Some(GameError::GameAlreadyActive),
{
}

/// The turn comes back. After an accepted move that does not end the game
/// it is the player's turn again, and the board has gained exactly two
/// marks: the player's at the position played, and one of the opponent's on
/// another square that was empty.
pub proof fn law_turn_alternates(s: GameState, caller: Identity, position: int)
    requires
        s.well_formed(),
        move_rejection(s, caller, position) is None,
        moved(s, position).status == GameStatus::InProgress,
    ensures
        moved(s, position).turn == Some(Turn::PlayerTurn),
        count_of(moved(s, position).board, Cell::OpponentMark)
            == count_of(s.board, Cell::OpponentMark) + 1,
        count_of(moved(s, position).board, Cell::PlayerMark)
            == count_of(s.board, Cell::PlayerMark) + 1,
        exists|r: int|
            {
                &&& 0 <= r < 9
                &&& r != position
                &&& s.board[r] == Cell::Empty
                &&& moved(s, position).board == #[trigger] s.board.update(
                    position,
                    Cell::PlayerMark,
                ).update(r, Cell::OpponentMark)
            },
{
    let mine = placed(s, position, Cell::PlayerMark, Turn::OpponentTurn);
    lemma_reply_is_empty_square(mine.board);
    let r = reply(mine.board)->0;
    lemma_count_update(s.board, position, Cell::PlayerMark, Cell::OpponentMark);
    lemma_count_update(s.board, position, Cell::PlayerMark, Cell::PlayerMark);
    lemma_count_update(mine.board, r, Cell::OpponentMark, Cell::OpponentMark);
    lemma_count_update(mine.board, r, Cell::OpponentMark, Cell::PlayerMark);
    assert(moved(s, position).board == s.board.update(position, Cell::PlayerMark).update(
        r,
        Cell::OpponentMark,
    ));
}

/// No mark is written over. A move to a square of the board that holds a
/// mark is always rejected, and where nothing else is wrong with the call
/// (a game is in progress, the caller is its player, it is the player's
/// turn) the rejection is `CellOccupied`.
pub proof fn law_occupied_square_is_refused(s: GameState, caller: Identity, position: int)
    requires
        0 <= position < 9,
        s.board[position] != Cell::Empty,
    ensures
        move_rejection(s, caller, position) is Some,
        ({
            &&& s.status == GameStatus::InProgress
            &&& caller@ == s.player@
            &&& s.turn == Some(Turn::PlayerTurn)
        }) ==> move_rejection(s, caller, position) == Some(GameError::CellOccupied),
{
}

/// A position beyond the board is rejected as such, whatever the state and
/// whoever calls.
pub proof fn law_position_is_checked_first(s: GameState, caller: Identity, position: int)
    requires
        !(0 <= position < 9),
    ensures
        move_rejection(s, caller, position) == Some(GameError::InvalidPosition),
{
}

/// A stranger's move is rejected. While a game is in progress, a move to a
/// square of the board by anyone but the bound player is `NotAuthorized`.
pub proof fn law_stranger_is_refused(s: GameState, caller: Identity, position: int)
    requires
        0 <= position < 9,
        s.status == GameStatus::InProgress,
        caller@ != s.player@,
    ensures
        move_rejection(s, caller, position) == Some(GameError::NotAuthorized),
{
}

/// A win goes before a draw. A board with a complete line is won, also
/// where it is full.
pub proof fn law_win_before_draw(board: Seq<Cell>)
    requires
        has_winner(board),
    ensures
        verdict(board) == Verdict::Won,
        is_full(board) ==> verdict(board) != Verdict::Drawn,
{
}

/// A draw is announced only of a board without a complete line. After an
/// accepted move, `GameDrawn` is among the events only where the board is
/// full and not won; and where the board is won, the game is finished and
/// the last event names the winner: the player where the player's own mark
/// completed the line, the house otherwise.
pub proof fn law_draw_only_without_winner(s: GameState, caller: Identity, position: int)
    requires
        s.well_formed(),
        move_rejection(s, caller, position) is None,
    ensures
        move_events(s, position).contains(Event::GameDrawn) ==> {
            &&& is_full(moved(s, position).board)
            &&& !has_winner(moved(s, position).board)
        },
        has_winner(moved(s, position).board) ==> {
            &&& moved(s, position).status == GameStatus::Finished
            &&& !move_events(s, position).contains(Event::GameDrawn)
            &&& move_events(s, position).last() == (Event::GameWon {
                winner: if has_winner(s.board.update(position, Cell::PlayerMark)) {
                    Winner::Player(s.player)
                } else {
                    Winner::House
                },
            })
        },
{
    let mine = placed(s, position, Cell::PlayerMark, Turn::OpponentTurn);
    let events = move_events(s, position);
    lemma_reply_is_empty_square(mine.board);
    if events.contains(Event::GameDrawn) {
        let i = choose|i: int| 0 <= i < events.len() && events[i] == Event::GameDrawn;
        assert(events[i] == Event::GameDrawn);
    }
}

/// The opponent does not throw dice. Its answer is a function of the board:
/// two games with the same board get the same answer, whoever plays them
/// and whatever else differs.
pub proof fn law_reply_is_fixed_by_board(s1: GameState, s2: GameState)
    requires
        s1.board == s2.board,
    ensures
        reply(s1.board) == reply(s2.board),
        replied(s1).board == replied(s2).board,
        reply_events(s1) == reply_events(s2),
{
}

/// The opponent always finds a square. After an accepted move that leaves
/// the board neither won nor full, the opponent's mark lands on a square
/// that was empty.
pub proof fn law_opponent_always_answers(s: GameState, caller: Identity, position: int)
    requires
        s.well_formed(),
        move_rejection(s, caller, position) is None,
        verdict(s.board.update(position, Cell::PlayerMark)) == Verdict::Open,
    ensures
        reply(s.board.update(position, Cell::PlayerMark)) matches Some(r) && {
            &&& 0 <= r < 9
            &&& r != position
            &&& s.board[r] == Cell::Empty
            &&& moved(s, position).board[r] == Cell::OpponentMark
        },
{
    lemma_reply_is_empty_square(s.board.update(position, Cell::PlayerMark));
}

/// Marks stay. An accepted move changes no square that held a mark, and
/// the number of marks on the board grows without passing nine.
pub proof fn law_marks_stay(s: GameState, caller: Identity, position: int)
    requires
        s.well_formed(),
        move_rejection(s, caller, position) is None,
    ensures
        moved(s, position).well_formed(),
        forall|i: int|
            0 <= i < 9 && s.board[i] != Cell::Empty
                ==> moved(s, position).board[i] == s.board[i],
        moved(s, position).board[position] == Cell::PlayerMark,
        marks_on(s.board) < marks_on(moved(s, position).board) <= 9,
{
    let mine = placed(s, position, Cell::PlayerMark, Turn::OpponentTurn);
    let after = moved(s, position);
    lemma_reply_is_empty_square(mine.board);
    lemma_count_update(s.board, position, Cell::PlayerMark, Cell::OpponentMark);
    lemma_count_update(s.board, position, Cell::PlayerMark, Cell::PlayerMark);
    if mine.status == GameStatus::InProgress {
        let r = reply(mine.board)->0;
        lemma_count_update(mine.board, r, Cell::OpponentMark, Cell::OpponentMark);
        lemma_count_update(mine.board, r, Cell::OpponentMark, Cell::PlayerMark);
    }
    lemma_counts_partition(after.board);
}

/// The status only moves forward. An accepted move leaves the game in
/// progress or finished, finished exactly where the board is won or full;
/// the player and the game's binding stay; and a game that is not in
/// progress accepts no move.
pub proof fn law_status_moves_forward(s: GameState, caller: Identity, position: int)
    requires
        s.well_formed(),
    ensures
        s.status != GameStatus::InProgress ==> move_rejection(s, caller, position) is Some,
        move_rejection(s, caller, position) is None ==> {
            &&& moved(s, position).player == s.player
            &&& moved(s, position).status != GameStatus::NotStarted
            &&& moved(s, position).status == GameStatus::Finished
                <==> verdict(moved(s, position).board) != Verdict::Open
        },
{
    if move_rejection(s, caller, position) is None {
        let mine = placed(s, position, Cell::PlayerMark, Turn::OpponentTurn);
        lemma_reply_is_empty_square(mine.board);
    }
}

/// The numbers spell one state. Two states with the same codes for their
/// squares, turn and status and with the same player are the same state, so
/// what `from_game_state` makes of the numbers that `get_game_state` gave
/// is the state that was asked.
pub proof fn law_codes_spell_one_state(a: GameState, b: GameState)
    requires
        board_codes(a.board) == board_codes(b.board),
        a.player == b.player,
        turn_code(a.turn) == turn_code(b.turn),
        a.status.spec_code() == b.status.spec_code(),
    ensures
        a == b,
{
    assert(board_codes(a.board).len() == a.board.len());
    assert(board_codes(b.board).len() == b.board.len());
    assert forall|i: int| 0 <= i < a.board.len() implies a.board[i] == b.board[i] by {
        assert(board_codes(a.board)[i] == a.board[i].spec_code());
        assert(board_codes(b.board)[i] == b.board[i].spec_code());
    }
    assert(a.board =~= b.board);
}

} // verus!
