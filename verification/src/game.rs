//! The game as a state machine: what each operation makes of a state.

use vstd::prelude::*;
use crate::cell::Cell;
use crate::error::GameError;
use crate::event::{Event, Winner};
use crate::identity::Identity;
use crate::opponent::reply;
use crate::rules::{empty_board, verdict, Verdict};
use crate::status::{GameStatus, Turn};

verus! {

/// All there is to know of a game.
pub struct GameState {
    /// The nine squares, row by row.
    pub board: Seq<Cell>,
    /// The player to whom the game is bound.
    pub player: Identity,
    /// Whose move is legal, once a game has assigned it.
    pub turn: Option<Turn>,
    /// The phase of the game.
    pub status: GameStatus,
}

impl GameState {
    /// The board has the nine squares of the game.
    pub open spec fn well_formed(self) -> bool {
        self.board.len() == 9
    }
}

/// Why `start_game` is rejected in state `s`, if it is.
pub open spec fn start_rejection(s: GameState) -> Option<GameError> {
    if s.status == GameStatus::InProgress {
        Some(GameError::GameAlreadyActive)
    } else {
        None
    }
}

/// The state in which a game begins: an empty board, bound to `caller`, who
/// moves first.
pub open spec fn started(caller: Identity) -> GameState {
    GameState {
        board: empty_board(),
        player: caller,
        turn: Some(Turn::PlayerTurn),
        status: GameStatus::InProgress,
    }
}

/// Why `make_move` is rejected in state `s`, if it is. The checks are made
/// in this order, and the first that fails decides.
pub open spec fn move_rejection(s: GameState, caller: Identity, position: int) -> Option<GameError> {
    if !(0 <= position < 9) {
        Some(GameError::InvalidPosition)
    } else if s.status != GameStatus::InProgress {
        Some(GameError::GameNotActive)
    } else if caller@ != s.player@ {
        Some(GameError::NotAuthorized)
    } else if s.turn != Some(Turn::PlayerTurn) {
        Some(GameError::OutOfTurn)
    } else if s.board[position] != Cell::Empty {
        Some(GameError::CellOccupied)
    } else {
        None
    }
}

/// The state after `mark` has been placed at `position` by the side whose
/// turn it was: the game ends where the board is won or full, and the turn
/// passes to `next` where it is not.
pub open spec fn placed(s: GameState, position: int, mark: Cell, next: Turn) -> GameState {
    let board = s.board.update(position, mark);
    match verdict(board) {
        Verdict::Open => GameState { board, turn: Some(next), ..s },
        _ => GameState { board, status: GameStatus::Finished, ..s },
    }
}

/// What is announced once `winner`'s mark has been placed and the board
/// stands as `board`.
pub open spec fn ending_events(board: Seq<Cell>, winner: Winner) -> Seq<Event> {
    match verdict(board) {
        Verdict::Won => seq![Event::GameWon { winner }],
        Verdict::Drawn => seq![Event::GameDrawn],
        Verdict::Open => seq![],
    }
}

/// The state after the opponent has answered in state `s`, in which it is
/// the opponent's turn. Where no square is left the state stays as it is.
pub open spec fn replied(s: GameState) -> GameState {
    match reply(s.board) {
        Some(r) => placed(s, r, Cell::OpponentMark, Turn::PlayerTurn),
        None => s,
    }
}

/// What the opponent's answer in state `s` announces.
pub open spec fn reply_events(s: GameState) -> Seq<Event> {
    match reply(s.board) {
        Some(r) => seq![Event::ContractMove { position: r as u64 }]
            + ending_events(s.board.update(r, Cell::OpponentMark), Winner::House),
        None => seq![],
    }
}

/// The state after an accepted move of the player to `position`: the
/// player's mark is placed, and unless that ends the game the opponent
/// answers at once.
pub open spec fn moved(s: GameState, position: int) -> GameState {
    let mine = placed(s, position, Cell::PlayerMark, Turn::OpponentTurn);
    if mine.status == GameStatus::InProgress {
        replied(mine)
    } else {
        mine
    }
}

/// What an accepted move of the player to `position` announces, in order.
pub open spec fn move_events(s: GameState, position: int) -> Seq<Event> {
    let mine = placed(s, position, Cell::PlayerMark, Turn::OpponentTurn);
    let first = seq![Event::PlayerMove { position: position as u64 }];
    if mine.status == GameStatus::InProgress {
        first + reply_events(mine)
    } else {
        first + ending_events(mine.board, Winner::Player(s.player))
    }
}

} // verus!
