//! The phase a game is in, and whose move it is.

use vstd::prelude::*;

verus! {

/// The coarse phase of the game. It decides which operations are legal.
#[derive(Clone, Copy, Debug, PartialEq, Eq, Structural)]
pub enum GameStatus {
    /// No game has been started.
    NotStarted,
    /// A game is being played.
    InProgress,
    /// The last game ended in a win or a draw.
    Finished,
}

/// Whose move is legal. It means something only while a game is in progress.
#[derive(Clone, Copy, Debug, PartialEq, Eq, Structural)]
pub enum Turn {
    /// The player moves next.
    PlayerTurn,
    /// The opponent moves next.
    OpponentTurn,
}

impl GameStatus {
    /// The number that stands for a status outside the engine:
    /// 0 for not started, 1 for in progress, 2 for finished.
    pub open spec fn spec_code(self) -> u8 {
        match self {
            GameStatus::NotStarted => 0,
            GameStatus::InProgress => 1,
            GameStatus::Finished => 2,
        }
    }

    /// The number that stands for this status.
    #[verifier::when_used_as_spec(spec_code)]
    pub fn code(self) -> (code: u8)
        ensures
            code == self.spec_code(),
    {
        match self {
            GameStatus::NotStarted => 0,
            GameStatus::InProgress => 1,
            GameStatus::Finished => 2,
        }
    }

    /// The status that a number stands for, if it stands for one.
    pub fn from_code(code: u8) -> (status: Option<GameStatus>)
        ensures
            status is Some <==> code <= 2,
            status matches Some(s) ==> s.spec_code() == code,
    {
        if code == 0 {
            Some(GameStatus::NotStarted)
        } else if code == 1 {
            Some(GameStatus::InProgress)
        } else if code == 2 {
            Some(GameStatus::Finished)
        } else {
            None
        }
    }
}

/// The number that stands for a turn outside the engine: 1 for the player,
/// 2 for the opponent, and 0 while no game has ever assigned one.
pub open spec fn turn_code(turn: Option<Turn>) -> u8 {
    match turn {
        None => 0,
        Some(Turn::PlayerTurn) => 1,
        Some(Turn::OpponentTurn) => 2,
    }
}

impl Turn {
    /// The number that stands for a turn, or for none.
    pub fn code(turn: Option<Turn>) -> (code: u8)
        ensures
            code == turn_code(turn),
    {
        match turn {
            None => 0,
            Some(Turn::PlayerTurn) => 1,
            Some(Turn::OpponentTurn) => 2,
        }
    }

    /// The turn that a number stands for: `Some(None)` for 0, `Some(Some(..))`
    /// for 1 and 2, and `None` for a number that stands for nothing.
    pub fn from_code(code: u8) -> (turn: Option<Option<Turn>>)
        ensures
            turn is Some <==> code <= 2,
            turn matches Some(t) ==> turn_code(t) == code,
    {
        if code == 0 {
            Some(None)
        } else if code == 1 {
            Some(Some(Turn::PlayerTurn))
        } else if code == 2 {
            Some(Some(Turn::OpponentTurn))
        } else {
            None
        }
    }
}

} // verus!
