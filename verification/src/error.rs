//! Why an operation was rejected.

use vstd::prelude::*;

verus! {

/// The reasons for which the engine rejects an operation. A rejected
/// operation leaves the game as it was.
#[derive(Clone, Copy, Debug, PartialEq, Eq, Structural)]
pub enum GameError {
    /// `start_game` was called while a game is in progress.
    GameAlreadyActive,
    /// The position is not one of the nine squares.
    InvalidPosition,
    /// No game is in progress.
    GameNotActive,
    /// The caller is not the player bound to the game.
    NotAuthorized,
    /// It is not the player's turn.
    OutOfTurn,
    /// The square already holds a mark.
    CellOccupied,
}

impl GameError {
    /// The text that a host reports for each rejection.
    pub open spec fn spec_message(self) -> Seq<char> {
        match self {
            GameError::GameAlreadyActive => "Game already in progress"@,
            GameError::InvalidPosition => "Invalid position"@,
            GameError::GameNotActive => "Game not in progress"@,
            GameError::NotAuthorized => "Not your game"@,
            GameError::OutOfTurn => "Not your turn"@,
            GameError::CellOccupied => "Position already taken"@,
        }
    }

    /// The text that a host reports for this rejection.
    pub fn message(self) -> (text: &'static str)
        ensures
            text@ == self.spec_message(),
    {
        match self {
            GameError::GameAlreadyActive => "Game already in progress",
            GameError::InvalidPosition => "Invalid position",
            GameError::GameNotActive => "Game not in progress",
            GameError::NotAuthorized => "Not your game",
            GameError::OutOfTurn => "Not your turn",
            GameError::CellOccupied => "Position already taken",
        }
    }
}

} // verus!
