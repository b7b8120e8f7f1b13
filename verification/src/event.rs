//! What the engine announces.

use vstd::prelude::*;
use crate::identity::Identity;

verus! {

/// Who won a game.
#[derive(Clone, Copy, Debug, PartialEq, Eq)]
pub enum Winner {
    /// The player bound to the game.
    Player(Identity),
    /// The opponent. A host announces it under `Identity::house()`.
    House,
}

/// A notification for the host to pass on. An operation returns the events
/// in the order in which they happened.
#[derive(Clone, Copy, Debug, PartialEq, Eq)]
pub enum Event {
    /// A game was started and bound to `player`.
    GameStarted { player: Identity },
    /// The player marked the square at `position`.
    PlayerMove { position: u64 },
    /// The opponent marked the square at `position`.
    ContractMove { position: u64 },
    /// The game ended with a winner.
    GameWon { winner: Winner },
    /// The game ended with a full board and no winner.
    GameDrawn,
}

} // verus!
