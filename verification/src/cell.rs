//! The marks that a square of the board can hold.

use vstd::prelude::*;

verus! {

/// What one of the nine squares holds.
#[derive(Clone, Copy, Debug, PartialEq, Eq, Structural)]
pub enum Cell {
    /// Nobody has played here.
    Empty,
    /// The player's mark.
    PlayerMark,
    /// The opponent's mark.
    OpponentMark,
}

impl Cell {
    /// The number that stands for a mark outside the engine:
    /// 0 for empty, 1 for the player, 2 for the opponent.
    pub open spec fn spec_code(self) -> u8 {
        match self {
            Cell::Empty => 0,
            Cell::PlayerMark => 1,
            Cell::OpponentMark => 2,
        }
    }

    /// The number that stands for this mark.
    #[verifier::when_used_as_spec(spec_code)]
    pub fn code(self) -> (code: u8)
        ensures
            code == self.spec_code(),
    {
        match self {
            Cell::Empty => 0,
            Cell::PlayerMark => 1,
            Cell::OpponentMark => 2,
        }
    }

    /// The mark that a number stands for, if it stands for one.
    pub fn from_code(code: u8) -> (cell: Option<Cell>)
        ensures
            cell is Some <==> code <= 2,
            cell matches Some(c) ==> c.spec_code() == code,
    {
        if code == 0 {
            Some(Cell::Empty)
        } else if code == 1 {
            Some(Cell::PlayerMark)
        } else if code == 2 {
            Some(Cell::OpponentMark)
        } else {
            None
        }
    }
}

} // verus!
