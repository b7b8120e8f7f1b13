//! When a board is won, and when it is full.
//!
//! A board is a sequence of nine squares, row by row: squares 0 to 2 are the
//! first row, 3 to 5 the second, 6 to 8 the third.

use vstd::prelude::*;
use crate::cell::Cell;

verus! {

/// The number of squares on the board.
pub const BOARD_SIZE: usize = 9;

/// The board on which nobody has played.
pub open spec fn empty_board() -> Seq<Cell> {
    Seq::new(9, |i: int| Cell::Empty)
}

/// The squares `i`, `j` and `k` hold the same mark, and it is not `Empty`.
pub open spec fn line_won(board: Seq<Cell>, i: int, j: int, k: int) -> bool {
    board[i] != Cell::Empty && board[i] == board[j] && board[i] == board[k]
}

/// One of the eight lines (three rows, three columns, two diagonals) holds
/// three equal marks.
pub open spec fn has_winner(board: Seq<Cell>) -> bool {
    ||| line_won(board, 0, 1, 2)
    ||| line_won(board, 3, 4, 5)
    ||| line_won(board, 6, 7, 8)
    ||| line_won(board, 0, 3, 6)
    ||| line_won(board, 1, 4, 7)
    ||| line_won(board, 2, 5, 8)
    ||| line_won(board, 0, 4, 8)
    ||| line_won(board, 2, 4, 6)
}

/// No square of the board is `Empty`.
pub open spec fn is_full(board: Seq<Cell>) -> bool {
    forall|i: int| 0 <= i < board.len() ==> board[i] != Cell::Empty
}

/// How a board stands once a mark has been placed on it.
pub enum Verdict {
    /// A line is complete: the game is won.
    Won,
    /// No line is complete and no square is left: the game is drawn.
    Drawn,
    /// The game goes on.
    Open,
}

/// The verdict on a board. A win is looked for first, so a full board with a
/// complete line is won, not drawn.
pub open spec fn verdict(board: Seq<Cell>) -> Verdict {
    if has_winner(board) {
        Verdict::Won
    } else if is_full(board) {
        Verdict::Drawn
    } else {
        Verdict::Open
    }
}

/// How many squares of the board hold `mark`.
pub open spec fn count_of(board: Seq<Cell>, mark: Cell) -> nat
    decreases board.len(),
{
    if board.len() == 0 {
        0
    } else {
        count_of(board.drop_last(), mark) + if board.last() == mark { 1nat } else { 0nat }
    }
}

/// How many squares of the board hold a mark.
pub open spec fn marks_on(board: Seq<Cell>) -> nat {
    count_of(board, Cell::PlayerMark) + count_of(board, Cell::OpponentMark)
}

/// Every square holds exactly one of the three marks.
pub proof fn lemma_counts_partition(board: Seq<Cell>)
    ensures
        count_of(board, Cell::Empty) + marks_on(board) == board.len(),
    decreases board.len(),
{
    if board.len() > 0 {
        lemma_counts_partition(board.drop_last());
    }
}

/// Writing `new` over the square at `pos` takes one from the count of the
/// mark that was there and adds one to the count of `new`.
pub proof fn lemma_count_update(board: Seq<Cell>, pos: int, new: Cell, mark: Cell)
    requires
        0 <= pos < board.len(),
    ensures
        count_of(board.update(pos, new), mark) + (if board[pos] == mark { 1int } else { 0int })
            == count_of(board, mark) + (if new == mark { 1int } else { 0int }),
    decreases board.len(),
{
    let after = board.update(pos, new);
    if pos == board.len() - 1 {
        assert(after.drop_last() =~= board.drop_last());
    } else {
        assert(after.drop_last() =~= board.drop_last().update(pos, new));
        lemma_count_update(board.drop_last(), pos, new, mark);
    }
}

} // verus!
