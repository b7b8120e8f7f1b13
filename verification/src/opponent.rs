//! Which square the opponent takes.
//!
//! The opponent looks one move ahead and no further. It takes the first of:
//! a square that wins at once; a square with which the player would win at
//! once; the centre; a corner; any square. Within each rule the squares are
//! tried in a fixed order, so the same board always gets the same answer.

use vstd::prelude::*;
use crate::cell::Cell;
use crate::rules::{has_winner, is_full};

verus! {

/// The square at `pos` is empty, and the board is won once `mark` stands
/// there.
pub open spec fn wins_at(board: Seq<Cell>, pos: int, mark: Cell) -> bool {
    board[pos] == Cell::Empty && has_winner(board.update(pos, mark))
}

/// The first square from `from` on, in ascending order, at which `mark`
/// wins at once.
pub open spec fn winning_move_from(board: Seq<Cell>, mark: Cell, from: int) -> Option<int>
    decreases board.len() - from,
{
    if from < 0 || from >= board.len() {
        None
    } else if wins_at(board, from, mark) {
        Some(from)
    } else {
        winning_move_from(board, mark, from + 1)
    }
}

/// The first square of the board at which `mark` wins at once.
pub open spec fn winning_move(board: Seq<Cell>, mark: Cell) -> Option<int> {
    winning_move_from(board, mark, 0)
}

/// The corners, in the order in which the opponent tries them.
pub open spec fn corners() -> Seq<int> {
    seq![0int, 2int, 6int, 8int]
}

/// Every square, in ascending order.
pub open spec fn all_squares() -> Seq<int> {
    Seq::new(9, |i: int| i)
}

/// The first empty square among `order[from..]`.
pub open spec fn first_empty_in(board: Seq<Cell>, order: Seq<int>, from: int) -> Option<int>
    decreases order.len() - from,
{
    if from < 0 || from >= order.len() {
        None
    } else if board[order[from]] == Cell::Empty {
        Some(order[from])
    } else {
        first_empty_in(board, order, from + 1)
    }
}

/// The square that the opponent takes on `board`: `None` only where no
/// square is left.
pub open spec fn reply(board: Seq<Cell>) -> Option<int> {
    if winning_move(board, Cell::OpponentMark) is Some {
        winning_move(board, Cell::OpponentMark)
    } else if winning_move(board, Cell::PlayerMark) is Some {
        winning_move(board, Cell::PlayerMark)
    } else if board[4] == Cell::Empty {
        Some(4)
    } else if first_empty_in(board, corners(), 0) is Some {
        first_empty_in(board, corners(), 0)
    } else {
        first_empty_in(board, all_squares(), 0)
    }
}

/// What `winning_move_from` finds is the least square from `from` on at
/// which `mark` wins, and it finds none only where there is none.
pub proof fn lemma_winning_move_is_least(board: Seq<Cell>, mark: Cell, from: int)
    requires
        0 <= from,
    ensures
        match winning_move_from(board, mark, from) {
            Some(p) => from <= p < board.len() && wins_at(board, p, mark)
                && forall|q: int| from <= q < p ==> !wins_at(board, q, mark),
            None => forall|q: int| from <= q < board.len() ==> !wins_at(board, q, mark),
        },
    decreases board.len() - from,
{
    if from < board.len() && !wins_at(board, from, mark) {
        lemma_winning_move_is_least(board, mark, from + 1);
    }
}

/// What `first_empty_in` finds is the first empty square of `order[from..]`,
/// and it finds none only where none of them is empty.
pub proof fn lemma_first_empty_is_first(board: Seq<Cell>, order: Seq<int>, from: int)
    requires
        0 <= from,
    ensures
        match first_empty_in(board, order, from) {
            Some(p) => exists|k: int|
                from <= k < order.len() && #[trigger] order[k] == p && board[p] == Cell::Empty
                    && forall|j: int| from <= j < k ==> board[#[trigger] order[j]] != Cell::Empty,
            None => forall|j: int|
                from <= j < order.len() ==> board[#[trigger] order[j]] != Cell::Empty,
        },
    decreases order.len() - from,
{
    if from < order.len() {
        if board[order[from]] == Cell::Empty {
            assert(order[from] == first_empty_in(board, order, from)->0);
        } else {
            lemma_first_empty_is_first(board, order, from + 1);
            if let Some(p) = first_empty_in(board, order, from + 1) {
                let k = choose|k: int|
                    from + 1 <= k < order.len() && #[trigger] order[k] == p && board[p]
                        == Cell::Empty && forall|j: int|
                        from + 1 <= j < k ==> board[#[trigger] order[j]] != Cell::Empty;
                assert(order[k] == p);
            }
        }
    }
}

/// On a board of nine squares the opponent always has an answer while a
/// square is left, the answer is an empty square of the board, and there is
/// no answer once the board is full.
pub proof fn lemma_reply_is_empty_square(board: Seq<Cell>)
    requires
        board.len() == 9,
    ensures
        reply(board) is None <==> is_full(board),
        reply(board) matches Some(p) ==> 0 <= p < 9 && board[p] == Cell::Empty,
{
    lemma_winning_move_is_least(board, Cell::OpponentMark, 0);
    lemma_winning_move_is_least(board, Cell::PlayerMark, 0);
    lemma_first_empty_is_first(board, corners(), 0);
    lemma_first_empty_is_first(board, all_squares(), 0);
    if is_full(board) {
        assert(reply(board) is None);
    } else {
        let i = choose|i: int| 0 <= i < board.len() && board[i] == Cell::Empty;
        assert(all_squares()[i] == i);
        assert(reply(board) is Some);
    }
    if let Some(p) = reply(board) {
        assert(0 <= p < 9 && board[p] == Cell::Empty);
    }
}

} // verus!
