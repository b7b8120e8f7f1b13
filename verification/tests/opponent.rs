use tictactoe::{Cell, Contract, Identity};

fn player() -> Identity {
    Identity { bytes: [7; 20] }
}

/// A game in progress with this board, the opponent to move.
fn facing(board: [u8; 9]) -> Contract {
    Contract::from_game_state(board, player(), 2, 1).expect("a game state")
}

fn cells(board: [u8; 9]) -> [Cell; 9] {
    board.map(|code| Cell::from_code(code).expect("a mark"))
}

#[test]
fn immediate_block() {
    assert_eq!(facing([1, 1, 0, 0, 0, 0, 0, 0, 0]).select_contract_move(), Some(2));
}

#[test]
fn win_goes_before_block() {
    // The player threatens at 2, the opponent can win at 5.
    assert_eq!(facing([1, 1, 0, 2, 2, 0, 0, 0, 0]).select_contract_move(), Some(5));
}

#[test]
fn first_of_two_wins_is_taken() {
    // The opponent wins at 2 (row) and at 6 (column).
    assert_eq!(facing([2, 2, 0, 2, 1, 1, 0, 1, 0]).select_contract_move(), Some(2));
}

#[test]
fn first_of_two_threats_is_blocked() {
    // The player threatens at 2 (row) and at 6 (column).
    assert_eq!(facing([1, 1, 0, 1, 2, 0, 0, 0, 0]).select_contract_move(), Some(2));
    assert_eq!(facing([1, 1, 2, 1, 2, 0, 0, 0, 0]).select_contract_move(), Some(6));
}

#[test]
fn block_goes_before_centre() {
    assert_eq!(facing([1, 0, 0, 0, 0, 0, 0, 0, 1]).select_contract_move(), Some(4));
    assert_eq!(facing([0, 0, 0, 1, 0, 1, 0, 0, 0]).select_contract_move(), Some(4));
    assert_eq!(facing([1, 0, 1, 0, 0, 0, 0, 0, 0]).select_contract_move(), Some(1));
}

#[test]
fn centre_goes_before_corner() {
    assert_eq!(facing([0; 9]).select_contract_move(), Some(4));
    assert_eq!(facing([1, 0, 0, 0, 0, 0, 0, 0, 0]).select_contract_move(), Some(4));
}

#[test]
fn corners_are_tried_in_order() {
    assert_eq!(facing([0, 0, 0, 0, 1, 0, 0, 0, 0]).select_contract_move(), Some(0));
    assert_eq!(facing([2, 0, 0, 0, 1, 0, 0, 0, 1]).select_contract_move(), Some(2));
    assert_eq!(facing([1, 0, 2, 0, 2, 0, 0, 0, 1]).select_contract_move(), Some(6));
    assert_eq!(facing([1, 2, 1, 0, 2, 0, 2, 1, 0]).select_contract_move(), Some(8));
}

#[test]
fn any_square_is_taken_when_centre_and_corners_are_gone() {
    assert_eq!(facing([1, 0, 2, 0, 2, 0, 1, 0, 1]).select_contract_move(), Some(3));
    assert_eq!(facing([1, 2, 1, 0, 2, 0, 2, 1, 2]).select_contract_move(), Some(3));
    assert_eq!(facing([1, 2, 1, 1, 2, 0, 2, 1, 2]).select_contract_move(), Some(5));
    assert_eq!(facing([2, 0, 1, 1, 1, 2, 2, 0, 1]).select_contract_move(), Some(1));
    assert_eq!(facing([2, 1, 1, 1, 1, 2, 2, 0, 1]).select_contract_move(), Some(7));
}

#[test]
fn full_board_has_no_answer() {
    assert_eq!(facing([1, 2, 1, 1, 2, 2, 2, 1, 1]).select_contract_move(), None);
}

#[test]
fn forks_are_not_seen() {
    // The player holds two opposite corners; a side square would be needed.
    assert_eq!(facing([1, 0, 0, 0, 2, 0, 0, 0, 1]).select_contract_move(), Some(2));
}

#[test]
fn same_board_same_answer() {
    let boards: [[u8; 9]; 6] = [
        [0; 9],
        [1, 1, 0, 0, 0, 0, 0, 0, 0],
        [1, 0, 2, 0, 2, 0, 1, 0, 1],
        [0, 0, 0, 0, 1, 0, 0, 0, 0],
        [1, 1, 0, 2, 2, 0, 0, 0, 0],
        [1, 2, 1, 1, 2, 2, 2, 1, 1],
    ];
    for board in boards {
        let first = facing(board).select_contract_move();
        for _ in 0..5 {
            assert_eq!(facing(board).select_contract_move(), first);
        }
        // Neither the player, nor the turn, nor the status has a say.
        for (who, turn, status) in [([0u8; 20], 0u8, 0u8), ([9; 20], 1, 1), ([255; 20], 2, 2)] {
            let other = Contract::from_game_state(board, Identity { bytes: who }, turn, status)
                .expect("a game state");
            assert_eq!(other.select_contract_move(), first);
        }
    }
}

#[test]
fn find_winning_move_scans_upwards() {
    let game = facing([1, 1, 0, 2, 2, 0, 0, 0, 0]);
    assert_eq!(game.find_winning_move(Cell::PlayerMark), Some(2));
    assert_eq!(game.find_winning_move(Cell::OpponentMark), Some(5));
    let quiet = facing([1, 0, 0, 0, 2, 0, 0, 0, 0]);
    assert_eq!(quiet.find_winning_move(Cell::PlayerMark), None);
    assert_eq!(quiet.find_winning_move(Cell::OpponentMark), None);
    let two = facing([1, 0, 1, 0, 1, 0, 0, 0, 0]);
    assert_eq!(two.find_winning_move(Cell::PlayerMark), Some(1));
}

#[test]
fn find_winning_move_skips_taken_squares() {
    // Square 2 would complete the row, but the opponent stands there.
    let game = facing([1, 1, 2, 0, 0, 0, 0, 0, 0]);
    assert_eq!(game.find_winning_move(Cell::PlayerMark), None);
}

#[test]
fn find_winning_move_with_no_mark_to_place() {
    // Placing nothing wins nothing on a board that is not won,
    // and on a won board the first empty square is reported.
    assert_eq!(facing([1, 1, 0, 0, 0, 0, 0, 0, 0]).find_winning_move(Cell::Empty), None);
    assert_eq!(facing([1, 1, 1, 0, 0, 0, 0, 0, 0]).find_winning_move(Cell::Empty), Some(3));
}

#[test]
fn would_win_knows_the_eight_lines() {
    let game = Contract::new();
    let lines: [[usize; 3]; 8] = [
        [0, 1, 2],
        [3, 4, 5],
        [6, 7, 8],
        [0, 3, 6],
        [1, 4, 7],
        [2, 5, 8],
        [0, 4, 8],
        [2, 4, 6],
    ];
    for mark in [1u8, 2] {
        for line in lines {
            let mut board = [0u8; 9];
            for square in line {
                board[square] = mark;
            }
            assert!(game.would_win(&cells(board)));
            for square in line {
                let mut broken = board;
                broken[square] = 0;
                assert!(!game.would_win(&cells(broken)));
                broken[square] = 3 - mark;
                assert!(!game.would_win(&cells(broken)));
            }
        }
    }
}

#[test]
fn would_win_needs_three_on_a_line() {
    let game = Contract::new();
    assert!(!game.would_win(&cells([0; 9])));
    assert!(!game.would_win(&cells([1, 2, 1, 1, 2, 2, 2, 1, 1])));
    // Three in a run that wraps over the edge of a row is no line.
    assert!(!game.would_win(&cells([0, 1, 1, 1, 0, 0, 0, 0, 0])));
    assert!(!game.would_win(&cells([0, 0, 1, 0, 0, 1, 1, 0, 0])));
}

#[test]
fn would_win_looks_at_the_board_it_is_given() {
    let won = Contract::from_game_state([1, 1, 1, 0, 0, 0, 0, 0, 0], player(), 1, 2)
        .expect("a game state");
    assert!(won.check_winner());
    assert!(!won.would_win(&cells([0; 9])));
}

#[test]
fn check_winner_and_is_board_full_are_independent() {
    let open = facing([1, 0, 0, 0, 2, 0, 0, 0, 0]);
    assert!(!open.check_winner());
    assert!(!open.is_board_full());
    let won = facing([1, 1, 1, 2, 2, 0, 0, 0, 0]);
    assert!(won.check_winner());
    assert!(!won.is_board_full());
    let drawn = facing([1, 2, 1, 1, 2, 2, 2, 1, 1]);
    assert!(!drawn.check_winner());
    assert!(drawn.is_board_full());
    let both = facing([1, 1, 1, 2, 2, 1, 1, 2, 2]);
    assert!(both.check_winner());
    assert!(both.is_board_full());
    let last = facing([1, 2, 1, 1, 2, 2, 2, 1, 0]);
    assert!(!last.is_board_full());
}
