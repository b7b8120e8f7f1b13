//! The engine: one owned game and the operations on it.

use vstd::prelude::*;
use crate::cell::Cell;
use crate::error::GameError;
use crate::event::{Event, Winner};
use crate::game::{
    ending_events, move_events, move_rejection, moved, placed, replied, reply_events,
    start_rejection, started, GameState,
};
use crate::identity::{lemma_identity_by_view, Identity};
use crate::opponent::{
    all_squares, corners, first_empty_in, lemma_reply_is_empty_square, reply, winning_move,
    winning_move_from,
};
use crate::rules::{empty_board, has_winner, is_full, line_won, BOARD_SIZE};
use crate::status::{turn_code, GameStatus, Turn};

verus! {

/// One game of tic-tac-toe between a player and the engine's own opponent.
///
/// A value of this type is the whole state of the engine. A host that keeps
/// the state elsewhere between calls writes it out with `get_game_state` and
/// reads it back with `from_game_state`.
#[derive(Clone, Debug)]
pub struct Contract {
    board: [Cell; 9],
    player: Identity,
    current_turn: Option<Turn>,
    game_status: GameStatus,
}

/// The numbers that stand for the squares of a board, square by square.
pub open spec fn board_codes(board: Seq<Cell>) -> Seq<u8> {
    Seq::new(board.len(), |i: int| board[i].spec_code())
}

/// The number that four bytes spell, the first byte weighing most.
pub open spec fn interface_id(bytes: Seq<u8>) -> int {
    bytes[0] * 0x100_0000 + bytes[1] * 0x1_0000 + bytes[2] * 0x100 + bytes[3]
}

/// The identifier of the one interface that the engine answers for: the
/// interface of asking which interfaces are supported.
pub const INTERFACE_DETECTION: u32 = 0x01ff_c9a7;

impl View for Contract {
    type V = GameState;

    closed spec fn view(&self) -> GameState {
        GameState {
            board: self.board@,
            player: self.player,
            turn: self.current_turn,
            status: self.game_status,
        }
    }
}

impl Contract {
    /// An engine on which no game has been started yet.
    pub fn new() -> (fresh: Contract)
        ensures
            fresh@.board == empty_board(),
            fresh@.player@ == Seq::new(20, |i: int| 0u8),
            fresh@.turn is None,
            fresh@.status == GameStatus::NotStarted,
    {
        let fresh = Contract {
            board: [Cell::Empty; 9],
            player: Identity::house(),
            current_turn: None,
            game_status: GameStatus::NotStarted,
        };
        assert(fresh.board@ =~= empty_board());
        fresh
    }

    /// Whether `board` is won: whether one of its eight lines holds three
    /// equal marks. The board may be the game's own or one that is only
    /// being considered.
    pub fn would_win(&self, board: &[Cell; 9]) -> (won: bool)
        ensures
            won == has_winner(board@),
    {
        let mut i: usize = 0;
        while i < BOARD_SIZE
            invariant
                i == 0 || i == 3 || i == 6 || i == 9,
                i >= 3 ==> !line_won(board@, 0, 1, 2),
                i >= 6 ==> !line_won(board@, 3, 4, 5),
                i >= 9 ==> !line_won(board@, 6, 7, 8),
            decreases 9 - i,
        {
            if board[i] != Cell::Empty && board[i] == board[i + 1] && board[i] == board[i + 2] {
                return true;
            }
            i += 3;
        }
        let mut j: usize = 0;
        while j < 3
            invariant
                j <= 3,
                !line_won(board@, 0, 1, 2),
                !line_won(board@, 3, 4, 5),
                !line_won(board@, 6, 7, 8),
                j >= 1 ==> !line_won(board@, 0, 3, 6),
                j >= 2 ==> !line_won(board@, 1, 4, 7),
                j >= 3 ==> !line_won(board@, 2, 5, 8),
            decreases 3 - j,
        {
            if board[j] != Cell::Empty && board[j] == board[j + 3] && board[j] == board[j + 6] {
                return true;
            }
            j += 1;
        }
        if board[0] != Cell::Empty && board[0] == board[4] && board[0] == board[8] {
            return true;
        }
        if board[2] != Cell::Empty && board[2] == board[4] && board[2] == board[6] {
            return true;
        }
        false
    }

    /// Whether the game's board is won.
    pub fn check_winner(&self) -> (won: bool)
        ensures
            won == has_winner(self@.board),
    {
        self.would_win(&self.board)
    }

    /// Whether no square of the game's board is left.
    pub fn is_board_full(&self) -> (full: bool)
        ensures
            full == is_full(self@.board),
    {
        let mut i: usize = 0;
        while i < BOARD_SIZE
            invariant
                i <= 9,
                forall|k: int| 0 <= k < i ==> self.board@[k] != Cell::Empty,
            decreases 9 - i,
        {
            if self.board[i] == Cell::Empty {
                return false;
            }
            i += 1;
        }
        true
    }

    /// The first square, in ascending order, that is empty and on which
    /// `player`'s mark would win the game at once.
    pub fn find_winning_move(&self, player: Cell) -> (found: Option<usize>)
        ensures
            found matches Some(p) ==> winning_move(self@.board, player) == Some(p as int),
            found is None ==> winning_move(self@.board, player) is None,
    {
        let mut pos: usize = 0;
        while pos < BOARD_SIZE
            invariant
                pos <= 9,
                winning_move(self.board@, player)
                    == winning_move_from(self.board@, player, pos as int),
            decreases 9 - pos,
        {
            if self.board[pos] == Cell::Empty {
                let mut board_copy: [Cell; 9] = self.board;
                board_copy[pos] = player;
                if self.would_win(&board_copy) {
                    return Some(pos);
                }
            }
            pos += 1;
        }
        None
    }

    /// The square that the opponent takes on the game's board: the first
    /// that one of its five rules yields, and `None` only where no square is
    /// left. The answer depends on the board alone.
    pub fn select_contract_move(&self) -> (chosen: Option<usize>)
        ensures
            chosen matches Some(p) ==> reply(self@.board) == Some(p as int),
            chosen is None ==> reply(self@.board) is None,
            chosen is None <==> is_full(self@.board),
            chosen matches Some(p) ==> p < 9 && self@.board[p as int] == Cell::Empty,
    {
        proof {
            lemma_reply_is_empty_square(self.board@);
        }
        if let Some(pos) = self.find_winning_move(Cell::OpponentMark) {
            return Some(pos);
        }
        if let Some(pos) = self.find_winning_move(Cell::PlayerMark) {
            return Some(pos);
        }
        if self.board[4] == Cell::Empty {
            return Some(4);
        }
        let corner_squares: [usize; 4] = [0, 2, 6, 8];
        let mut k: usize = 0;
        while k < 4
            invariant
                k <= 4,
                corner_squares@ =~= seq![0usize, 2usize, 6usize, 8usize],
                winning_move(self.board@, Cell::OpponentMark) is None,
                winning_move(self.board@, Cell::PlayerMark) is None,
                self.board@[4] != Cell::Empty,
                first_empty_in(self.board@, corners(), 0)
                    == first_empty_in(self.board@, corners(), k as int),
            decreases 4 - k,
        {
            let corner: usize = corner_squares[k];
            if self.board[corner] == Cell::Empty {
                return Some(corner);
            }
            k += 1;
        }
        let mut i: usize = 0;
        while i < BOARD_SIZE
            invariant
                i <= 9,
                winning_move(self.board@, Cell::OpponentMark) is None,
                winning_move(self.board@, Cell::PlayerMark) is None,
                self.board@[4] != Cell::Empty,
                first_empty_in(self.board@, corners(), 0) is None,
                first_empty_in(self.board@, all_squares(), 0)
                    == first_empty_in(self.board@, all_squares(), i as int),
            decreases 9 - i,
        {
            if self.board[i] == Cell::Empty {
                return Some(i);
            }
            i += 1;
        }
        None
    }

    /// Places the opponent's mark at `position`, announces it, and settles
    /// the game: finished where the board is now won or full, the player's
    /// turn where it is not.
    fn make_contract_move_at(&mut self, position: usize, events: &mut Vec<Event>)
        requires
            position < 9,
        ensures
            final(self)@
                == placed(old(self)@, position as int, Cell::OpponentMark, Turn::PlayerTurn),
            final(events)@ == old(events)@
                + seq![Event::ContractMove { position: position as u64 }]
                + ending_events(final(self)@.board, Winner::House),
    {
        self.board[position] = Cell::OpponentMark;
        events.push(Event::ContractMove { position: position as u64 });
        if self.check_winner() {
            self.game_status = GameStatus::Finished;
            events.push(Event::GameWon { winner: Winner::House });
        } else if self.is_board_full() {
            self.game_status = GameStatus::Finished;
            events.push(Event::GameDrawn);
        } else {
            self.current_turn = Some(Turn::PlayerTurn);
        }
    }

    /// Lets the opponent answer: it takes the square that
    /// `select_contract_move` yields. Where no square is left nothing
    /// happens.
    fn make_contract_move(&mut self, events: &mut Vec<Event>)
        ensures
            final(self)@ == replied(old(self)@),
            final(events)@ == old(events)@ + reply_events(old(self)@),
    {
        match self.select_contract_move() {
            Some(position) => {
                self.make_contract_move_at(position, events);
            },
            None => {},
        }
    }

    /// Starts a game for `caller`, unless one is in progress: the board is
    /// cleared, the game is bound to `caller`, and the player moves first.
    /// Whatever an earlier game left behind is discarded.
    pub fn start_game(&mut self, caller: Identity) -> (result: Result<Vec<Event>, GameError>)
        ensures
            match start_rejection(old(self)@) {
                Some(error) => {
                    &&& result == Err::<Vec<Event>, GameError>(error)
                    &&& final(self)@ == old(self)@
                },
                None => {
                    &&& result matches Ok(events)
                        && events@ == seq![Event::GameStarted { player: caller }]
                    &&& final(self)@ == started(caller)
                },
            },
    {
        if self.game_status == GameStatus::InProgress {
            return Err(GameError::GameAlreadyActive);
        }
        let mut i: usize = 0;
        while i < BOARD_SIZE
            invariant
                i <= 9,
                forall|k: int| 0 <= k < i ==> self.board@[k] == Cell::Empty,
            decreases 9 - i,
        {
            self.board[i] = Cell::Empty;
            i += 1;
        }
        self.player = caller;
        self.current_turn = Some(Turn::PlayerTurn);
        self.game_status = GameStatus::InProgress;
        assert(self.board@ =~= empty_board());
        let mut events: Vec<Event> = Vec::new();
        events.push(Event::GameStarted { player: caller });
        Ok(events)
    }

    /// Plays the player's mark at `position` and, unless that ends the
    /// game, the opponent's answer.
    ///
    /// The move is rejected, and nothing changes, where `position` is not on
    /// the board, no game is in progress, `caller` is not the bound player,
    /// it is not the player's turn, or the square is taken: the first of
    /// these that holds gives the error.
    pub fn make_move(&mut self, caller: Identity, position: u64) -> (result: Result<Vec<Event>, GameError>)
        ensures
            match move_rejection(old(self)@, caller, position as int) {
                Some(error) => {
                    &&& result == Err::<Vec<Event>, GameError>(error)
                    &&& final(self)@ == old(self)@
                },
                None => {
                    &&& result matches Ok(events)
                        && events@ == move_events(old(self)@, position as int)
                    &&& final(self)@ == moved(old(self)@, position as int)
                },
            },
    {
        if position >= 9 {
            return Err(GameError::InvalidPosition);
        }
        let pos: usize = position as usize;
        if self.game_status != GameStatus::InProgress {
            return Err(GameError::GameNotActive);
        }
        if caller != self.player {
            return Err(GameError::NotAuthorized);
        }
        match self.current_turn {
            Some(Turn::PlayerTurn) => {},
            _ => {
                return Err(GameError::OutOfTurn);
            },
        }
        if self.board[pos] != Cell::Empty {
            return Err(GameError::CellOccupied);
        }
        let mut events: Vec<Event> = Vec::new();
        self.board[pos] = Cell::PlayerMark;
        events.push(Event::PlayerMove { position });

        if self.check_winner() {
            self.game_status = GameStatus::Finished;
            events.push(Event::GameWon { winner: Winner::Player(caller) });
            proof {
                lemma_identity_by_view(caller, self.player);
            }
            return Ok(events);
        }
        if self.is_board_full() {
            self.game_status = GameStatus::Finished;
            events.push(Event::GameDrawn);
            return Ok(events);
        }
        self.current_turn = Some(Turn::OpponentTurn);
        self.make_contract_move(&mut events);
        Ok(events)
    }

    /// Puts the engine into the state before any game: not started. The
    /// board, the player and the turn stay as they are; `start_game` resets
    /// them.
    pub fn constructor(&mut self)
        ensures
            final(self)@ == (GameState { status: GameStatus::NotStarted, ..old(self)@ }),
    {
        self.game_status = GameStatus::NotStarted;
    }

    /// Whether the engine supports the interface with the given four-byte
    /// identifier. It supports interface detection and nothing else.
    pub fn supports_interface(&self, interface: [u8; 4]) -> (supported: bool)
        ensures
            supported == (interface_id(interface@) == INTERFACE_DETECTION),
    {
        let first: u32 = interface[0] as u32;
        let second: u32 = interface[1] as u32;
        let third: u32 = interface[2] as u32;
        let fourth: u32 = interface[3] as u32;
        let id: u32 = first * 0x100_0000 + second * 0x1_0000 + third * 0x100 + fourth;
        id == INTERFACE_DETECTION
    }

    /// The whole state as numbers: the nine squares (0 empty, 1 player, 2
    /// opponent), the bound player, the turn (1 player, 2 opponent, 0 none
    /// yet) and the status (0 not started, 1 in progress, 2 finished). It
    /// can be asked in any state.
    pub fn get_game_state(&self) -> (state: ([u8; 9], Identity, u8, u8))
        ensures
            state.0@ == board_codes(self@.board),
            state.1 == self@.player,
            state.2 == turn_code(self@.turn),
            state.3 == self@.status.spec_code(),
    {
        let mut board: [u8; 9] = [0u8; 9];
        let mut i: usize = 0;
        while i < BOARD_SIZE
            invariant
                i <= 9,
                forall|k: int| 0 <= k < i ==> board@[k] == self.board@[k].spec_code(),
            decreases 9 - i,
        {
            board[i] = self.board[i].code();
            i += 1;
        }
        assert(board@ =~= board_codes(self.board@));
        (board, self.player, Turn::code(self.current_turn), self.game_status.code())
    }

    /// The engine in the state that the numbers spell, as `get_game_state`
    /// writes them; `None` where one of them stands for nothing.
    pub fn from_game_state(board: [u8; 9], player: Identity, turn: u8, status: u8) -> (game: Option<Contract>)
        ensures
            game is Some <==> {
                &&& turn <= 2
                &&& status <= 2
                &&& forall|i: int| 0 <= i < 9 ==> board@[i] <= 2
            },
            game matches Some(g) ==> {
                &&& board_codes(g@.board) == board@
                &&& g@.player == player
                &&& turn_code(g@.turn) == turn
                &&& g@.status.spec_code() == status
            },
    {
        let mut cells: [Cell; 9] = [Cell::Empty; 9];
        let mut i: usize = 0;
        while i < BOARD_SIZE
            invariant
                i <= 9,
                forall|k: int| 0 <= k < i ==> cells@[k].spec_code() == board@[k],
            decreases 9 - i,
        {
            match Cell::from_code(board[i]) {
                Some(cell) => {
                    cells[i] = cell;
                },
                None => {
                    return None;
                },
            }
            i += 1;
        }
        let current_turn: Option<Turn> = match Turn::from_code(turn) {
            Some(t) => t,
            None => {
                return None;
            },
        };
        let game_status: GameStatus = match GameStatus::from_code(status) {
            Some(s) => s,
            None => {
                return None;
            },
        };
        assert(board_codes(cells@) =~= board@);
        Some(Contract { board: cells, player, current_turn, game_status })
    }

    /// The state of an engine is always one of the game's: what is proved of
    /// every well-formed state holds of it.
    pub proof fn lemma_state_is_well_formed(&self)
        ensures
            self@.well_formed(),
    {
    }
}

} // verus!
