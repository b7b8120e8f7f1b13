//! A verified engine for single-player tic-tac-toe against a rule-based
//! opponent.
//!
//! The engine is a state machine over one owned game: a host binds a player
//! with `start_game`, feeds it moves with `make_move`, and reads the outcome
//! with `get_game_state`. Who is calling, where the state is kept between
//! calls and who hears of the events are the host's business; the engine
//! takes and returns plain values.

pub mod cell;
pub mod contract;
pub mod error;
pub mod event;
pub mod game;
pub mod identity;
pub mod laws;
pub mod opponent;
pub mod rules;
pub mod status;
pub mod word;

pub use cell::Cell;
pub use contract::Contract;
pub use error::GameError;
pub use event::{Event, Winner};
pub use identity::Identity;
pub use status::{GameStatus, Turn};
