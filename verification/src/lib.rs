//! A two-player pebble-subtraction game between a human player and an
//! automated opponent: the rules, the opponent's strategy, the state of a
//! game and the engine that a host drives with the player's requests.
//!
//! The players take turns to remove pebbles from one pile, at least one and
//! at most a fixed number a turn; whoever takes the last pebble wins.
//!
//! - [`strategy`] chooses the automated opponent's move.
//! - [`game`] holds one game and applies turns, concessions and restarts.
//! - [`engine`] owns at most one game and takes requests.
//! - [`types`] are the values that go in and come out.
//!
//! The library reads no entropy itself. A host draws from its own source and
//! passes each reading as an `Option<u32>`, `None` standing for a source that
//! failed; an operation fails with [`GameError::EntropyUnavailable`] only
//! where it needs a reading that is `None`.
//!
//! Every operation either succeeds or is refused as a whole: a refused
//! request leaves the game as it was. Once a game is decided it accepts
//! neither turns nor concessions, which are refused with
//! [`GameError::Uninitialized`]; only a restart puts a new game in its place.

pub mod engine;
pub mod game;
pub mod strategy;
pub mod types;

pub use engine::{GameEngine, Request};
pub use game::GameState;
pub use types::{DifficultyLevel, GameConfig, GameError, Player, PlayerAction, TurnOutcome};
