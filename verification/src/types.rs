//! The values that travel between a host and the game: who plays, how the
//! opponent plays, what a player asks for and what the game answers.

use vstd::prelude::*;

verus! {

/// One of the two sides of a game.
#[derive(Clone, Copy, Debug, PartialEq, Eq, Structural)]
pub enum Player {
    /// The human player, whose moves come from outside.
    User,
    /// The automated opponent, whose moves the game computes.
    Program,
}

/// How the automated opponent chooses its moves.
#[derive(Clone, Copy, Debug, PartialEq, Eq, Structural)]
pub enum DifficultyLevel {
    /// Any legal move, picked by a reading of the entropy source.
    Easy,
    /// The move of optimal play.
    Hard,
}

/// The parameters of a new game.
#[derive(Clone, Copy, Debug, PartialEq, Eq, Structural)]
pub struct GameConfig {
    /// Pebbles on the pile when the game starts.
    pub pebbles_count: u32,
    /// The most pebbles that one turn may remove.
    pub max_pebbles_per_turn: u32,
    /// How the automated opponent plays.
    pub difficulty: DifficultyLevel,
}

/// What a player may ask of a game that has been started.
#[derive(Clone, Copy, Debug, PartialEq, Eq, Structural)]
pub enum PlayerAction {
    /// Remove this many pebbles from the pile.
    Turn(u32),
    /// Give the game to the automated opponent.
    Concede,
    /// Throw the game away and start another with these parameters.
    Restart(GameConfig),
}

/// What the game answers to a turn.
#[derive(Clone, Copy, Debug, PartialEq, Eq, Structural)]
pub enum TurnOutcome {
    /// The automated opponent removed this many pebbles and the game goes on.
    CounterTurn(u32),
    /// The pile is empty, or the user conceded: this player has won.
    Won(Player),
}

/// Why a request was refused. A refused request changes nothing.
#[derive(Clone, Copy, Debug, PartialEq, Eq, Structural)]
pub enum GameError {
    /// The parameters of a game name an empty pile or a turn of no pebbles.
    InvalidConfiguration,
    /// The turn removes no pebble, more than one turn may, or more than are left.
    InvalidTurn,
    /// The entropy source gave no value where the game needed one.
    EntropyUnavailable,
    /// There is no game in progress: none was started, or it has been decided.
    Uninitialized,
}

impl GameConfig {
    /// Whether a game can be started from these parameters.
    pub open spec fn is_valid(self) -> bool {
        self.pebbles_count > 0 && self.max_pebbles_per_turn > 0
    }
}

/// The player who moves first, as one reading of the entropy source decides:
/// the user on an even value, the automated opponent on an odd one.
pub open spec fn first_player_for(draw: u32) -> Player {
    if draw % 2 == 0 {
        Player::User
    } else {
        Player::Program
    }
}

} // verus!
