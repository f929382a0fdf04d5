//! The state of one game and the operations that change it.
//!
//! [`GameModel`] is the game as the rules see it, with unbounded numbers, and
//! its spec functions are the rules. [`GameState`] is the value a host holds;
//! its view is a `GameModel`, and every operation states which model it leaves
//! behind. A `GameState` can only be made by the operations of this module, so
//! the view of every one of them is well formed.
//!
//! The entropy source is the host's. The values it gave travel into the
//! operations as `Option<u32>`: `Some` with a value that was drawn, `None`
//! where the source failed. An operation looks at a reading only where the
//! rules need one and fails with `EntropyUnavailable` only then.

use crate::strategy::{
    chosen_move, is_legal_move, is_losing_position, lemma_losing_position_is_left,
    lemma_random_move, lemma_winning_move, select,
};
use crate::types::{
    first_player_for, DifficultyLevel, GameConfig, GameError, Player, TurnOutcome,
};
use vstd::prelude::*;

verus! {

/// The game as the rules see it.
pub struct GameModel {
    /// Pebbles on the pile when the game started.
    pub pebbles_count: nat,
    /// The most pebbles that one turn may remove.
    pub max_pebbles_per_turn: nat,
    /// Pebbles on the pile now.
    pub pebbles_remaining: nat,
    /// How the automated opponent plays.
    pub difficulty: DifficultyLevel,
    /// Who moved first.
    pub first_player: Player,
    /// Who has won, once the game is decided.
    pub winner: Option<Player>,
}

impl GameModel {
    /// What holds of every game: the parameters are positive and fit the
    /// state's 32-bit fields, the pile never holds more than it started with,
    /// and a game whose pile is empty has a winner.
    pub open spec fn well_formed(self) -> bool {
        &&& 0 < self.pebbles_count <= u32::MAX
        &&& 0 < self.max_pebbles_per_turn <= u32::MAX
        &&& self.pebbles_remaining <= self.pebbles_count
        &&& self.winner is None ==> self.pebbles_remaining > 0
    }

    /// Whether the game is still to be decided.
    pub open spec fn in_progress(self) -> bool {
        self.winner is None
    }

    /// The game that `config` describes before anyone has moved.
    pub open spec fn fresh(config: GameConfig, first_player: Player) -> GameModel {
        GameModel {
            pebbles_count: config.pebbles_count as nat,
            max_pebbles_per_turn: config.max_pebbles_per_turn as nat,
            pebbles_remaining: config.pebbles_count as nat,
            difficulty: config.difficulty,
            first_player,
            winner: None,
        }
    }

    /// Whether two games were started from the same parameters with the same
    /// player to move first.
    pub open spec fn same_parameters(self, other: GameModel) -> bool {
        &&& self.pebbles_count == other.pebbles_count
        &&& self.max_pebbles_per_turn == other.max_pebbles_per_turn
        &&& self.difficulty == other.difficulty
        &&& self.first_player == other.first_player
    }

    /// Whether the game is lost for the user: the automated opponent plays
    /// the hard level, the user has not won, and the pile from which the user
    /// is to move is a losing position.
    pub open spec fn lost_for_user(self) -> bool {
        &&& self.difficulty is Hard
        &&& self.winner != Some(Player::User)
        &&& is_losing_position(self.pebbles_remaining, self.max_pebbles_per_turn)
    }

    /// Whether the user may remove `pebbles` now.
    pub open spec fn legal_turn(self, pebbles: nat) -> bool {
        is_legal_move(self.pebbles_remaining, self.max_pebbles_per_turn, pebbles)
    }

    /// The game after `player` has removed `pebbles`: whoever empties the pile
    /// has won.
    pub open spec fn take(self, pebbles: nat, player: Player) -> GameModel {
        GameModel {
            pebbles_remaining: (self.pebbles_remaining - pebbles) as nat,
            winner: if pebbles == self.pebbles_remaining {
                Some(player)
            } else {
                self.winner
            },
            ..self
        }
    }

    /// Whether the automated opponent cannot move for want of entropy: it
    /// plays the easy level and the source gave nothing.
    pub open spec fn lacks_entropy(self, draw: Option<u32>) -> bool {
        self.difficulty is Easy && draw is None
    }

    /// The number of pebbles that the automated opponent removes now, given
    /// the reading `draw` of the entropy source.
    pub open spec fn program_move(self, draw: Option<u32>) -> nat {
        chosen_move(
            self.pebbles_remaining,
            self.max_pebbles_per_turn,
            self.difficulty,
            reading(draw),
        )
    }

    /// The game after the automated opponent has moved.
    pub open spec fn after_program_turn(self, draw: Option<u32>) -> GameModel {
        self.take(self.program_move(draw), Player::Program)
    }

    /// What the automated opponent's move is answered with: its win where it
    /// empties the pile, else the number of pebbles it removed.
    pub open spec fn program_outcome(self, draw: Option<u32>) -> TurnOutcome {
        if self.program_move(draw) == self.pebbles_remaining {
            TurnOutcome::Won(Player::Program)
        } else {
            TurnOutcome::CounterTurn(self.program_move(draw) as u32)
        }
    }

    /// Why the user's turn of `pebbles` is refused, if it is: the game is
    /// decided; or the move is against the rules; or the move leaves pebbles
    /// and the automated opponent cannot answer for want of entropy.
    pub open spec fn turn_error(self, pebbles: u32, draw: Option<u32>) -> Option<GameError> {
        if !self.in_progress() {
            Some(GameError::Uninitialized)
        } else if !self.legal_turn(pebbles as nat) {
            Some(GameError::InvalidTurn)
        } else if pebbles < self.pebbles_remaining && self.lacks_entropy(draw) {
            Some(GameError::EntropyUnavailable)
        } else {
            None
        }
    }

    /// The game after the user's turn of `pebbles`, with the automated
    /// opponent's answer where the user left any pebbles.
    pub open spec fn after_turn(self, pebbles: u32, draw: Option<u32>) -> GameModel {
        if pebbles == self.pebbles_remaining {
            self.take(pebbles as nat, Player::User)
        } else {
            self.take(pebbles as nat, Player::User).after_program_turn(draw)
        }
    }

    /// What the user's turn of `pebbles` is answered with.
    pub open spec fn turn_outcome(self, pebbles: u32, draw: Option<u32>) -> TurnOutcome {
        if pebbles == self.pebbles_remaining {
            TurnOutcome::Won(Player::User)
        } else {
            self.take(pebbles as nat, Player::User).program_outcome(draw)
        }
    }

    /// Why the user's concession is refused, if it is: the game is decided.
    pub open spec fn concede_error(self) -> Option<GameError> {
        if self.in_progress() {
            None
        } else {
            Some(GameError::Uninitialized)
        }
    }

    /// The game after the user has conceded.
    pub open spec fn after_concede(self) -> GameModel {
        GameModel { winner: Some(Player::Program), ..self }
    }

    /// Why no game starts from `config`, if none does: the parameters are
    /// invalid; or the source gave nothing to decide who moves first; or the
    /// automated opponent moves first and cannot for want of entropy.
    pub open spec fn start_error(
        config: GameConfig,
        first_draw: Option<u32>,
        move_draw: Option<u32>,
    ) -> Option<GameError> {
        if !config.is_valid() {
            Some(GameError::InvalidConfiguration)
        } else if first_draw is None {
            Some(GameError::EntropyUnavailable)
        } else if first_player_for(first_draw->0) is Program && config.difficulty is Easy
            && move_draw is None {
            Some(GameError::EntropyUnavailable)
        } else {
            None
        }
    }

    /// The game that starts from `config` when the source gave `first_draw`
    /// to decide who moves first: where that is the automated opponent, it
    /// has made its opening move.
    pub open spec fn started(config: GameConfig, first_draw: u32, move_draw: Option<u32>) -> GameModel {
        let first_player = first_player_for(first_draw);
        if first_player is Program {
            GameModel::fresh(config, first_player).after_program_turn(move_draw)
        } else {
            GameModel::fresh(config, first_player)
        }
    }

    /// What the start of a game is answered with: the outcome of the
    /// automated opponent's opening move, or nothing where the user moves
    /// first.
    pub open spec fn opening_outcome(
        config: GameConfig,
        first_draw: u32,
        move_draw: Option<u32>,
    ) -> Option<TurnOutcome> {
        let first_player = first_player_for(first_draw);
        if first_player is Program {
            Some(GameModel::fresh(config, first_player).program_outcome(move_draw))
        } else {
            None
        }
    }
}

/// The automated opponent's move is legal and leaves a well-formed game with
/// fewer pebbles, whatever the entropy source gave.
pub proof fn lemma_program_turn(game: GameModel, draw: Option<u32>)
    requires
        game.well_formed(),
        game.in_progress(),
    ensures
        game.legal_turn(game.program_move(draw)),
        game.after_program_turn(draw).well_formed(),
        game.after_program_turn(draw).pebbles_remaining < game.pebbles_remaining,
{
    match game.difficulty {
        DifficultyLevel::Easy => lemma_random_move(
            game.pebbles_remaining,
            game.max_pebbles_per_turn,
            reading(draw),
        ),
        DifficultyLevel::Hard => lemma_winning_move(
            game.pebbles_remaining,
            game.max_pebbles_per_turn,
        ),
    }
}

/// The user's turn, where it is accepted, leaves a well-formed game with
/// fewer pebbles and the same parameters: a turn never adds to the pile and
/// never takes more than it holds.
pub proof fn lemma_turn(game: GameModel, pebbles: u32, draw: Option<u32>)
    requires
        game.well_formed(),
        game.turn_error(pebbles, draw) is None,
    ensures
        game.after_turn(pebbles, draw).well_formed(),
        game.after_turn(pebbles, draw).pebbles_remaining < game.pebbles_remaining,
        game.after_turn(pebbles, draw).same_parameters(game),
{
    if pebbles < game.pebbles_remaining {
        lemma_program_turn(game.take(pebbles as nat, Player::User), draw);
    }
}

/// The game that starts from valid parameters is well formed. Where the user
/// moves first the pile is whole and nobody has won; where the automated
/// opponent moves first the pile is short of its opening move, and it has won
/// exactly where that move emptied the pile.
pub proof fn lemma_started(config: GameConfig, first_draw: u32, move_draw: Option<u32>)
    requires
        config.is_valid(),
    ensures
        GameModel::fresh(config, first_player_for(first_draw)).well_formed(),
        GameModel::fresh(config, first_player_for(first_draw)).pebbles_remaining
            == config.pebbles_count,
        GameModel::fresh(config, first_player_for(first_draw)).winner is None,
        GameModel::started(config, first_draw, move_draw).well_formed(),
        GameModel::started(config, first_draw, move_draw).same_parameters(
            GameModel::fresh(config, first_player_for(first_draw)),
        ),
        first_player_for(first_draw) is User ==> GameModel::started(config, first_draw, move_draw)
            == GameModel::fresh(config, Player::User),
        GameModel::started(config, first_draw, move_draw).winner is Some <==> first_player_for(
            first_draw,
        ) is Program && GameModel::started(config, first_draw, move_draw).pebbles_remaining == 0,
        GameModel::started(config, first_draw, move_draw).winner is Some ==> GameModel::started(
            config,
            first_draw,
            move_draw,
        ).winner == Some(Player::Program),
{
    if first_player_for(first_draw) is Program {
        lemma_program_turn(GameModel::fresh(config, Player::Program), move_draw);
    }
}

/// Against the hard level a game that is lost for the user stays lost: the
/// user's turn cannot empty the pile, and the automated opponent's answer
/// hands the user a losing position again, or wins.
pub proof fn lemma_turn_lost_for_user(game: GameModel, pebbles: u32, draw: Option<u32>)
    requires
        game.well_formed(),
        game.lost_for_user(),
        game.turn_error(pebbles, draw) is None,
    ensures
        pebbles < game.pebbles_remaining,
        game.after_turn(pebbles, draw).lost_for_user(),
        game.turn_outcome(pebbles, draw) != TurnOutcome::Won(Player::User),
{
    let left = game.take(pebbles as nat, Player::User);
    lemma_losing_position_is_left(
        game.pebbles_remaining,
        game.max_pebbles_per_turn,
        pebbles as nat,
    );
    assert(pebbles < game.pebbles_remaining) by {
        if pebbles == game.pebbles_remaining {
            assert(is_losing_position(0, game.max_pebbles_per_turn));
        }
    }
    lemma_winning_move(left.pebbles_remaining, left.max_pebbles_per_turn);
}

/// A game on the hard level is lost for the user from the start where the
/// user moves first from a losing position, and where the automated opponent
/// moves first from any other.
pub proof fn lemma_started_lost_for_user(config: GameConfig, first_draw: u32, move_draw: Option<u32>)
    requires
        config.is_valid(),
        config.difficulty is Hard,
        first_player_for(first_draw) is User <==> is_losing_position(
            config.pebbles_count as nat,
            config.max_pebbles_per_turn as nat,
        ),
    ensures
        GameModel::started(config, first_draw, move_draw).lost_for_user(),
{
    if first_player_for(first_draw) is Program {
        lemma_winning_move(config.pebbles_count as nat, config.max_pebbles_per_turn as nat);
    }
}

/// The number that a reading of the entropy source stands for. Where the
/// source gave nothing the hard level, which uses none, still moves.
pub open spec fn reading(draw: Option<u32>) -> nat {
    match draw {
        Some(value) => value as nat,
        None => 0,
    }
}

/// One game: its parameters, the pile and, once it is decided, the winner.
#[derive(Clone, Copy, Debug, PartialEq, Eq)]
pub struct GameState {
    pebbles_count: u32,
    max_pebbles_per_turn: u32,
    pebbles_remaining: u32,
    difficulty: DifficultyLevel,
    first_player: Player,
    winner: Option<Player>,
}

impl View for GameState {
    type V = GameModel;

    closed spec fn view(&self) -> GameModel {
        GameModel {
            pebbles_count: self.pebbles_count as nat,
            max_pebbles_per_turn: self.max_pebbles_per_turn as nat,
            pebbles_remaining: self.pebbles_remaining as nat,
            difficulty: self.difficulty,
            first_player: self.first_player,
            winner: self.winner,
        }
    }
}

impl GameState {
    #[verifier::type_invariant]
    spec fn consistent(self) -> bool {
        &&& self.pebbles_count > 0
        &&& self.max_pebbles_per_turn > 0
        &&& self.pebbles_remaining <= self.pebbles_count
        &&& self.winner is None ==> self.pebbles_remaining > 0
    }

    /// Starts a game from `config`, as [`GameState::configure`] does, and also
    /// tells what the start is answered with.
    pub(crate) fn start(
        config: GameConfig,
        first_draw: Option<u32>,
        move_draw: Option<u32>,
    ) -> (result: Result<(GameState, Option<TurnOutcome>), GameError>)
        ensures
            result is Ok <==> GameModel::start_error(config, first_draw, move_draw) is None,
            result matches Err(error) ==> GameModel::start_error(config, first_draw, move_draw)
                == Some(error),
            result matches Ok(started) ==> started.0@ == GameModel::started(
                config,
                first_draw->0,
                move_draw,
            ) && started.1 == GameModel::opening_outcome(config, first_draw->0, move_draw),
    {
        if config.pebbles_count == 0 || config.max_pebbles_per_turn == 0 {
            return Err(GameError::InvalidConfiguration);
        }
        let first_player = match first_draw {
            None => {
                return Err(GameError::EntropyUnavailable);
            },
            Some(value) => if value % 2 == 0 {
                Player::User
            } else {
                Player::Program
            },
        };
        let mut state = GameState {
            pebbles_count: config.pebbles_count,
            max_pebbles_per_turn: config.max_pebbles_per_turn,
            pebbles_remaining: config.pebbles_count,
            difficulty: config.difficulty,
            first_player,
            winner: None,
        };
        match first_player {
            Player::User => Ok((state, None)),
            Player::Program => {
                if state.needs_entropy() && move_draw.is_none() {
                    return Err(GameError::EntropyUnavailable);
                }
                let outcome = state.automated_turn(move_draw);
                Ok((state, Some(outcome)))
            },
        }
    }

    /// Whether the automated opponent reads the entropy source to move.
    fn needs_entropy(&self) -> (needed: bool)
        ensures
            needed == (self@.difficulty is Easy),
    {
        match self.difficulty {
            DifficultyLevel::Easy => true,
            DifficultyLevel::Hard => false,
        }
    }

    /// Starts a game from `config`. `first_draw` is the reading of the
    /// entropy source that decides who moves first: the user on an even
    /// value, the automated opponent on an odd one. Where the automated
    /// opponent moves first it makes its opening move at once, on the easy
    /// level with the reading `move_draw`, so the game that comes back may
    /// already be short of pebbles, or decided.
    ///
    /// Fails with `InvalidConfiguration` where `config` names no pebbles or
    /// turns of no pebbles, and else with `EntropyUnavailable` where a reading
    /// that the start needs is `None`.
    pub fn configure(config: GameConfig, first_draw: Option<u32>, move_draw: Option<u32>) -> (result:
        Result<GameState, GameError>)
        ensures
            result is Ok <==> GameModel::start_error(config, first_draw, move_draw) is None,
            result matches Err(error) ==> GameModel::start_error(config, first_draw, move_draw)
                == Some(error),
            result matches Ok(state) ==> state@ == GameModel::started(
                config,
                first_draw->0,
                move_draw,
            ),
            result matches Ok(state) ==> state@.well_formed(),
            result matches Ok(state) ==> state@.pebbles_count == config.pebbles_count
                && state@.max_pebbles_per_turn == config.max_pebbles_per_turn
                && state@.difficulty == config.difficulty && state@.first_player
                == first_player_for(first_draw->0),
            result matches Ok(state) ==> (state@.first_player is User ==> state@.pebbles_remaining
                == config.pebbles_count && state@.winner is None),
            result matches Ok(state) ==> (state@.first_player is Program
                ==> state@.pebbles_remaining == config.pebbles_count - GameModel::fresh(
                config,
                Player::Program,
            ).program_move(move_draw)),
            result matches Ok(state) ==> (state@.pebbles_remaining > 0 ==> state@.winner is None),
            result matches Ok(state) ==> (state@.pebbles_remaining == 0 ==> state@.winner == Some(
                Player::Program,
            )),
    {
        match GameState::start(config, first_draw, move_draw) {
            Ok((state, _)) => {
                proof {
                    use_type_invariant(&state);
                    lemma_program_turn(GameModel::fresh(config, Player::Program), move_draw);
                }
                Ok(state)
            },
            Err(error) => Err(error),
        }
    }

    /// The user's turn: removes `pebbles` from the pile. Where that empties
    /// the pile the user has won and the automated opponent does not move.
    /// Else the automated opponent answers with one move, on the easy level
    /// with the reading `move_draw` of the entropy source.
    ///
    /// Fails, and leaves the game as it was, with `Uninitialized` where the
    /// game is already decided; else with `InvalidTurn` where `pebbles` is
    /// zero, more than one turn may remove or more than are left; else with
    /// `EntropyUnavailable` where the automated opponent is to answer on the
    /// easy level and `move_draw` is `None`.
    pub fn apply_turn(&mut self, pebbles: u32, move_draw: Option<u32>) -> (result: Result<
        TurnOutcome,
        GameError,
    >)
        ensures
            result is Ok <==> old(self)@.turn_error(pebbles, move_draw) is None,
            result matches Err(error) ==> old(self)@.turn_error(pebbles, move_draw) == Some(error)
                && final(self)@ == old(self)@,
            result matches Ok(outcome) ==> final(self)@ == old(self)@.after_turn(
                pebbles,
                move_draw,
            ) && outcome == old(self)@.turn_outcome(pebbles, move_draw),
            final(self)@.pebbles_remaining <= old(self)@.pebbles_remaining,
            result is Ok ==> final(self)@.pebbles_remaining < old(self)@.pebbles_remaining,
            final(self)@.same_parameters(old(self)@),
            final(self)@.well_formed(),
            !old(self)@.in_progress() ==> result == Err::<TurnOutcome, GameError>(
                GameError::Uninitialized,
            ) && final(self)@ == old(self)@,
    {
        proof {
            use_type_invariant(&*self);
        }
        if self.winner.is_some() {
            return Err(GameError::Uninitialized);
        }
        if pebbles == 0 || pebbles > self.max_pebbles_per_turn || pebbles > self.pebbles_remaining {
            return Err(GameError::InvalidTurn);
        }
        if pebbles == self.pebbles_remaining {
            self.winner = Some(Player::User);
            self.pebbles_remaining = 0;
            return Ok(TurnOutcome::Won(Player::User));
        }
        if self.needs_entropy() && move_draw.is_none() {
            return Err(GameError::EntropyUnavailable);
        }
        self.pebbles_remaining = self.pebbles_remaining - pebbles;
        proof {
            lemma_program_turn(self@, move_draw);
        }
        Ok(self.automated_turn(move_draw))
    }

    /// The user gives up: the automated opponent has won, however many
    /// pebbles are left.
    ///
    /// Fails with `Uninitialized`, and leaves the game as it was, where the
    /// game is already decided.
    pub fn concede(&mut self) -> (result: Result<TurnOutcome, GameError>)
        ensures
            result is Ok <==> old(self)@.in_progress(),
            result is Ok ==> result == Ok::<TurnOutcome, GameError>(
                TurnOutcome::Won(Player::Program),
            ) && final(self)@ == old(self)@.after_concede(),
            result is Err ==> result == Err::<TurnOutcome, GameError>(GameError::Uninitialized)
                && final(self)@ == old(self)@,
            final(self)@.winner is Some,
            final(self)@.pebbles_remaining == old(self)@.pebbles_remaining,
            final(self)@.well_formed(),
    {
        proof {
            use_type_invariant(&*self);
        }
        if self.winner.is_some() {
            return Err(GameError::Uninitialized);
        }
        self.winner = Some(Player::Program);
        Ok(TurnOutcome::Won(Player::Program))
    }

    /// Throws the game away, decided or not, and starts another from
    /// `config` in its place, as [`GameState::configure`] does and with the
    /// same readings of the entropy source.
    ///
    /// Fails as `configure` does, and then leaves the game as it was.
    pub fn restart(
        &mut self,
        config: GameConfig,
        first_draw: Option<u32>,
        move_draw: Option<u32>,
    ) -> (result: Result<(), GameError>)
        ensures
            result is Ok <==> GameModel::start_error(config, first_draw, move_draw) is None,
            result matches Err(error) ==> GameModel::start_error(config, first_draw, move_draw)
                == Some(error) && final(self)@ == old(self)@,
            result is Ok ==> final(self)@ == GameModel::started(config, first_draw->0, move_draw),
            final(self)@.well_formed(),
    {
        proof {
            use_type_invariant(&*self);
        }
        match GameState::start(config, first_draw, move_draw) {
            Ok((state, _)) => {
                proof {
                    use_type_invariant(&state);
                }
                *self = state;
                Ok(())
            },
            Err(error) => Err(error),
        }
    }

    /// Pebbles on the pile when the game started.
    pub fn pebbles_count(&self) -> (count: u32)
        ensures
            count == self@.pebbles_count,
            self@.well_formed(),
    {
        proof {
            use_type_invariant(self);
        }
        self.pebbles_count
    }

    /// The most pebbles that one turn may remove.
    pub fn max_pebbles_per_turn(&self) -> (max: u32)
        ensures
            max == self@.max_pebbles_per_turn,
            self@.well_formed(),
    {
        proof {
            use_type_invariant(self);
        }
        self.max_pebbles_per_turn
    }

    /// Pebbles on the pile now: never more than the game started with.
    pub fn pebbles_remaining(&self) -> (remaining: u32)
        ensures
            remaining == self@.pebbles_remaining,
            remaining <= self@.pebbles_count,
            self@.well_formed(),
    {
        proof {
            use_type_invariant(self);
        }
        self.pebbles_remaining
    }

    /// How the automated opponent plays.
    pub fn difficulty(&self) -> (difficulty: DifficultyLevel)
        ensures
            difficulty == self@.difficulty,
    {
        self.difficulty
    }

    /// Who moved first.
    pub fn first_player(&self) -> (player: Player)
        ensures
            player == self@.first_player,
    {
        self.first_player
    }

    /// Who has won, once the game is decided.
    pub fn winner(&self) -> (winner: Option<Player>)
        ensures
            winner == self@.winner,
            self@.well_formed(),
    {
        proof {
            use_type_invariant(self);
        }
        self.winner
    }

    /// The automated opponent's turn: it removes the pebbles that its level
    /// chooses and wins where that empties the pile.
    fn automated_turn(&mut self, draw: Option<u32>) -> (outcome: TurnOutcome)
        requires
            old(self)@.in_progress(),
            !old(self)@.lacks_entropy(draw),
        ensures
            final(self)@ == old(self)@.after_program_turn(draw),
            outcome == old(self)@.program_outcome(draw),
    {
        proof {
            use_type_invariant(&*self);
        }
        let entropy: u32 = match draw {
            Some(value) => value,
            None => 0,
        };
        let pebbles: u32 = select(
            self.pebbles_remaining,
            self.max_pebbles_per_turn,
            self.difficulty,
            entropy,
        );
        if pebbles == self.pebbles_remaining {
            self.winner = Some(Player::Program);
            self.pebbles_remaining = 0;
            TurnOutcome::Won(Player::Program)
        } else {
            self.pebbles_remaining = self.pebbles_remaining - pebbles;
            TurnOutcome::CounterTurn(pebbles)
        }
    }
}

} // verus!
