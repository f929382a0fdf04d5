//! The engine that a host drives: it owns at most one game, takes the
//! player's requests one at a time and answers each with what the host is to
//! send back.
//!
//! An engine holds no game until one is started, holds a game in progress
//! until somebody wins, and then holds the decided game until it is
//! restarted. [`step`] is that state machine on models, [`run`] drives it
//! through any number of requests, and the laws at the end of this module
//! say what holds along the way.

use crate::game::{lemma_started, lemma_turn, lemma_turn_lost_for_user, GameModel, GameState};
use crate::types::{GameConfig, GameError, Player, PlayerAction, TurnOutcome};
use vstd::prelude::*;

verus! {

/// One request to a game, with the readings of the entropy source that came
/// with it: the one that decides who moves first in a new game, and the one
/// for the automated opponent's move.
#[derive(Clone, Copy, Debug, PartialEq, Eq, Structural)]
pub struct Request {
    /// What the player asks for.
    pub action: PlayerAction,
    /// The reading that a restart uses to decide who moves first.
    pub first_draw: Option<u32>,
    /// The reading that the automated opponent's move uses on the easy level.
    pub move_draw: Option<u32>,
}

/// Why `request` is refused by `game`, if it is.
pub open spec fn request_error(game: GameModel, request: Request) -> Option<GameError> {
    match request.action {
        PlayerAction::Turn(pebbles) => game.turn_error(pebbles, request.move_draw),
        PlayerAction::Concede => game.concede_error(),
        PlayerAction::Restart(config) => GameModel::start_error(
            config,
            request.first_draw,
            request.move_draw,
        ),
    }
}

/// The game that an accepted `request` leaves behind.
pub open spec fn after_request(game: GameModel, request: Request) -> GameModel {
    match request.action {
        PlayerAction::Turn(pebbles) => game.after_turn(pebbles, request.move_draw),
        PlayerAction::Concede => game.after_concede(),
        PlayerAction::Restart(config) => GameModel::started(
            config,
            request.first_draw->0,
            request.move_draw,
        ),
    }
}

/// What an accepted `request` is answered with. A restart after which the
/// user moves first is answered with nothing.
pub open spec fn request_outcome(game: GameModel, request: Request) -> Option<TurnOutcome> {
    match request.action {
        PlayerAction::Turn(pebbles) => Some(game.turn_outcome(pebbles, request.move_draw)),
        PlayerAction::Concede => Some(TurnOutcome::Won(Player::Program)),
        PlayerAction::Restart(config) => GameModel::opening_outcome(
            config,
            request.first_draw->0,
            request.move_draw,
        ),
    }
}

/// The game after `request`: what an accepted request leaves behind, and the
/// game as it was where the request is refused.
pub open spec fn step(game: GameModel, request: Request) -> GameModel {
    if request_error(game, request) is None {
        after_request(game, request)
    } else {
        game
    }
}

/// The game after the `requests`, one after the other.
pub open spec fn run(game: GameModel, requests: Seq<Request>) -> GameModel
    decreases requests.len(),
{
    if requests.len() == 0 {
        game
    } else {
        step(run(game, requests.drop_last()), requests.last())
    }
}

/// The owner of at most one game.
#[derive(Clone, Copy, Debug, PartialEq, Eq)]
pub struct GameEngine {
    game: Option<GameState>,
}

impl View for GameEngine {
    type V = Option<GameModel>;

    closed spec fn view(&self) -> Option<GameModel> {
        match self.game {
            Some(game) => Some(game@),
            None => None,
        }
    }
}

impl GameEngine {
    #[verifier::type_invariant]
    spec fn holds_well_formed_game(self) -> bool {
        self.game matches Some(game) ==> game@.well_formed()
    }

    /// An engine that holds no game yet.
    pub fn new() -> (engine: GameEngine)
        ensures
            engine@ is None,
    {
        GameEngine { game: None }
    }

    /// An engine with a game started from `config`, and what the start is
    /// answered with: the outcome of the automated opponent's opening move,
    /// or nothing where the user moves first. The readings of the entropy
    /// source are used, and the start fails, as in [`GameState::configure`].
    pub fn init(config: GameConfig, first_draw: Option<u32>, move_draw: Option<u32>) -> (result:
        Result<(GameEngine, Option<TurnOutcome>), GameError>)
        ensures
            result is Ok <==> GameModel::start_error(config, first_draw, move_draw) is None,
            result matches Err(error) ==> GameModel::start_error(config, first_draw, move_draw)
                == Some(error),
            result matches Ok(started) ==> started.0@ == Some(
                GameModel::started(config, first_draw->0, move_draw),
            ) && started.1 == GameModel::opening_outcome(config, first_draw->0, move_draw),
            result matches Ok(started) ==> started.0@->0.well_formed(),
    {
        match GameState::start(config, first_draw, move_draw) {
            Ok((game, outcome)) => {
                proof {
                    lemma_started(config, first_draw->0, move_draw);
                }
                Ok((GameEngine { game: Some(game) }, outcome))
            },
            Err(error) => Err(error),
        }
    }

    /// Takes one request of the player and says what to answer. A turn is
    /// applied as in [`GameState::apply_turn`], a concession as in
    /// [`GameState::concede`], a restart as in [`GameState::restart`]; a
    /// restart is answered with the outcome of the automated opponent's
    /// opening move, or with nothing where the user moves first.
    ///
    /// Fails with `Uninitialized` where the engine holds no game, and else as
    /// the operation does. A refused request leaves the engine as it was.
    pub fn handle(&mut self, request: Request) -> (result: Result<Option<TurnOutcome>, GameError>)
        ensures
            old(self)@ is None ==> result == Err::<Option<TurnOutcome>, GameError>(
                GameError::Uninitialized,
            ) && final(self)@ is None,
            old(self)@ matches Some(game) ==> (result is Ok <==> request_error(game, request)
                is None),
            old(self)@ matches Some(game) ==> (result matches Err(error) ==> request_error(
                game,
                request,
            ) == Some(error)),
            old(self)@ matches Some(game) ==> (result matches Ok(outcome) ==> outcome
                == request_outcome(game, request)),
            old(self)@ matches Some(game) ==> final(self)@ == Some(step(game, request)),
            result is Err ==> final(self)@ == old(self)@,
            final(self)@ matches Some(game) ==> game.well_formed(),
    {
        proof {
            use_type_invariant(&*self);
        }
        let mut game = match self.game {
            Some(game) => game,
            None => {
                return Err(GameError::Uninitialized);
            },
        };
        let result = match request.action {
            PlayerAction::Turn(pebbles) => match game.apply_turn(pebbles, request.move_draw) {
                Ok(outcome) => Ok(Some(outcome)),
                Err(error) => Err(error),
            },
            PlayerAction::Concede => match game.concede() {
                Ok(outcome) => Ok(Some(outcome)),
                Err(error) => Err(error),
            },
            PlayerAction::Restart(config) => match GameState::start(
                config,
                request.first_draw,
                request.move_draw,
            ) {
                Ok((started, outcome)) => {
                    proof {
                        lemma_started(config, request.first_draw->0, request.move_draw);
                    }
                    game = started;
                    Ok(outcome)
                },
                Err(error) => Err(error),
            },
        };
        self.game = Some(game);
        result
    }

    /// A copy of the game that the engine holds, for a host to look at.
    ///
    /// Fails with `Uninitialized` where the engine holds no game.
    pub fn state(&self) -> (result: Result<GameState, GameError>)
        ensures
            self@ is None ==> result == Err::<GameState, GameError>(GameError::Uninitialized),
            self@ matches Some(game) ==> result is Ok && result->Ok_0@ == game
                && game.well_formed(),
    {
        proof {
            use_type_invariant(self);
        }
        match self.game {
            Some(game) => Ok(game),
            None => Err(GameError::Uninitialized),
        }
    }
}

/// A request leaves a well-formed game well formed, accepted or not.
pub proof fn lemma_step_well_formed(game: GameModel, request: Request)
    requires
        game.well_formed(),
    ensures
        step(game, request).well_formed(),
        step(game, request).pebbles_remaining <= step(game, request).pebbles_count,
{
    if request_error(game, request) is None {
        match request.action {
            PlayerAction::Turn(pebbles) => lemma_turn(game, pebbles, request.move_draw),
            PlayerAction::Concede => {},
            PlayerAction::Restart(config) => lemma_started(
                config,
                request.first_draw->0,
                request.move_draw,
            ),
        }
    }
}

/// Whatever the requests, a game stays well formed: the pile never holds
/// more pebbles than the game started with.
pub proof fn lemma_run_well_formed(game: GameModel, requests: Seq<Request>)
    requires
        game.well_formed(),
    ensures
        run(game, requests).well_formed(),
        run(game, requests).pebbles_remaining <= run(game, requests).pebbles_count,
    decreases requests.len(),
{
    if requests.len() > 0 {
        lemma_run_well_formed(game, requests.drop_last());
        lemma_step_well_formed(run(game, requests.drop_last()), requests.last());
    }
}

/// A decided game refuses every request but a restart with `Uninitialized`
/// and stays as it is: only a restart changes a game once somebody has won.
pub proof fn lemma_decided_game_stays(game: GameModel, request: Request)
    requires
        !game.in_progress(),
        !(request.action is Restart),
    ensures
        request_error(game, request) == Some(GameError::Uninitialized),
        step(game, request) == game,
{
}

/// Short of a restart, a request never adds to the pile, never changes the
/// parameters of the game and never takes a win back.
pub proof fn lemma_step_within_game(game: GameModel, request: Request)
    requires
        game.well_formed(),
        !(request.action is Restart),
    ensures
        step(game, request).pebbles_remaining <= game.pebbles_remaining,
        step(game, request).same_parameters(game),
        game.winner is Some ==> step(game, request) == game,
{
    if request_error(game, request) is None {
        match request.action {
            PlayerAction::Turn(pebbles) => lemma_turn(game, pebbles, request.move_draw),
            _ => {},
        }
    }
}

/// Through any requests among which there is no restart the pile never
/// grows, the parameters of the game stay, and a decided game stays as it is.
pub proof fn lemma_run_within_game(game: GameModel, requests: Seq<Request>)
    requires
        game.well_formed(),
        forall|i: int| 0 <= i < requests.len() ==> !((#[trigger] requests[i]).action is Restart),
    ensures
        run(game, requests).pebbles_remaining <= game.pebbles_remaining,
        run(game, requests).same_parameters(game),
        game.winner is Some ==> run(game, requests) == game,
    decreases requests.len(),
{
    if requests.len() > 0 {
        let before = run(game, requests.drop_last());
        lemma_run_within_game(game, requests.drop_last());
        lemma_run_well_formed(game, requests.drop_last());
        lemma_step_within_game(before, requests.last());
    }
}

/// Optimal play wins: short of a restart, a game that is lost for the user
/// stays lost through any requests, so the user never wins it.
pub proof fn lemma_run_lost_for_user(game: GameModel, requests: Seq<Request>)
    requires
        game.well_formed(),
        game.lost_for_user(),
        forall|i: int| 0 <= i < requests.len() ==> !((#[trigger] requests[i]).action is Restart),
    ensures
        run(game, requests).lost_for_user(),
        run(game, requests).winner != Some(Player::User),
    decreases requests.len(),
{
    if requests.len() > 0 {
        let before = run(game, requests.drop_last());
        let request = requests.last();
        lemma_run_lost_for_user(game, requests.drop_last());
        lemma_run_well_formed(game, requests.drop_last());
        if request_error(before, request) is None {
            match request.action {
                PlayerAction::Turn(pebbles) => lemma_turn_lost_for_user(
                    before,
                    pebbles,
                    request.move_draw,
                ),
                _ => {},
            }
        }
    }
}

} // verus!
