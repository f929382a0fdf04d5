use pebbles_game::{
    DifficultyLevel, GameConfig, GameEngine, GameError, GameState, Player, PlayerAction, Request,
    TurnOutcome,
};

fn config(pebbles_count: u32, max_pebbles_per_turn: u32, difficulty: DifficultyLevel) -> GameConfig {
    GameConfig { pebbles_count, max_pebbles_per_turn, difficulty }
}

fn request(action: PlayerAction, first_draw: Option<u32>, move_draw: Option<u32>) -> Request {
    Request { action, first_draw, move_draw }
}

#[test]
fn engine_without_a_game_refuses_every_request() {
    let mut engine = GameEngine::new();
    assert_eq!(
        engine.handle(request(PlayerAction::Turn(1), Some(0), Some(0))),
        Err(GameError::Uninitialized)
    );
    assert_eq!(
        engine.handle(request(PlayerAction::Concede, Some(0), Some(0))),
        Err(GameError::Uninitialized)
    );
    assert_eq!(
        engine.handle(request(
            PlayerAction::Restart(config(5, 2, DifficultyLevel::Hard)),
            Some(0),
            Some(0)
        )),
        Err(GameError::Uninitialized)
    );
    assert_eq!(engine.state(), Err(GameError::Uninitialized));
    assert_eq!(engine, GameEngine::new());
}

#[test]
fn init_where_the_user_moves_first_is_answered_with_nothing() {
    let (engine, opening) = GameEngine::init(config(5, 2, DifficultyLevel::Hard), Some(2), None).unwrap();
    assert_eq!(opening, None);
    let game = engine.state().unwrap();
    assert_eq!(game, GameState::configure(config(5, 2, DifficultyLevel::Hard), Some(2), None).unwrap());
    assert_eq!(game.pebbles_remaining(), 5);
    assert_eq!(game.first_player(), Player::User);
}

#[test]
fn init_where_the_program_moves_first_is_answered_with_its_move() {
    let (engine, opening) = GameEngine::init(config(5, 2, DifficultyLevel::Hard), Some(1), None).unwrap();
    assert_eq!(opening, Some(TurnOutcome::CounterTurn(2)));
    assert_eq!(engine.state().unwrap().pebbles_remaining(), 3);
    assert_eq!(engine.state().unwrap().first_player(), Player::Program);

    let (engine, opening) =
        GameEngine::init(config(9, 4, DifficultyLevel::Easy), Some(1), Some(10)).unwrap();
    assert_eq!(opening, Some(TurnOutcome::CounterTurn(3)));
    assert_eq!(engine.state().unwrap().pebbles_remaining(), 6);
}

#[test]
fn init_where_the_opening_move_wins_is_answered_with_the_win() {
    let (engine, opening) = GameEngine::init(config(2, 2, DifficultyLevel::Hard), Some(1), None).unwrap();
    assert_eq!(opening, Some(TurnOutcome::Won(Player::Program)));
    assert_eq!(engine.state().unwrap().winner(), Some(Player::Program));
    assert_eq!(engine.state().unwrap().pebbles_remaining(), 0);
}

#[test]
fn init_fails_as_configure_does() {
    assert_eq!(
        GameEngine::init(config(0, 2, DifficultyLevel::Hard), Some(0), None),
        Err(GameError::InvalidConfiguration)
    );
    assert_eq!(
        GameEngine::init(config(2, 0, DifficultyLevel::Hard), Some(0), None),
        Err(GameError::InvalidConfiguration)
    );
    assert_eq!(
        GameEngine::init(config(2, 2, DifficultyLevel::Hard), None, None),
        Err(GameError::EntropyUnavailable)
    );
    assert_eq!(
        GameEngine::init(config(2, 2, DifficultyLevel::Easy), Some(1), None),
        Err(GameError::EntropyUnavailable)
    );
}

#[test]
fn handle_applies_turns_until_somebody_wins() {
    let (mut engine, _) = GameEngine::init(config(5, 2, DifficultyLevel::Hard), Some(2), None).unwrap();
    assert_eq!(
        engine.handle(request(PlayerAction::Turn(2), None, None)),
        Ok(Some(TurnOutcome::CounterTurn(1)))
    );
    assert_eq!(engine.state().unwrap().pebbles_remaining(), 2);
    assert_eq!(
        engine.handle(request(PlayerAction::Turn(3), None, None)),
        Err(GameError::InvalidTurn)
    );
    assert_eq!(engine.state().unwrap().pebbles_remaining(), 2);
    assert_eq!(
        engine.handle(request(PlayerAction::Turn(2), None, None)),
        Ok(Some(TurnOutcome::Won(Player::User)))
    );
    assert_eq!(engine.state().unwrap().winner(), Some(Player::User));
}

#[test]
fn handle_passes_the_reading_for_the_move_to_the_easy_level() {
    let (mut engine, _) = GameEngine::init(config(9, 4, DifficultyLevel::Easy), Some(0), None).unwrap();
    let before = engine;
    assert_eq!(
        engine.handle(request(PlayerAction::Turn(1), Some(5), None)),
        Err(GameError::EntropyUnavailable)
    );
    assert_eq!(engine, before);
    assert_eq!(
        engine.handle(request(PlayerAction::Turn(1), None, Some(6))),
        Ok(Some(TurnOutcome::CounterTurn(3)))
    );
    assert_eq!(engine.state().unwrap().pebbles_remaining(), 5);
}

#[test]
fn handle_concede_ends_the_game() {
    let (mut engine, _) = GameEngine::init(config(5, 2, DifficultyLevel::Easy), Some(2), None).unwrap();
    assert_eq!(
        engine.handle(request(PlayerAction::Concede, None, None)),
        Ok(Some(TurnOutcome::Won(Player::Program)))
    );
    let game = engine.state().unwrap();
    assert_eq!(game.winner(), Some(Player::Program));
    assert_eq!(game.pebbles_remaining(), 5);
}

#[test]
fn decided_engine_takes_only_a_restart() {
    let (mut engine, _) = GameEngine::init(config(5, 2, DifficultyLevel::Hard), Some(2), None).unwrap();
    assert!(engine.handle(request(PlayerAction::Concede, None, None)).is_ok());
    let decided = engine;
    assert_eq!(
        engine.handle(request(PlayerAction::Turn(1), Some(1), Some(1))),
        Err(GameError::Uninitialized)
    );
    assert_eq!(
        engine.handle(request(PlayerAction::Concede, Some(1), Some(1))),
        Err(GameError::Uninitialized)
    );
    assert_eq!(engine, decided);
    assert_eq!(
        engine.handle(request(
            PlayerAction::Restart(config(7, 3, DifficultyLevel::Hard)),
            Some(4),
            None
        )),
        Ok(None)
    );
    let game = engine.state().unwrap();
    assert_eq!(game.winner(), None);
    assert_eq!(game.pebbles_count(), 7);
    assert_eq!(game.pebbles_remaining(), 7);
    assert_eq!(game.max_pebbles_per_turn(), 3);
    assert_eq!(game.first_player(), Player::User);
}

#[test]
fn restart_where_the_program_moves_first_is_answered_with_its_move() {
    let (mut engine, _) = GameEngine::init(config(5, 2, DifficultyLevel::Hard), Some(2), None).unwrap();
    assert_eq!(
        engine.handle(request(
            PlayerAction::Restart(config(7, 3, DifficultyLevel::Hard)),
            Some(5),
            None
        )),
        Ok(Some(TurnOutcome::CounterTurn(3)))
    );
    assert_eq!(engine.state().unwrap().pebbles_remaining(), 4);
    assert_eq!(engine.state().unwrap().first_player(), Player::Program);
    assert_eq!(
        engine.handle(request(
            PlayerAction::Restart(config(3, 3, DifficultyLevel::Easy)),
            Some(5),
            Some(2)
        )),
        Ok(Some(TurnOutcome::Won(Player::Program)))
    );
    assert_eq!(engine.state().unwrap().winner(), Some(Player::Program));
}

#[test]
fn refused_restart_leaves_the_engine_as_it_was() {
    let (mut engine, _) = GameEngine::init(config(5, 2, DifficultyLevel::Hard), Some(2), None).unwrap();
    assert!(engine.handle(request(PlayerAction::Turn(1), None, None)).is_ok());
    let before = engine;
    assert_eq!(
        engine.handle(request(
            PlayerAction::Restart(config(0, 3, DifficultyLevel::Hard)),
            Some(5),
            None
        )),
        Err(GameError::InvalidConfiguration)
    );
    assert_eq!(
        engine.handle(request(
            PlayerAction::Restart(config(3, 0, DifficultyLevel::Hard)),
            Some(5),
            None
        )),
        Err(GameError::InvalidConfiguration)
    );
    assert_eq!(
        engine.handle(request(
            PlayerAction::Restart(config(3, 3, DifficultyLevel::Hard)),
            None,
            Some(1)
        )),
        Err(GameError::EntropyUnavailable)
    );
    assert_eq!(
        engine.handle(request(
            PlayerAction::Restart(config(3, 3, DifficultyLevel::Easy)),
            Some(1),
            None
        )),
        Err(GameError::EntropyUnavailable)
    );
    assert_eq!(engine, before);
}

#[test]
fn state_is_a_copy_that_the_engine_does_not_follow() {
    let (mut engine, _) = GameEngine::init(config(5, 2, DifficultyLevel::Hard), Some(2), None).unwrap();
    let mut copy = engine.state().unwrap();
    assert_eq!(copy.concede(), Ok(TurnOutcome::Won(Player::Program)));
    assert_eq!(engine.state().unwrap().winner(), None);
    assert!(engine.handle(request(PlayerAction::Turn(1), None, None)).is_ok());
    assert_eq!(copy.pebbles_remaining(), 5);
}

#[test]
fn pile_stays_within_its_bounds_through_any_requests() {
    let (mut engine, _) = GameEngine::init(config(30, 5, DifficultyLevel::Easy), Some(0), None).unwrap();
    let mut entropy: u32 = 99;
    for round in 0..2_000u32 {
        entropy = entropy.wrapping_mul(1_664_525).wrapping_add(1_013_904_223);
        let first_draw = if entropy % 7 == 0 { None } else { Some(entropy >> 3) };
        let move_draw = if entropy % 11 == 0 { None } else { Some(entropy >> 5) };
        let action = match (entropy >> 8) % 10 {
            0 => PlayerAction::Concede,
            1 => PlayerAction::Restart(config(
                (entropy >> 12) % 40,
                (entropy >> 20) % 6,
                if round % 2 == 0 { DifficultyLevel::Easy } else { DifficultyLevel::Hard },
            )),
            _ => PlayerAction::Turn((entropy >> 12) % 7),
        };
        let before = engine.state().unwrap();
        let answer = engine.handle(request(action, first_draw, move_draw));
        let after = engine.state().unwrap();
        assert!(after.pebbles_remaining() <= after.pebbles_count());
        assert!(after.pebbles_count() > 0);
        assert!(after.max_pebbles_per_turn() > 0);
        if after.pebbles_remaining() == 0 {
            assert!(after.winner().is_some());
        }
        if answer.is_err() {
            assert_eq!(after, before);
        }
        if !matches!(action, PlayerAction::Restart(_)) {
            assert!(after.pebbles_remaining() <= before.pebbles_remaining());
            assert_eq!(after.pebbles_count(), before.pebbles_count());
            if before.winner().is_some() {
                assert_eq!(answer, Err(GameError::Uninitialized));
                assert_eq!(after, before);
            }
        }
    }
}
