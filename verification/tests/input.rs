use paddleball::game::event_result::EventResult;
use paddleball::game::input::{translate, Command, InputEvent, Key};
use paddleball::game::pacer::LoopState;
use paddleball::game::point::Point;
use paddleball::game::Game;

#[test]
fn translate_names_each_command() {
    assert_eq!(translate(InputEvent::Quit), Command::Quit);
    assert_eq!(translate(InputEvent::KeyDown(Key::Escape)), Command::Quit);
    assert_eq!(translate(InputEvent::KeyDown(Key::Up)), Command::IntentUp);
    assert_eq!(translate(InputEvent::KeyDown(Key::Down)), Command::IntentDown);
    assert_eq!(translate(InputEvent::KeyDown(Key::Space)), Command::Restart);
    assert_eq!(translate(InputEvent::KeyDown(Key::Other)), Command::NoOpWithReset);
    assert_eq!(translate(InputEvent::Other), Command::NoOpWithReset);
}

#[test]
fn apply_intent_up_and_down() {
    let mut game = Game::initialize();
    game.apply(Command::IntentUp);
    game.apply(Command::IntentUp);
    assert_eq!(game.paddle.direction, -2);
    game.apply(Command::IntentDown);
    assert_eq!(game.paddle.direction, -1);
    for _ in 0..20 {
        game.apply(Command::IntentDown);
    }
    assert_eq!(game.paddle.direction, 5);
    for _ in 0..20 {
        game.apply(Command::IntentUp);
    }
    assert_eq!(game.paddle.direction, -5);
    assert_eq!(game.ball, Game::initialize().ball);
    assert_eq!(game.paddle.position, Point { x: 10, y: 384 });
}

#[test]
fn apply_no_op_resets_intent() {
    let mut game = Game::initialize();
    game.paddle.direction = 4;
    game.apply(Command::NoOpWithReset);
    assert_eq!(game, Game::initialize());
}

#[test]
fn apply_quit_changes_nothing() {
    let mut game = Game::initialize();
    game.paddle.direction = 4;
    game.ball.position = Point { x: 1, y: 2 };
    let before = game;
    game.apply(Command::Quit);
    assert_eq!(game, before);
}

#[test]
fn restart_gives_the_start_whatever_came_before() {
    let mut game = Game::initialize();
    game.apply(Command::IntentDown);
    game.apply(Command::IntentDown);
    for _ in 0..40 {
        game.update_game(33_000_000);
    }
    assert_ne!(game, Game::initialize());
    game.apply(Command::Restart);
    assert_eq!(game, Game::initialize());
    assert_eq!(game.ball.position, Point { x: 512, y: 384 });
    assert_eq!(game.ball.velocity, Point { x: 400, y: 100 });
    assert_eq!(game.paddle.position, Point { x: 10, y: 384 });
    assert_eq!(game.paddle.direction, 0);
    game.apply(Command::Restart);
    assert_eq!(game, Game::initialize());
}

#[test]
fn restart_keeps_sizes_and_loop_state() {
    let mut game = Game::initialize();
    game.paddle.height = 80;
    game.ball.width = 3;
    game.state = LoopState::Terminated;
    game.ball.velocity = Point { x: -1, y: -1 };
    game.restart();
    assert_eq!(game.paddle.height, 80);
    assert_eq!(game.paddle.width, 5);
    assert_eq!(game.ball.width, 3);
    assert_eq!(game.ball.height, 10);
    assert_eq!(game.state, LoopState::Terminated);
    assert_eq!(game.ball.velocity, Point { x: 400, y: 100 });
    assert_eq!(game.ball.position, Point { x: 512, y: 384 });
    assert_eq!(game.paddle.position, Point { x: 10, y: 384 });
}

#[test]
fn process_input_applies_events_in_order() {
    let mut game = Game::initialize();
    let events = vec![
        InputEvent::KeyDown(Key::Up),
        InputEvent::KeyDown(Key::Up),
        InputEvent::KeyDown(Key::Up),
        InputEvent::KeyDown(Key::Down),
    ];
    assert_eq!(game.process_input(&events), EventResult::Continue);
    assert_eq!(game.paddle.direction, -2);
    let more = vec![InputEvent::KeyDown(Key::Up), InputEvent::Other, InputEvent::KeyDown(Key::Down)];
    assert_eq!(game.process_input(&more), EventResult::Continue);
    assert_eq!(game.paddle.direction, 1);
}

#[test]
fn process_input_without_events_changes_nothing() {
    let mut game = Game::initialize();
    game.paddle.direction = 3;
    let before = game;
    assert_eq!(game.process_input(&Vec::new()), EventResult::Continue);
    assert_eq!(game, before);
}

#[test]
fn process_input_stops_at_quit() {
    let mut game = Game::initialize();
    let events = vec![
        InputEvent::KeyDown(Key::Down),
        InputEvent::Quit,
        InputEvent::KeyDown(Key::Down),
        InputEvent::KeyDown(Key::Down),
    ];
    assert_eq!(game.process_input(&events), EventResult::End);
    assert_eq!(game.paddle.direction, 1);
    let mut other = Game::initialize();
    let escape = vec![InputEvent::KeyDown(Key::Escape), InputEvent::KeyDown(Key::Up)];
    assert_eq!(other.process_input(&escape), EventResult::End);
    assert_eq!(other, Game::initialize());
}

#[test]
fn process_input_key_release_stops_the_paddle() {
    let mut game = Game::initialize();
    let events = vec![InputEvent::KeyDown(Key::Down), InputEvent::KeyDown(Key::Down), InputEvent::Other];
    assert_eq!(game.process_input(&events), EventResult::Continue);
    assert_eq!(game.paddle.direction, 0);
}

#[test]
fn process_input_restart_then_intent() {
    let mut game = Game::initialize();
    game.update_game(50_000_000);
    game.paddle.direction = 5;
    let events = vec![InputEvent::KeyDown(Key::Space), InputEvent::KeyDown(Key::Up)];
    assert_eq!(game.process_input(&events), EventResult::Continue);
    let mut expected = Game::initialize();
    expected.paddle.direction = -1;
    assert_eq!(game, expected);
}
