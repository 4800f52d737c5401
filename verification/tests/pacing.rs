use paddleball::game::input::{InputEvent, Key};
use paddleball::game::pacer::{
    clamp_delta, frame_due, LoopAction, LoopEvent, LoopState, MAX_DELTA_NANOS, MIN_FRAME_NANOS,
};
use paddleball::game::point::Point;
use paddleball::game::Game;

#[test]
fn frame_is_due_after_sixteen_milliseconds() {
    assert_eq!(MIN_FRAME_NANOS, 16_000_000);
    assert!(!frame_due(0));
    assert!(!frame_due(15_999_999));
    assert!(frame_due(16_000_000));
    assert!(frame_due(u64::MAX));
}

#[test]
fn delta_is_clamped_to_fifty_milliseconds() {
    assert_eq!(MAX_DELTA_NANOS, 50_000_000);
    assert_eq!(clamp_delta(0), 0);
    assert_eq!(clamp_delta(16_000_000), 16_000_000);
    assert_eq!(clamp_delta(50_000_000), 50_000_000);
    assert_eq!(clamp_delta(50_000_001), 50_000_000);
    assert_eq!(clamp_delta(200_000_000), 50_000_000);
    assert_eq!(clamp_delta(u64::MAX), 50_000_000);
}

#[test]
fn handle_runs_one_frame() {
    let mut game = Game::initialize();
    let input = LoopEvent::Input(vec![InputEvent::KeyDown(Key::Down)]);
    assert_eq!(game.handle(input), LoopAction::MeasureTime);
    assert_eq!(game.paddle.direction, 1);
    assert_eq!(game.handle(LoopEvent::Elapsed(3_000_000)), LoopAction::MeasureTime);
    assert_eq!(game.handle(LoopEvent::Elapsed(15_999_999)), LoopAction::MeasureTime);
    assert_eq!(game.ball.position, Point { x: 512, y: 384 });
    let action = game.handle(LoopEvent::Elapsed(16_000_000));
    assert_eq!(action, LoopAction::Render(game.generate_output()));
    assert_eq!(game.ball.position, Point { x: 518, y: 385 });
    assert_eq!(game.paddle.position.y, 388);
    assert_eq!(game.state, LoopState::Running);
}

#[test]
fn handle_clamps_a_stalled_frame() {
    let mut stalled = Game::initialize();
    let mut ceiling = Game::initialize();
    let a = stalled.handle(LoopEvent::Elapsed(200_000_000));
    let b = ceiling.handle(LoopEvent::Elapsed(50_000_000));
    assert_eq!(a, b);
    assert_eq!(stalled, ceiling);
    assert_eq!(stalled.ball.position, Point { x: 532, y: 389 });
}

#[test]
fn handle_quit_ends_the_loop_before_the_step() {
    let mut game = Game::initialize();
    let input = LoopEvent::Input(vec![
        InputEvent::KeyDown(Key::Up),
        InputEvent::KeyDown(Key::Escape),
        InputEvent::KeyDown(Key::Up),
    ]);
    assert_eq!(game.handle(input), LoopAction::Stop);
    assert_eq!(game.state, LoopState::Terminated);
    assert_eq!(game.paddle.direction, -1);
    let before = game;
    assert_eq!(game.handle(LoopEvent::Elapsed(16_000_000)), LoopAction::Stop);
    assert_eq!(game, before);
    assert_eq!(game.handle(LoopEvent::Input(vec![InputEvent::KeyDown(Key::Space)])), LoopAction::Stop);
    assert_eq!(game, before);
}

#[test]
fn handle_window_close_ends_the_loop() {
    let mut game = Game::initialize();
    assert_eq!(game.handle(LoopEvent::Input(vec![InputEvent::Quit])), LoopAction::Stop);
    assert_eq!(game.state, LoopState::Terminated);
}

#[test]
fn handle_lost_input_ends_the_loop() {
    let mut game = Game::initialize();
    assert_eq!(game.handle(LoopEvent::InputUnavailable), LoopAction::Stop);
    let mut expected = Game::initialize();
    expected.state = LoopState::Terminated;
    assert_eq!(game, expected);
}

#[test]
fn handle_lost_clock_ends_the_loop_without_a_frame() {
    let mut game = Game::initialize();
    assert_eq!(game.handle(LoopEvent::Input(Vec::new())), LoopAction::MeasureTime);
    assert_eq!(game.handle(LoopEvent::ClockFailed), LoopAction::Stop);
    let mut expected = Game::initialize();
    expected.state = LoopState::Terminated;
    assert_eq!(game, expected);
    assert_eq!(game.handle(LoopEvent::ClockFailed), LoopAction::Stop);
    assert_eq!(game.handle(LoopEvent::InputUnavailable), LoopAction::Stop);
    assert_eq!(game, expected);
}
