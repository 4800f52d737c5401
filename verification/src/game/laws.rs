//! What holds of the game whatever is played.

use vstd::prelude::*;
use crate::game::ball::Ball;
use crate::game::arena::{top_face, PADDLE_SPEED};
use crate::game::input::{command_for, Command, InputEvent};
use crate::game::motion::{lemma_displacement_sign, lemma_displacement_zero};
use crate::game::pacer::{clamped_delta, LoopEvent, LoopState, MAX_DELTA_NANOS};
use crate::game::paddle::Paddle;
use crate::game::{initial_ball, initial_paddle, Game};

verus! {

/// Input changes no size and neither ends nor revives the loop: after any
/// events the sizes and the loop's state are what they were.
pub proof fn law_input_keeps_sizes(game: Game, events: Seq<InputEvent>)
    ensures
        game.after_events(events).paddle.width == game.paddle.width,
        game.after_events(events).paddle.height == game.paddle.height,
        game.after_events(events).ball.width == game.ball.width,
        game.after_events(events).ball.height == game.ball.height,
        game.after_events(events).state == game.state,
    decreases events.len(),
{
    if events.len() > 0 {
        law_input_keeps_sizes(game.after_command(command_for(events[0])), events.drop_first());
    }
}

/// An intent within the limits stays within them, whatever the input.
pub proof fn law_input_keeps_intent_in_range(game: Game, events: Seq<InputEvent>)
    requires
        game.paddle.intent_in_range(),
    ensures
        game.after_events(events).paddle.intent_in_range(),
    decreases events.len(),
{
    if events.len() > 0 {
        law_input_keeps_intent_in_range(
            game.after_command(command_for(events[0])),
            events.drop_first(),
        );
    }
}

/// After any input and a step over any span, a paddle that fits between the
/// walls stands between them, and still fits.
pub proof fn law_paddle_stays_between_walls(game: Game, events: Seq<InputEvent>, dt: nat)
    requires
        game.paddle.fits_arena(),
    ensures
        game.after_events(events).stepped(dt as int).paddle.within_band(),
        game.after_events(events).stepped(dt as int).paddle.fits_arena(),
{
    law_input_keeps_sizes(game, events);
}

/// A paddle that a wall stops lies at that wall and comes to rest; one that
/// no wall stops keeps its intent and arrives where it was headed.
pub proof fn law_stopped_paddle_rests(paddle: Paddle, dt: nat)
    requires
        paddle.fits_arena(),
    ensures
        paddle.blocked(dt as int) ==> paddle.moved(dt as int).direction == 0,
        paddle.blocked(dt as int) ==> paddle.moved(dt as int).position.y
            == top_face() || paddle.moved(dt as int).position.y
            == paddle.bottom_limit(),
        !paddle.blocked(dt as int) ==> paddle.moved(dt as int).direction == paddle.direction,
        !paddle.blocked(dt as int) ==> paddle.moved(dt as int).position.y == paddle.target_y(
            dt as int,
        ),
{
}

/// A paddle between the walls never moves against its intent, and one
/// without intent does not move.
pub proof fn law_paddle_follows_intent(paddle: Paddle, dt: nat)
    requires
        paddle.within_band(),
    ensures
        paddle.direction >= 0 ==> paddle.moved(dt as int).position.y >= paddle.position.y,
        paddle.direction <= 0 ==> paddle.moved(dt as int).position.y <= paddle.position.y,
        paddle.direction == 0 ==> paddle.moved(dt as int) == paddle,
{
    lemma_displacement_sign(paddle.direction * PADDLE_SPEED, dt as int);
}

/// A step over no time changes nothing but what a bounce changes: a paddle
/// between the walls and the ball stay where they are.
pub proof fn law_no_time_no_motion(game: Game)
    requires
        game.paddle.within_band(),
    ensures
        game.stepped(0).paddle == game.paddle,
        game.stepped(0).ball.position == game.ball.position,
{
    lemma_displacement_zero(game.paddle.direction * PADDLE_SPEED, 0);
    lemma_displacement_zero(game.ball.velocity.x as int, 0);
    lemma_displacement_zero(game.ball.velocity.y as int, 0);
}

/// A bounce off the top or bottom wall negates the vertical velocity and
/// nothing else; without a bounce the ball is unchanged.
pub proof fn law_top_and_bottom_reverse_vertical_only(ball: Ball)
    requires
        ball.reversible(),
    ensures
        ball.after_top_and_bottom().velocity.x == ball.velocity.x,
        ball.after_top_and_bottom().position == ball.position,
        ball.hits_top() || ball.hits_bottom() ==> ball.after_top_and_bottom().velocity.y
            == -ball.velocity.y,
        !(ball.hits_top() || ball.hits_bottom()) ==> ball.after_top_and_bottom() == ball,
{
}

/// A bounce off the right wall negates the horizontal velocity and nothing
/// else; without a bounce the ball is unchanged.
pub proof fn law_right_wall_reverses_horizontal_only(ball: Ball)
    requires
        ball.reversible(),
    ensures
        ball.after_right_wall().velocity.y == ball.velocity.y,
        ball.after_right_wall().position == ball.position,
        ball.reaches_right_wall() ==> ball.after_right_wall().velocity.x == -ball.velocity.x,
        !ball.reaches_right_wall() ==> ball.after_right_wall() == ball,
{
}

/// A bounce off the paddle negates the horizontal velocity and nothing else,
/// and sends the ball rightward; without a bounce the ball is unchanged.
pub proof fn law_paddle_reverses_horizontal_only(ball: Ball, paddle: Paddle)
    requires
        ball.reversible(),
    ensures
        ball.after_paddle(paddle).velocity.y == ball.velocity.y,
        ball.after_paddle(paddle).position == ball.position,
        ball.strikes(paddle) ==> ball.after_paddle(paddle).velocity.x == -ball.velocity.x
            && ball.after_paddle(paddle).velocity.x > 0,
        !ball.strikes(paddle) ==> ball.after_paddle(paddle) == ball,
{
}

/// A step changes each component of the ball's velocity in its sign at most:
/// the magnitudes are what they were.
pub proof fn law_step_keeps_speed(game: Game, dt: nat)
    requires
        game.ball.reversible(),
    ensures
        game.stepped(dt as int).ball.velocity.x == game.ball.velocity.x || game.stepped(
            dt as int,
        ).ball.velocity.x == -game.ball.velocity.x,
        game.stepped(dt as int).ball.velocity.y == game.ball.velocity.y || game.stepped(
            dt as int,
        ).ball.velocity.y == -game.ball.velocity.y,
        game.stepped(dt as int).ball.reversible(),
{
}

/// A ball whose right edge lies at or beyond the right wall's face once it
/// has flown had its horizontal velocity reversed by that wall in the same step.
pub proof fn law_right_wall_is_answered_at_once(ball: Ball, dt: nat)
    requires
        ball.reversible(),
    ensures
        ball.moved(dt as int).reaches_right_wall() ==> ball.moved(
            dt as int,
        ).after_top_and_bottom().after_right_wall().velocity.x == -ball.velocity.x,
{
}

/// No report to the loop changes a size.
pub proof fn law_play_keeps_sizes(game: Game, reports: Seq<LoopEvent>)
    ensures
        game.after_reports(reports).has_initial_sizes() == game.has_initial_sizes(),
    decreases reports.len(),
{
    if reports.len() > 0 {
        let before = game.after_reports(reports.drop_last());
        law_play_keeps_sizes(game, reports.drop_last());
        match reports.last() {
            LoopEvent::Input(events) => {
                law_input_keeps_sizes(before, events@);
            },
            _ => {},
        }
    }
}

/// A loop that has ended stays ended, and the game with it.
pub proof fn law_terminated_is_final(game: Game, reports: Seq<LoopEvent>)
    requires
        game.state == LoopState::Terminated,
    ensures
        game.after_reports(reports) == game,
    decreases reports.len(),
{
    if reports.len() > 0 {
        law_terminated_is_final(game, reports.drop_last());
    }
}

/// What play never breaks: the bodies have the sizes of the start, the
/// paddle stands between the walls, and its intent is within the limits.
pub open spec fn sound(game: Game) -> bool {
    &&& game.has_initial_sizes()
    &&& game.paddle.within_band()
    &&& game.paddle.intent_in_range()
}

/// Input leaves a sound game sound.
pub proof fn law_input_keeps_sound(game: Game, events: Seq<InputEvent>)
    requires
        sound(game),
    ensures
        sound(game.after_events(events)),
    decreases events.len(),
{
    if events.len() > 0 {
        law_input_keeps_sound(game.after_command(command_for(events[0])), events.drop_first());
    }
}

/// A step over any span leaves a sound game sound.
pub proof fn law_step_keeps_sound(game: Game, dt: nat)
    requires
        sound(game),
    ensures
        sound(game.stepped(dt as int)),
{
}

/// Whatever is reported to the loop, a sound game stays sound.
pub proof fn law_play_keeps_sound(game: Game, reports: Seq<LoopEvent>)
    requires
        sound(game),
    ensures
        sound(game.after_reports(reports)),
    decreases reports.len(),
{
    if reports.len() > 0 {
        let before = game.after_reports(reports.drop_last());
        law_play_keeps_sound(game, reports.drop_last());
        match reports.last() {
            LoopEvent::Input(events) => {
                law_input_keeps_sound(before, events@);
            },
            LoopEvent::Elapsed(elapsed) => {
                law_step_keeps_sound(before, clamped_delta(elapsed as int) as nat);
            },
            _ => {},
        }
    }
}

/// Every game that play can reach from the start is sound: after every
/// sequence of input and of measured times, the paddle stands between the walls.
pub proof fn law_reachable_games_are_sound(game: Game)
    requires
        game.reachable(),
    ensures
        sound(game),
{
    let reports = choose|reports: Seq<LoopEvent>| game == Game::initial().after_reports(reports);
    law_play_keeps_sound(Game::initial(), reports);
}

/// Restart puts a game with the sizes of the start back to the start
/// exactly: both bodies are as `initialize` makes them. What the game was
/// before has no part in it.
pub proof fn law_restart_restores_start(game: Game)
    requires
        game.has_initial_sizes(),
    ensures
        game.after_command(Command::Restart).paddle == initial_paddle(),
        game.after_command(Command::Restart).ball == initial_ball(),
        game.after_command(Command::Restart).state == game.state,
        game.after_command(Command::Restart).after_command(Command::Restart) == game.after_command(
            Command::Restart,
        ),
{
}

/// Restart from any game that play can reach, while the loop runs, gives the
/// game of the start.
pub proof fn law_restart_from_reachable_is_start(game: Game)
    requires
        game.reachable(),
        game.state == LoopState::Running,
    ensures
        game.after_command(Command::Restart) == Game::initial(),
{
    law_reachable_games_are_sound(game);
}

/// A frame measured at the ceiling or longer steps the game exactly as one
/// measured at the ceiling.
pub proof fn law_long_frames_step_by_ceiling(game: Game, elapsed: nat)
    requires
        elapsed >= MAX_DELTA_NANOS,
    ensures
        clamped_delta(elapsed as int) == MAX_DELTA_NANOS,
        game.updated(elapsed as int) == game.updated(MAX_DELTA_NANOS as int),
        game.updated(elapsed as int) == game.stepped(MAX_DELTA_NANOS as int),
        game.steppable(clamped_delta(elapsed as int)) == game.steppable(MAX_DELTA_NANOS as int),
{
}

} // verus!
