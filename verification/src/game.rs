//! The game: its arena, its two bodies, and the rules that move them.

pub mod arena;
pub mod ball;
pub mod event_result;
pub mod frame;
pub mod input;
pub mod laws;
pub mod motion;
pub mod paddle;
pub mod pacer;
pub mod point;

use vstd::prelude::*;
use crate::game::arena::{
    BALL_HEIGHT, BALL_INITIAL_VX, BALL_INITIAL_VY, BALL_INITIAL_X, BALL_INITIAL_Y, BALL_WIDTH,
    PADDLE_HEIGHT, PADDLE_INITIAL_X, PADDLE_INITIAL_Y, PADDLE_WIDTH, WALL_THICKNESS,
    WINDOW_HEIGHT, WINDOW_WIDTH,
};
use crate::game::ball::Ball;
use crate::game::event_result::EventResult;
use crate::game::frame::{Frame, Rectangle};
use crate::game::input::{asks_to_quit, command_for, translate, Command, InputEvent};
use crate::game::pacer::{
    clamp_delta, clamped_delta, frame_due, frame_is_due, LoopAction, LoopEvent, LoopState,
};
use crate::game::paddle::Paddle;
use crate::game::point::Point;

verus! {

/// The paddle, the ball, and whether the loop around them still runs.
#[derive(Clone, Copy, Debug, PartialEq, Eq, Structural)]
pub struct Game {
    pub paddle: Paddle,
    pub ball: Ball,
    pub state: LoopState,
}

/// Where the paddle starts: at the left, half way down, at rest.
pub open spec fn initial_paddle() -> Paddle {
    Paddle {
        position: Point { x: PADDLE_INITIAL_X as i32, y: PADDLE_INITIAL_Y as i32 },
        direction: 0,
        width: PADDLE_WIDTH,
        height: PADDLE_HEIGHT,
    }
}

/// Where the ball starts: in the middle, flying right and down.
pub open spec fn initial_ball() -> Ball {
    Ball {
        position: Point { x: BALL_INITIAL_X as i32, y: BALL_INITIAL_Y as i32 },
        velocity: Point { x: BALL_INITIAL_VX as i32, y: BALL_INITIAL_VY as i32 },
        width: BALL_WIDTH,
        height: BALL_HEIGHT,
    }
}

impl Game {
    /// The game as it starts.
    pub open spec fn initial() -> Game {
        Game { paddle: initial_paddle(), ball: initial_ball(), state: LoopState::Running }
    }

    /// Both bodies have the sizes they started with. No command and no step
    /// changes a size, so this holds of every game that play has reached.
    pub open spec fn has_initial_sizes(self) -> bool {
        &&& self.paddle.width == PADDLE_WIDTH
        &&& self.paddle.height == PADDLE_HEIGHT
        &&& self.ball.width == BALL_WIDTH
        &&& self.ball.height == BALL_HEIGHT
    }

    /// The game with both bodies back at their starting places, the ball at
    /// its starting velocity and the paddle at rest.
    pub open spec fn restarted(self) -> Game {
        Game {
            paddle: Paddle {
                position: initial_paddle().position,
                direction: 0,
                width: self.paddle.width,
                height: self.paddle.height,
            },
            ball: Ball {
                position: initial_ball().position,
                velocity: initial_ball().velocity,
                width: self.ball.width,
                height: self.ball.height,
            },
            state: self.state,
        }
    }

    /// The game after one command. `Quit` changes nothing here: it is the
    /// loop that ends.
    pub open spec fn after_command(self, command: Command) -> Game {
        match command {
            Command::Quit => self,
            Command::IntentUp => Game {
                paddle: self.paddle.nudged_up(),
                ball: self.ball,
                state: self.state,
            },
            Command::IntentDown => Game {
                paddle: self.paddle.nudged_down(),
                ball: self.ball,
                state: self.state,
            },
            Command::Restart => self.restarted(),
            Command::NoOpWithReset => Game {
                paddle: self.paddle.halted(),
                ball: self.ball,
                state: self.state,
            },
        }
    }

    /// The game after `events`, taken in order up to the first that asks to
    /// quit; what follows that one is not looked at.
    pub open spec fn after_events(self, events: Seq<InputEvent>) -> Game
        decreases events.len(),
    {
        if events.len() == 0 || command_for(events[0]) == Command::Quit {
            self
        } else {
            self.after_command(command_for(events[0])).after_events(events.drop_first())
        }
    }

    /// The step over `dt` nanoseconds is defined: the paddle fits between the
    /// walls, the ball's new place can be written down, and its velocity can
    /// be reversed.
    pub open spec fn steppable(self, dt: int) -> bool {
        &&& self.paddle.fits_arena()
        &&& self.ball.can_move(dt)
        &&& self.ball.reversible()
    }

    /// The game one step of `dt` nanoseconds later. The paddle moves first;
    /// the ball then flies, meets the top and bottom walls, the right wall,
    /// and last the paddle where it now stands.
    pub open spec fn stepped(self, dt: int) -> Game {
        let paddle = self.paddle.moved(dt);
        Game {
            paddle,
            ball: self.ball.moved(dt).after_top_and_bottom().after_right_wall().after_paddle(
                paddle,
            ),
            state: self.state,
        }
    }

    /// The game after a frame that was measured to last `elapsed`
    /// nanoseconds: one step over the clamped span.
    pub open spec fn updated(self, elapsed: int) -> Game {
        self.stepped(clamped_delta(elapsed))
    }

    /// The picture of the game.
    pub open spec fn frame(self) -> Frame {
        Frame {
            top_wall: Rectangle { x: 0, y: 0, width: WINDOW_WIDTH, height: WALL_THICKNESS },
            bottom_wall: Rectangle {
                x: 0,
                y: (WINDOW_HEIGHT - WALL_THICKNESS) as i32,
                width: WINDOW_WIDTH,
                height: WALL_THICKNESS,
            },
            right_wall: Rectangle {
                x: (WINDOW_WIDTH - WALL_THICKNESS) as i32,
                y: 0,
                width: WALL_THICKNESS,
                height: WINDOW_HEIGHT,
            },
            ball: Rectangle {
                x: self.ball.position.x,
                y: self.ball.position.y,
                width: self.ball.width,
                height: self.ball.height,
            },
            paddle: Rectangle {
                x: self.paddle.position.x,
                y: self.paddle.position.y,
                width: self.paddle.width,
                height: self.paddle.height,
            },
        }
    }

    /// The game with its loop ended.
    pub open spec fn terminated(self) -> Game {
        Game { paddle: self.paddle, ball: self.ball, state: LoopState::Terminated }
    }

    /// What the loop makes of `event`: the game afterwards, and what to do next.
    ///
    /// A loop that has ended stays ended. While it runs: losing the input
    /// source or the clock ends it; input is applied in order and ends it if
    /// any of it asks to quit; a clock reading short of the frame floor is
    /// asked for again; any other reading steps the game and has it drawn.
    pub open spec fn next(self, event: LoopEvent) -> (Game, LoopAction) {
        if self.state == LoopState::Terminated {
            (self, LoopAction::Stop)
        } else {
            match event {
                LoopEvent::InputUnavailable => (self.terminated(), LoopAction::Stop),
                LoopEvent::Input(events) => if asks_to_quit(events@) {
                    (self.after_events(events@).terminated(), LoopAction::Stop)
                } else {
                    (self.after_events(events@), LoopAction::MeasureTime)
                },
                LoopEvent::ClockFailed => (self.terminated(), LoopAction::Stop),
                LoopEvent::Elapsed(elapsed) => if frame_is_due(elapsed as int) {
                    (self.updated(elapsed as int), LoopAction::Render(
                        self.updated(elapsed as int).frame(),
                    ))
                } else {
                    (self, LoopAction::MeasureTime)
                },
            }
        }
    }

    /// The game after the loop has taken `reports`, one after the other.
    pub open spec fn after_reports(self, reports: Seq<LoopEvent>) -> Game
        decreases reports.len(),
    {
        if reports.len() == 0 {
            self
        } else {
            self.after_reports(reports.drop_last()).next(reports.last()).0
        }
    }

    /// Play can lead to this game from the start.
    pub open spec fn reachable(self) -> bool {
        exists|reports: Seq<LoopEvent>| self == Game::initial().after_reports(reports)
    }

    /// Whether the loop can take `event`: a clock reading that leads to a
    /// step must lead to one that is defined.
    pub open spec fn accepts(self, event: LoopEvent) -> bool {
        match event {
            LoopEvent::Elapsed(elapsed) => self.state == LoopState::Running && frame_is_due(
                elapsed as int,
            ) ==> self.steppable(clamped_delta(elapsed as int)),
            _ => true,
        }
    }

    /// Sets up the game as it starts, with its loop running.
    pub fn initialize() -> (game: Game)
        ensures
            game == Game::initial(),
    {
        let paddle_position = Point::new(PADDLE_INITIAL_X as i32, PADDLE_INITIAL_Y as i32);
        let paddle = Paddle::new(paddle_position, PADDLE_WIDTH, PADDLE_HEIGHT);
        let ball_position = Point::new(BALL_INITIAL_X as i32, BALL_INITIAL_Y as i32);
        let ball_velocity = Point::new(BALL_INITIAL_VX as i32, BALL_INITIAL_VY as i32);
        let ball = Ball::new(ball_position, ball_velocity, BALL_WIDTH, BALL_HEIGHT);
        Game { paddle, ball, state: LoopState::Running }
    }

    /// Puts both bodies back where they started; their sizes stay.
    pub fn restart(&mut self)
        ensures
            *final(self) == old(self).restarted(),
            old(self).has_initial_sizes() ==> final(self).paddle == initial_paddle()
                && final(self).ball == initial_ball(),
    {
        self.ball.position = Point::new(BALL_INITIAL_X as i32, BALL_INITIAL_Y as i32);
        self.ball.velocity = Point::new(BALL_INITIAL_VX as i32, BALL_INITIAL_VY as i32);
        self.paddle.position = Point::new(PADDLE_INITIAL_X as i32, PADDLE_INITIAL_Y as i32);
        self.paddle.direction = 0;
    }

    /// Carries out one command.
    pub fn apply(&mut self, command: Command)
        ensures
            *final(self) == old(self).after_command(command),
            old(self).paddle.intent_in_range() ==> final(self).paddle.intent_in_range(),
            final(self).has_initial_sizes() == old(self).has_initial_sizes(),
            final(self).state == old(self).state,
    {
        match command {
            Command::Quit => {},
            Command::IntentUp => {
                self.paddle.nudge_up();
            },
            Command::IntentDown => {
                self.paddle.nudge_down();
            },
            Command::Restart => {
                self.restart();
            },
            Command::NoOpWithReset => {
                self.paddle.halt();
            },
        }
    }

    /// Takes the pending input in order. The first event that asks to quit
    /// ends the round at once: the events after it are not applied.
    pub fn process_input(&mut self, events: &Vec<InputEvent>) -> (result: EventResult)
        ensures
            *final(self) == old(self).after_events(events@),
            result == EventResult::End <==> asks_to_quit(events@),
            result == EventResult::Continue <==> !asks_to_quit(events@),
            old(self).paddle.intent_in_range() ==> final(self).paddle.intent_in_range(),
            final(self).has_initial_sizes() == old(self).has_initial_sizes(),
            final(self).state == old(self).state,
    {
        let mut i: usize = 0;
        assert(events@.skip(0) =~= events@);
        while i < events.len()
            invariant
                0 <= i <= events.len(),
                old(self).paddle.intent_in_range() ==> self.paddle.intent_in_range(),
                self.has_initial_sizes() == old(self).has_initial_sizes(),
                self.state == old(self).state,
                self.after_events(events@.skip(i as int)) == old(self).after_events(events@),
                forall|j: int| 0 <= j < i ==> command_for(#[trigger] events@[j]) != Command::Quit,
            decreases events.len() - i,
        {
            let command = translate(events[i]);
            proof {
                let rest = events@.skip(i as int);
                assert(rest[0] == events@[i as int]);
                assert(rest.drop_first() =~= events@.skip(i as int + 1));
            }
            if command == Command::Quit {
                return EventResult::End;
            }
            self.apply(command);
            i += 1;
        }
        assert(events@.skip(i as int).len() == 0);
        EventResult::Continue
    }

    /// Tells whether `step` can take the game through `dt` nanoseconds.
    pub fn can_step(&self, dt: u64) -> (ok: bool)
        ensures
            ok == self.steppable(dt as int),
    {
        self.paddle.can_advance() && self.ball.can_advance(dt) && self.ball.can_reverse()
    }

    /// Tells whether `update_game` can take a frame measured at `elapsed` nanoseconds.
    pub fn can_update(&self, elapsed: u64) -> (ok: bool)
        ensures
            ok == self.steppable(clamped_delta(elapsed as int)),
    {
        self.can_step(clamp_delta(elapsed))
    }

    /// Advances the game by `dt` nanoseconds: the paddle moves and is held
    /// between the walls; the ball flies unhindered and then has its velocity
    /// reversed by the walls and the paddle that it has run into.
    pub fn step(&mut self, dt: u64)
        requires
            old(self).steppable(dt as int),
        ensures
            *final(self) == old(self).stepped(dt as int),
            final(self).paddle.within_band(),
            old(self).paddle.blocked(dt as int) ==> final(self).paddle.direction == 0,
            final(self).ball.position == old(self).ball.moved(dt as int).position,
            final(self).ball.velocity.x == old(self).ball.velocity.x || final(self).ball.velocity.x
                == -old(self).ball.velocity.x,
            final(self).ball.velocity.y == old(self).ball.velocity.y || final(self).ball.velocity.y
                == -old(self).ball.velocity.y,
            final(self).ball.reversible(),
            final(self).paddle.fits_arena(),
            old(self).paddle.intent_in_range() ==> final(self).paddle.intent_in_range(),
            final(self).has_initial_sizes() == old(self).has_initial_sizes(),
            final(self).state == old(self).state,
    {
        self.paddle.advance(dt);
        self.ball.advance(dt);
        self.ball.bounce_off_top_and_bottom();
        self.ball.bounce_off_right_wall();
        self.ball.bounce_off_paddle(&self.paddle);
    }

    /// Steps the game for a frame that was measured to last `elapsed`
    /// nanoseconds, but by no more than the ceiling.
    pub fn update_game(&mut self, elapsed: u64)
        requires
            old(self).steppable(clamped_delta(elapsed as int)),
        ensures
            *final(self) == old(self).updated(elapsed as int),
            final(self).paddle.within_band(),
            final(self).has_initial_sizes() == old(self).has_initial_sizes(),
            final(self).state == old(self).state,
    {
        let dt = clamp_delta(elapsed);
        self.step(dt);
    }

    /// Lays out the picture of the game: the walls, the ball, the paddle.
    pub fn generate_output(&self) -> (frame: Frame)
        ensures
            frame == self.frame(),
    {
        Frame {
            top_wall: Rectangle { x: 0, y: 0, width: WINDOW_WIDTH, height: WALL_THICKNESS },
            bottom_wall: Rectangle {
                x: 0,
                y: (WINDOW_HEIGHT - WALL_THICKNESS) as i32,
                width: WINDOW_WIDTH,
                height: WALL_THICKNESS,
            },
            right_wall: Rectangle {
                x: (WINDOW_WIDTH - WALL_THICKNESS) as i32,
                y: 0,
                width: WALL_THICKNESS,
                height: WINDOW_HEIGHT,
            },
            ball: Rectangle {
                x: self.ball.position.x,
                y: self.ball.position.y,
                width: self.ball.width,
                height: self.ball.height,
            },
            paddle: Rectangle {
                x: self.paddle.position.x,
                y: self.paddle.position.y,
                width: self.paddle.width,
                height: self.paddle.height,
            },
        }
    }

    /// Takes one report from the world and says what the loop does next.
    pub fn handle(&mut self, event: LoopEvent) -> (action: LoopAction)
        requires
            old(self).accepts(event),
        ensures
            (*final(self), action) == old(self).next(event),
            old(self).state == LoopState::Terminated ==> *final(self) == *old(self),
            action == LoopAction::Stop <==> final(self).state == LoopState::Terminated,
    {
        match self.state {
            LoopState::Terminated => LoopAction::Stop,
            LoopState::Running => match event {
                LoopEvent::InputUnavailable => {
                    self.state = LoopState::Terminated;
                    LoopAction::Stop
                },
                LoopEvent::Input(events) => {
                    match self.process_input(&events) {
                        EventResult::End => {
                            self.state = LoopState::Terminated;
                            LoopAction::Stop
                        },
                        EventResult::Continue => LoopAction::MeasureTime,
                    }
                },
                LoopEvent::ClockFailed => {
                    self.state = LoopState::Terminated;
                    LoopAction::Stop
                },
                LoopEvent::Elapsed(elapsed) => {
                    if frame_due(elapsed) {
                        self.update_game(elapsed);
                        LoopAction::Render(self.generate_output())
                    } else {
                        LoopAction::MeasureTime
                    }
                },
            },
        }
    }
}

} // verus!
