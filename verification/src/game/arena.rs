//! The fixed measures of the arena and of the bodies that start in it.

use vstd::prelude::*;

verus! {

/// Width of the arena.
pub const WINDOW_WIDTH: u32 = 1024;

/// Height of the arena.
pub const WINDOW_HEIGHT: u32 = 768;

/// Thickness of each of the three walls (top, bottom, right).
pub const WALL_THICKNESS: u32 = 10;

/// Where the paddle's left edge starts.
pub const PADDLE_INITIAL_X: u32 = 10;

/// Where the paddle's top edge starts: half way down the arena.
pub const PADDLE_INITIAL_Y: u32 = WINDOW_HEIGHT / 2;

/// Width of the paddle at the start.
pub const PADDLE_WIDTH: u32 = 5;

/// Height of the paddle at the start.
pub const PADDLE_HEIGHT: u32 = 40;

/// Units per second that the paddle covers for each unit of intent.
pub const PADDLE_SPEED: u32 = 300;

/// The strongest intent the paddle takes, in either direction.
pub const MAX_INTENT: i32 = 5;

/// Where the ball's left edge starts: the middle of the arena.
pub const BALL_INITIAL_X: u32 = WINDOW_WIDTH / 2;

/// Where the ball's top edge starts: the middle of the arena.
pub const BALL_INITIAL_Y: u32 = WINDOW_HEIGHT / 2;

/// Horizontal speed of the ball at the start, in units per second.
pub const BALL_INITIAL_VX: u32 = 400;

/// Vertical speed of the ball at the start, in units per second.
pub const BALL_INITIAL_VY: u32 = 100;

/// Width of the ball at the start.
pub const BALL_WIDTH: u32 = 10;

/// Height of the ball at the start.
pub const BALL_HEIGHT: u32 = 10;

/// The y coordinate of the top wall's inner face.
pub open spec fn top_face() -> int {
    WALL_THICKNESS as int
}

/// The y coordinate of the bottom wall's inner face.
pub open spec fn bottom_face() -> int {
    WINDOW_HEIGHT - WALL_THICKNESS
}

/// The x coordinate of the right wall's inner face.
pub open spec fn right_face() -> int {
    WINDOW_WIDTH - WALL_THICKNESS
}

} // verus!
