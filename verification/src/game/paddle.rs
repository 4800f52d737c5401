//! The paddle: the body that the player steers up and down.

use vstd::prelude::*;
use crate::game::arena::{bottom_face, top_face, MAX_INTENT, PADDLE_SPEED, WALL_THICKNESS, WINDOW_HEIGHT};
use crate::game::motion::{displacement, travel};
use crate::game::point::Point;

verus! {

/// `position` is the top-left corner. `direction` is the player's intent:
/// negative is up, positive is down, zero is rest; its size is a multiple of
/// the paddle's unit speed.
#[derive(Clone, Copy, Debug, PartialEq, Eq, Structural)]
pub struct Paddle {
    pub position: Point,
    pub direction: i32,
    pub width: u32,
    pub height: u32,
}

impl Paddle {
    /// A paddle at rest.
    pub fn new(position: Point, width: u32, height: u32) -> (paddle: Paddle)
        ensures
            paddle == (Paddle { position, direction: 0, width, height }),
    {
        Paddle { position, direction: 0, width, height }
    }

    /// The largest `y` at which the paddle still stands clear of the bottom wall.
    pub open spec fn bottom_limit(self) -> int {
        bottom_face() - self.height
    }

    /// The paddle is no taller than the gap between the top and bottom walls.
    pub open spec fn fits_arena(self) -> bool {
        top_face() <= self.bottom_limit()
    }

    /// The paddle stands between the top and bottom walls.
    pub open spec fn within_band(self) -> bool {
        top_face() <= self.position.y <= self.bottom_limit()
    }

    /// The intent is one that the input rules can produce.
    pub open spec fn intent_in_range(self) -> bool {
        -MAX_INTENT <= self.direction <= MAX_INTENT
    }

    /// Where the paddle's intent would carry it in `dt` nanoseconds, walls aside.
    pub open spec fn target_y(self, dt: int) -> int {
        self.position.y + displacement(self.direction * PADDLE_SPEED, dt)
    }

    /// Whether the walls stop the paddle short of `target_y(dt)`.
    pub open spec fn blocked(self, dt: int) -> bool {
        self.target_y(dt) < top_face() || self.target_y(dt) > self.bottom_limit()
    }

    /// The paddle after `dt` nanoseconds: moved by its intent, held between the
    /// walls, and at rest if a wall stopped it.
    pub open spec fn moved(self, dt: int) -> Paddle {
        let target = self.target_y(dt);
        if target < top_face() {
            Paddle {
                position: Point { x: self.position.x, y: top_face() as i32 },
                direction: 0,
                width: self.width,
                height: self.height,
            }
        } else if target > self.bottom_limit() {
            Paddle {
                position: Point { x: self.position.x, y: self.bottom_limit() as i32 },
                direction: 0,
                width: self.width,
                height: self.height,
            }
        } else {
            Paddle {
                position: Point { x: self.position.x, y: target as i32 },
                direction: self.direction,
                width: self.width,
                height: self.height,
            }
        }
    }

    /// The paddle with its intent one step further up, but no further than the limit.
    pub open spec fn nudged_up(self) -> Paddle {
        Paddle {
            position: self.position,
            direction: if self.direction > -MAX_INTENT {
                (self.direction - 1) as i32
            } else {
                self.direction
            },
            width: self.width,
            height: self.height,
        }
    }

    /// The paddle with its intent one step further down, but no further than the limit.
    pub open spec fn nudged_down(self) -> Paddle {
        Paddle {
            position: self.position,
            direction: if self.direction < MAX_INTENT {
                (self.direction + 1) as i32
            } else {
                self.direction
            },
            width: self.width,
            height: self.height,
        }
    }

    /// The paddle with no intent.
    pub open spec fn halted(self) -> Paddle {
        Paddle { position: self.position, direction: 0, width: self.width, height: self.height }
    }

    /// Tells whether the paddle is short enough to stand between the walls.
    pub fn can_advance(&self) -> (ok: bool)
        ensures
            ok == self.fits_arena(),
    {
        self.height <= WINDOW_HEIGHT - 2 * WALL_THICKNESS
    }

    /// Steps the intent up by one, unless it is at its limit.
    pub fn nudge_up(&mut self)
        ensures
            *final(self) == old(self).nudged_up(),
            old(self).intent_in_range() ==> final(self).intent_in_range(),
    {
        if self.direction > -MAX_INTENT {
            self.direction -= 1;
        }
    }

    /// Steps the intent down by one, unless it is at its limit.
    pub fn nudge_down(&mut self)
        ensures
            *final(self) == old(self).nudged_down(),
            old(self).intent_in_range() ==> final(self).intent_in_range(),
    {
        if self.direction < MAX_INTENT {
            self.direction += 1;
        }
    }

    /// Drops the intent.
    pub fn halt(&mut self)
        ensures
            *final(self) == old(self).halted(),
    {
        self.direction = 0;
    }

    /// Moves the paddle by its intent for `dt` nanoseconds, then holds it
    /// between the walls. A paddle that a wall stopped comes to rest.
    pub fn advance(&mut self, dt: u64)
        requires
            old(self).fits_arena(),
        ensures
            *final(self) == old(self).moved(dt as int),
            final(self).within_band(),
            old(self).blocked(dt as int) ==> final(self).direction == 0,
            !old(self).blocked(dt as int) ==> final(self).direction == old(self).direction
                && final(self).position.y == old(self).target_y(dt as int),
            final(self).position.x == old(self).position.x,
            final(self).width == old(self).width,
            final(self).height == old(self).height,
    {
        let speed: i64 = (self.direction as i64) * (PADDLE_SPEED as i64);
        let target: i128 = (self.position.y as i128) + travel(speed, dt);
        let top: i128 = WALL_THICKNESS as i128;
        let bottom: i128 = (WINDOW_HEIGHT as i128) - (WALL_THICKNESS as i128) - (self.height as i128);
        if target < top {
            self.position.y = WALL_THICKNESS as i32;
            self.direction = 0;
        } else if target > bottom {
            self.position.y = bottom as i32;
            self.direction = 0;
        } else {
            self.position.y = target as i32;
        }
    }
}

} // verus!
