//! The ball: the body that flies on its own and bounces.

use vstd::prelude::*;
use crate::game::arena::{bottom_face, right_face, top_face, WALL_THICKNESS, WINDOW_HEIGHT, WINDOW_WIDTH};
use crate::game::motion::{displacement, travel};
use crate::game::paddle::Paddle;
use crate::game::point::Point;

verus! {

/// `position` is the top-left corner; `velocity` is in units per second.
#[derive(Clone, Copy, Debug, PartialEq, Eq, Structural)]
pub struct Ball {
    pub position: Point,
    pub velocity: Point,
    pub width: u32,
    pub height: u32,
}

impl Ball {
    /// A ball at `position`, flying at `velocity`.
    pub fn new(position: Point, velocity: Point, width: u32, height: u32) -> (ball: Ball)
        ensures
            ball == (Ball { position, velocity, width, height }),
    {
        Ball { position, velocity, width, height }
    }

    /// Where the ball's velocity carries its left edge in `dt` nanoseconds.
    pub open spec fn target_x(self, dt: int) -> int {
        self.position.x + displacement(self.velocity.x as int, dt)
    }

    /// Where the ball's velocity carries its top edge in `dt` nanoseconds.
    pub open spec fn target_y(self, dt: int) -> int {
        self.position.y + displacement(self.velocity.y as int, dt)
    }

    /// The place that the ball reaches in `dt` nanoseconds can be written down.
    pub open spec fn can_move(self, dt: int) -> bool {
        &&& i32::MIN <= self.target_x(dt) <= i32::MAX
        &&& i32::MIN <= self.target_y(dt) <= i32::MAX
    }

    /// Each component of the velocity has an opposite.
    pub open spec fn reversible(self) -> bool {
        self.velocity.x > i32::MIN && self.velocity.y > i32::MIN
    }

    /// The ball after `dt` nanoseconds of free flight. Nothing holds it back:
    /// it may come to lie beyond a wall's face.
    pub open spec fn moved(self, dt: int) -> Ball {
        Ball {
            position: Point { x: self.target_x(dt) as i32, y: self.target_y(dt) as i32 },
            velocity: self.velocity,
            width: self.width,
            height: self.height,
        }
    }

    /// The top edge is at or above the top wall's face, and the ball is rising.
    pub open spec fn hits_top(self) -> bool {
        self.position.y <= top_face() && self.velocity.y < 0
    }

    /// The bottom edge is at or below the bottom wall's face, and the ball is falling.
    pub open spec fn hits_bottom(self) -> bool {
        self.position.y + self.height >= bottom_face() && self.velocity.y > 0
    }

    /// The right edge is at or beyond the right wall's face.
    pub open spec fn reaches_right_wall(self) -> bool {
        self.position.x + self.width >= right_face()
    }

    /// The ball's top-left corner lies strictly inside the paddle's rectangle,
    /// and the ball flies leftward.
    pub open spec fn strikes(self, paddle: Paddle) -> bool {
        &&& paddle.position.x < self.position.x < paddle.position.x + paddle.width
        &&& paddle.position.y < self.position.y < paddle.position.y + paddle.height
        &&& self.velocity.x < 0
    }

    /// The ball with its horizontal velocity reversed.
    pub open spec fn turned_back(self) -> Ball {
        Ball {
            position: self.position,
            velocity: Point { x: (-self.velocity.x) as i32, y: self.velocity.y },
            width: self.width,
            height: self.height,
        }
    }

    /// The ball with its vertical velocity reversed.
    pub open spec fn turned_over(self) -> Ball {
        Ball {
            position: self.position,
            velocity: Point { x: self.velocity.x, y: (-self.velocity.y) as i32 },
            width: self.width,
            height: self.height,
        }
    }

    /// The ball after it has met the top and bottom walls.
    pub open spec fn after_top_and_bottom(self) -> Ball {
        if self.hits_top() || self.hits_bottom() {
            self.turned_over()
        } else {
            self
        }
    }

    /// The ball after it has met the right wall.
    pub open spec fn after_right_wall(self) -> Ball {
        if self.reaches_right_wall() {
            self.turned_back()
        } else {
            self
        }
    }

    /// The ball after it has met the paddle.
    pub open spec fn after_paddle(self, paddle: Paddle) -> Ball {
        if self.strikes(paddle) {
            self.turned_back()
        } else {
            self
        }
    }

    /// Tells whether `advance` can take the ball through `dt` nanoseconds.
    pub fn can_advance(&self, dt: u64) -> (ok: bool)
        ensures
            ok == self.can_move(dt as int),
    {
        let x: i128 = (self.position.x as i128) + travel(self.velocity.x as i64, dt);
        let y: i128 = (self.position.y as i128) + travel(self.velocity.y as i64, dt);
        let least: i128 = i32::MIN as i128;
        let most: i128 = i32::MAX as i128;
        least <= x && x <= most && least <= y && y <= most
    }

    /// Tells whether both components of the velocity can be reversed.
    pub fn can_reverse(&self) -> (ok: bool)
        ensures
            ok == self.reversible(),
    {
        self.velocity.x > i32::MIN && self.velocity.y > i32::MIN
    }

    /// Lets the ball fly for `dt` nanoseconds.
    pub fn advance(&mut self, dt: u64)
        requires
            old(self).can_move(dt as int),
        ensures
            *final(self) == old(self).moved(dt as int),
    {
        let x: i128 = (self.position.x as i128) + travel(self.velocity.x as i64, dt);
        let y: i128 = (self.position.y as i128) + travel(self.velocity.y as i64, dt);
        self.position.x = x as i32;
        self.position.y = y as i32;
    }

    /// Reverses the vertical velocity where the ball has run into the top or
    /// the bottom wall. A ball that already flies away from the wall it
    /// touches is left alone.
    pub fn bounce_off_top_and_bottom(&mut self)
        requires
            old(self).reversible(),
        ensures
            *final(self) == old(self).after_top_and_bottom(),
            final(self).velocity.x == old(self).velocity.x,
            final(self).velocity.y == (if old(self).hits_top() || old(self).hits_bottom() {
                -old(self).velocity.y
            } else {
                old(self).velocity.y as int
            }),
            final(self).reversible(),
    {
        let y: i64 = self.position.y as i64;
        let top: i64 = WALL_THICKNESS as i64;
        let bottom: i64 = (WINDOW_HEIGHT as i64) - (WALL_THICKNESS as i64) - (self.height as i64);
        let rising = self.velocity.y < 0;
        let falling = self.velocity.y > 0;
        if (y <= top && rising) || (y >= bottom && falling) {
            self.velocity.y = -self.velocity.y;
        }
    }

    /// Reverses the horizontal velocity where the ball has reached the right
    /// wall, whichever way it flies.
    pub fn bounce_off_right_wall(&mut self)
        requires
            old(self).reversible(),
        ensures
            *final(self) == old(self).after_right_wall(),
            final(self).velocity.y == old(self).velocity.y,
            final(self).velocity.x == (if old(self).reaches_right_wall() {
                -old(self).velocity.x
            } else {
                old(self).velocity.x as int
            }),
            final(self).reversible(),
    {
        let x: i64 = self.position.x as i64;
        let limit: i64 = (WINDOW_WIDTH as i64) - (WALL_THICKNESS as i64) - (self.width as i64);
        if x >= limit {
            self.velocity.x = -self.velocity.x;
        }
    }

    /// Reverses the horizontal velocity where the ball, flying leftward, has
    /// its top-left corner strictly inside the paddle.
    pub fn bounce_off_paddle(&mut self, paddle: &Paddle)
        requires
            old(self).reversible(),
        ensures
            *final(self) == old(self).after_paddle(*paddle),
            final(self).velocity.y == old(self).velocity.y,
            final(self).velocity.x == (if old(self).strikes(*paddle) {
                -old(self).velocity.x
            } else {
                old(self).velocity.x as int
            }),
            final(self).reversible(),
    {
        let x: i64 = self.position.x as i64;
        let y: i64 = self.position.y as i64;
        let left: i64 = paddle.position.x as i64;
        let right: i64 = left + (paddle.width as i64);
        let top: i64 = paddle.position.y as i64;
        let bottom: i64 = top + (paddle.height as i64);
        if left < x && x < right && top < y && y < bottom && self.velocity.x < 0 {
            self.velocity.x = -self.velocity.x;
        }
    }
}

} // verus!
