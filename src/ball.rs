//! The ball: anchored on the paddle until launched, then moving by its velocity.
use vstd::prelude::*;

use crate::config::Config;
use crate::glyph::{cp437_of, to_cp437};
use crate::paddle::Paddle;
use crate::screen::{Cell, CellKind};
use crate::velocity::Velocity;
use crate::wall::{reflected, Boundry};

verus! {

#[derive(Clone, Copy, Debug, PartialEq, Eq)]
pub struct Ball {
    pub x: isize,
    pub y: isize,
    pub velocity: Velocity,
    /// In flight; an unlaunched ball rides on the paddle.
    pub launched: bool,
}

/// The velocity a launch gives: upwards, and sideways in the direction the
/// paddle is moving, to the right when it stands still.
pub open spec fn launch_velocity(paddle_vx: int) -> Velocity {
    Velocity { x: if paddle_vx >= 0 { 1isize } else { -1isize }, y: -1isize }
}

impl Ball {
    pub fn new(x: isize, y: isize) -> (r: Ball)
        ensures
            r == (Ball { x, y, velocity: Velocity { x: 0, y: 0 }, launched: false }),
    {
        Ball { x, y, velocity: Velocity { x: 0, y: 0 }, launched: false }
    }

    /// Where the ball will be after one more step.
    pub open spec fn next_pos(&self) -> (int, int) {
        (self.x + self.velocity.x, self.y + self.velocity.y)
    }

    /// The next position has machine coordinates.
    pub open spec fn can_step(&self) -> bool {
        &&& isize::MIN <= self.x + self.velocity.x <= isize::MAX
        &&& isize::MIN <= self.y + self.velocity.y <= isize::MAX
    }

    /// Outside the playfield rectangle `[0, width] x [0, height]`.
    pub open spec fn out_of_bounds(&self, cfg: Config) -> bool {
        self.x < 0 || self.x > cfg.width || self.y > cfg.height || self.y < 0
    }

    pub open spec fn cell(&self) -> Cell {
        Cell { x: self.x, y: self.y, glyph: cp437_of('@'), kind: CellKind::Ball }
    }

    /// Inverts the velocity as the wall tile that the ball is about to enter demands.
    pub fn handle_wall_collision(&mut self, wall: &Boundry, cfg: &Config)
        requires
            old(self).velocity.is_unit(),
            cfg.wf(),
        ensures
            *final(self) == (Ball { velocity: reflected(old(self).velocity, *wall, *cfg), ..*old(self) }),
    {
        let v = self.velocity;
        if wall.is_top_boundry(cfg) && (wall.is_left_boundry() || wall.is_right_boundry(cfg)) {
            self.set_velocity(Velocity { x: -v.x, y: -v.y });
        } else if wall.is_top_boundry(cfg) {
            self.set_velocity(Velocity { x: v.x, y: -v.y });
        } else {
            self.set_velocity(Velocity { x: -v.x, y: v.y });
        }
    }

    /// Inverts the vertical velocity, as the paddle does.
    pub fn bounce_off_paddle(&mut self)
        requires
            old(self).velocity.is_unit(),
        ensures
            *final(self) == (Ball { velocity: old(self).velocity.flipped_y(), ..*old(self) }),
    {
        let v = self.velocity;
        self.set_velocity(Velocity { x: v.x, y: -v.y });
    }

    pub fn set_position(&mut self, x: isize, y: isize)
        ensures
            *final(self) == (Ball { x, y, ..*old(self) }),
    {
        self.x = x;
        self.y = y;
    }

    pub fn set_velocity(&mut self, v: Velocity)
        ensures
            *final(self) == (Ball { velocity: v, ..*old(self) }),
    {
        self.velocity = v;
    }

    /// Moves one step by the velocity.
    pub fn update_position(&mut self)
        requires
            old(self).can_step(),
        ensures
            final(self).x == old(self).next_pos().0,
            final(self).y == old(self).next_pos().1,
            final(self).velocity == old(self).velocity,
            final(self).launched == old(self).launched,
    {
        self.x = self.x + self.velocity.x;
        self.y = self.y + self.velocity.y;
    }

    pub fn next_position(&self) -> (r: (isize, isize))
        requires
            self.can_step(),
        ensures
            r.0 == self.next_pos().0,
            r.1 == self.next_pos().1,
    {
        (self.x + self.velocity.x, self.y + self.velocity.y)
    }

    pub fn is_out_of_bounds(&self, cfg: &Config) -> (r: bool)
        ensures
            r == self.out_of_bounds(*cfg),
            0 < self.x < cfg.width && 0 < self.y < cfg.height ==> !r,
            self.x < 0 || self.x > cfg.width || self.y < 0 || self.y > cfg.height ==> r,
    {
        self.x < 0 || self.x > cfg.width || self.y > cfg.height || self.y < 0
    }

    /// Sends an anchored ball off the paddle; a ball in flight is left alone.
    pub fn launch(&mut self, paddle: &Paddle)
        ensures
            !old(self).launched ==> *final(self) == (Ball {
                velocity: launch_velocity(paddle.velocity.x as int),
                launched: true,
                ..*old(self)
            }),
            old(self).launched ==> *final(self) == *old(self),
            !old(self).launched ==> final(self).velocity.x == if paddle.velocity.x >= 0 { 1isize } else { -1isize },
    {
        if !self.launched {
            self.launched = true;
            let vx: isize = if paddle.velocity.x >= 0 { 1 } else { -1 };
            self.set_velocity(Velocity { x: vx, y: -1 });
        }
    }

    pub fn render(&self) -> (r: Cell)
        ensures
            r == self.cell(),
    {
        Cell { x: self.x, y: self.y, glyph: to_cp437('@'), kind: CellKind::Ball }
    }
}

} // verus!
