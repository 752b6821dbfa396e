//! The player's paddle: momentum from repeated inputs, clamped to the screen.
use vstd::prelude::*;

use crate::ball::Ball;
use crate::config::Config;
use crate::glyph::{cp437_of, to_cp437};
use crate::screen::{Cell, CellKind};
use crate::velocity::Velocity;

verus! {

/// The paddle's left edge and its (horizontal) velocity.
#[derive(Clone, Copy, Debug, PartialEq, Eq)]
pub struct Paddle {
    pub x: isize,
    pub velocity: Velocity,
}

/// Horizontal velocity after a push of `step` to the right: it adds to a
/// rightward or zero velocity, and replaces a leftward one. It saturates at
/// the largest machine integer.
pub open spec fn pushed_right(vx: int, step: int) -> int {
    let v = if vx >= 0 { vx + step } else { step };
    if v > isize::MAX { isize::MAX as int } else { v }
}

/// The mirror of `pushed_right`, saturating at the smallest machine integer.
pub open spec fn pushed_left(vx: int, step: int) -> int {
    let v = if vx <= 0 { vx - step } else { -step };
    if v < isize::MIN { isize::MIN as int } else { v }
}

impl Paddle {
    pub fn new(x: isize) -> (r: Paddle)
        ensures
            r == (Paddle { x, velocity: Velocity { x: 0, y: 0 } }),
    {
        Paddle { x, velocity: Velocity { x: 0, y: 0 } }
    }

    /// The paddle lies wholly on the screen and moves only sideways.
    pub open spec fn wf(&self, cfg: Config) -> bool {
        0 <= self.x <= cfg.width - cfg.paddle_width && self.velocity.y == 0
    }

    /// After a push to the right: the velocity per `pushed_right`, the left
    /// edge moved by it, unless that would put the right edge at or past the
    /// screen's edge, where the paddle stops flush with it. The velocity is
    /// kept as computed even when the position is clamped.
    pub open spec fn moved_right(&self, step: int, cfg: Config) -> Paddle {
        let v = pushed_right(self.velocity.x as int, step);
        Paddle {
            x: if self.x + v + cfg.paddle_width < cfg.width {
                (self.x + v) as isize
            } else {
                (cfg.width - cfg.paddle_width) as isize
            },
            velocity: Velocity { x: v as isize, y: self.velocity.y },
        }
    }

    /// The mirror of `moved_right`, clamped at column 0.
    pub open spec fn moved_left(&self, step: int) -> Paddle {
        let v = pushed_left(self.velocity.x as int, step);
        Paddle {
            x: if self.x + v > 0 { (self.x + v) as isize } else { 0isize },
            velocity: Velocity { x: v as isize, y: self.velocity.y },
        }
    }

    /// The ball is on the paddle's row, from its left edge to one column
    /// past the cell after its right edge.
    pub open spec fn touches(&self, ball: Ball, cfg: Config) -> bool {
        ball.x >= self.x && ball.x <= self.x + cfg.paddle_width + 1 && ball.y == cfg.paddle_row
    }

    pub open spec fn cells(&self, cfg: Config) -> Seq<Cell> {
        Seq::new(
            cfg.paddle_width as nat,
            |i: int|
                Cell {
                    x: (self.x + i) as isize,
                    y: cfg.paddle_row,
                    glyph: cp437_of(' '),
                    kind: CellKind::Paddle,
                },
        )
    }

    pub fn move_right(&mut self, step: isize, cfg: &Config)
        requires
            cfg.wf(),
            old(self).wf(*cfg),
            step >= 0,
        ensures
            *final(self) == old(self).moved_right(step as int, *cfg),
            final(self).wf(*cfg),
    {
        let v: isize = if self.velocity.x >= 0 {
            if self.velocity.x > isize::MAX - step {
                isize::MAX
            } else {
                self.velocity.x + step
            }
        } else {
            step
        };
        self.velocity.x = v;
        if v < cfg.width - cfg.paddle_width - self.x {
            self.x = self.x + v;
        } else {
            self.x = cfg.width - cfg.paddle_width;
        }
    }

    pub fn move_left(&mut self, step: isize, cfg: &Config)
        requires
            cfg.wf(),
            old(self).wf(*cfg),
            step >= 0,
        ensures
            *final(self) == old(self).moved_left(step as int),
            final(self).wf(*cfg),
    {
        let v: isize = if self.velocity.x <= 0 {
            if self.velocity.x < isize::MIN + step {
                isize::MIN
            } else {
                self.velocity.x - step
            }
        } else {
            -step
        };
        self.velocity.x = v;
        if v > -self.x {
            self.x = self.x + v;
        } else {
            self.x = 0;
        }
    }

    /// Drops all momentum.
    pub fn stop(&mut self)
        ensures
            *final(self) == (Paddle { velocity: Velocity { x: 0, y: 0 }, ..*old(self) }),
    {
        self.velocity = Velocity { x: 0, y: 0 };
    }

    pub fn detect_collision(&self, ball: &Ball, cfg: &Config) -> (r: bool)
        requires
            cfg.wf(),
            self.wf(*cfg),
        ensures
            r == self.touches(*ball, *cfg),
    {
        let (ball_x, ball_y) = (ball.x, ball.y);
        let x = self.x;
        ball_x >= x && ball_x <= x + cfg.paddle_width + 1 && ball_y == cfg.paddle_row
    }

    /// One blank cell per column of the paddle, left to right.
    pub fn render(&self, cfg: &Config) -> (r: Vec<Cell>)
        requires
            cfg.wf(),
            self.wf(*cfg),
        ensures
            r@ == self.cells(*cfg),
    {
        let glyph = to_cp437(' ');
        let mut cells: Vec<Cell> = Vec::new();
        let mut i: isize = 0;
        while i < cfg.paddle_width
            invariant
                cfg.wf(),
                self.wf(*cfg),
                0 <= i <= cfg.paddle_width,
                glyph == cp437_of(' '),
                cells@ == self.cells(*cfg).take(i as int),
            decreases cfg.paddle_width - i,
        {
            cells.push(Cell { x: self.x + i, y: cfg.paddle_row, glyph, kind: CellKind::Paddle });
            i = i + 1;
            assert(cells@ =~= self.cells(*cfg).take(i as int));
        }
        assert(cells@ =~= self.cells(*cfg));
        cells
    }
}

} // verus!
