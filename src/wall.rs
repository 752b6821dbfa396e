//! The immovable perimeter of the playfield and how the ball rebounds off it.
use vstd::prelude::*;

use crate::ball::Ball;
use crate::config::Config;
use crate::glyph::{cp437_of, to_cp437};
use crate::screen::{Cell, CellKind};
use crate::velocity::Velocity;

verus! {

/// One wall tile.
#[derive(Clone, Copy, Debug, PartialEq, Eq)]
pub struct Boundry {
    pub position: (isize, isize),
    pub glyph: u16,
}

impl Boundry {
    pub fn new(x: isize, y: isize, glyph: char) -> (r: Boundry)
        ensures
            r.position == (x, y),
            r.glyph == cp437_of(glyph),
    {
        Boundry { position: (x, y), glyph: to_cp437(glyph) }
    }

    pub open spec fn left(&self) -> bool {
        self.position.0 == 0
    }

    pub open spec fn right(&self, cfg: Config) -> bool {
        self.position.0 == cfg.width - 1
    }

    pub open spec fn top(&self, cfg: Config) -> bool {
        self.position.1 == cfg.top_row
    }

    /// The tile stands on the point `p`.
    pub open spec fn at(&self, p: (int, int)) -> bool {
        self.position.0 == p.0 && self.position.1 == p.1
    }

    pub open spec fn cell(&self) -> Cell {
        Cell { x: self.position.0, y: self.position.1, glyph: self.glyph, kind: CellKind::Wall }
    }

    pub fn is_left_boundry(&self) -> (r: bool)
        ensures
            r == self.left(),
    {
        self.position.0 == 0
    }

    pub fn is_right_boundry(&self, cfg: &Config) -> (r: bool)
        requires
            cfg.wf(),
        ensures
            r == self.right(*cfg),
    {
        self.position.0 == cfg.width - 1
    }

    pub fn is_top_boundry(&self, cfg: &Config) -> (r: bool)
        ensures
            r == self.top(*cfg),
    {
        self.position.1 == cfg.top_row
    }

    /// The ball's predicted position lands on this tile.
    pub fn detect_collision(&self, ball: &Ball) -> (r: bool)
        requires
            ball.can_step(),
        ensures
            r == self.at(ball.next_pos()),
    {
        let (ball_x, ball_y) = ball.next_position();
        let (x, y) = self.position;
        x == ball_x && y == ball_y
    }

    pub fn render(&self) -> (r: Cell)
        ensures
            r == self.cell(),
    {
        Cell { x: self.position.0, y: self.position.1, glyph: self.glyph, kind: CellKind::Wall }
    }
}

/// The rebound off a tile: a corner (top and a side) inverts both
/// components, the top row inverts the vertical one, a side the horizontal one.
pub open spec fn reflected(v: Velocity, t: Boundry, cfg: Config) -> Velocity {
    if t.top(cfg) && (t.left() || t.right(cfg)) {
        v.flipped_both()
    } else if t.top(cfg) {
        v.flipped_y()
    } else {
        v.flipped_x()
    }
}

/// The first tile of `tiles` that stands on `p`.
pub open spec fn first_hit(tiles: Seq<Boundry>, p: (int, int)) -> Option<Boundry>
    decreases tiles.len(),
{
    if tiles.len() == 0 {
        None
    } else if tiles[0].at(p) {
        Some(tiles[0])
    } else {
        first_hit(tiles.drop_first(), p)
    }
}

/// The perimeter of a playfield: the top row from x = 1 to width - 2, then
/// the left column and the right column from the row below the top to the
/// last row. The bottom is open.
pub open spec fn field(cfg: Config) -> Seq<Boundry> {
    top_wall(cfg) + side_wall(cfg, 0) + side_wall(cfg, cfg.width - 1)
}

pub open spec fn top_wall(cfg: Config) -> Seq<Boundry> {
    Seq::new(
        (cfg.width - 2) as nat,
        |i: int| Boundry { position: ((i + 1) as isize, cfg.top_row), glyph: cp437_of('_') },
    )
}

pub open spec fn side_wall(cfg: Config, x: int) -> Seq<Boundry> {
    Seq::new(
        (cfg.height - 1 - cfg.top_row) as nat,
        |i: int|
            Boundry { position: (x as isize, (cfg.top_row + 1 + i) as isize), glyph: cp437_of('|') },
    )
}

/// Rebounding twice off the same tile gives back the velocity one started with.
pub proof fn lemma_double_rebound(v: Velocity, t: Boundry, cfg: Config)
    requires
        v.is_unit(),
    ensures
        reflected(reflected(v, t, cfg), t, cfg) == v,
        reflected(v, t, cfg).is_unit(),
{
}

/// No two tiles of a playfield share a position, so at most one tile can
/// stand on the ball's predicted position.
pub proof fn lemma_field_positions_distinct(cfg: Config)
    requires
        cfg.wf(),
    ensures
        forall|i: int, j: int|
            0 <= i < j < field(cfg).len() ==> field(cfg)[i].position != field(cfg)[j].position,
{
    let t = top_wall(cfg);
    let l = side_wall(cfg, 0);
    let r = side_wall(cfg, cfg.width - 1);
    assert forall|i: int, j: int| 0 <= i < j < field(cfg).len() implies field(cfg)[i].position
        != field(cfg)[j].position by {
        let a = t.len() as int;
        let b = l.len() as int;
        let pi = if i < a { t[i] } else if i < a + b { l[i - a] } else { r[i - a - b] };
        let pj = if j < a { t[j] } else if j < a + b { l[j - a] } else { r[j - a - b] };
        assert(field(cfg)[i] == pi);
        assert(field(cfg)[j] == pj);
    }
}

} // verus!
