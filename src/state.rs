//! The game controller: menu, playing and game-over modes, one frame per call.
use vstd::prelude::*;

use crate::ball::{launch_velocity, Ball};
use crate::config::{Config, PADDLE_STEP};
use crate::paddle::Paddle;
use crate::screen::{Cell, Frame, Scene};
use crate::velocity::Velocity;
use crate::wall::{field, first_hit, reflected, side_wall, top_wall, Boundry};

verus! {

#[derive(Clone, Copy, Debug, PartialEq, Eq)]
pub enum GameMode {
    Playing,
    Menu,
    End,
}

/// The one input event a frame may carry.
#[derive(Clone, Copy, Debug, PartialEq, Eq)]
pub enum Action {
    MoveLeft,
    MoveRight,
    Launch,
    /// Start a game from the menu, or play again after a game over.
    Confirm,
    Quit,
    /// Any other key.
    Other,
}

/// Everything a running game owns.
pub struct State {
    pub mode: GameMode,
    /// Accumulated frame time in milliseconds.
    pub frame_time: u64,
    pub score: u64,
    pub paddle: Paddle,
    pub ball: Ball,
    pub wall_tiles: Vec<Boundry>,
    pub config: Config,
}

/// The paddle after the input of a playing frame: left and right push it,
/// launch and quit leave it, any other key stops it.
pub open spec fn keyed_paddle(p: Paddle, key: Option<Action>, cfg: Config) -> Paddle {
    match key {
        Some(Action::MoveRight) => p.moved_right(PADDLE_STEP as int, cfg),
        Some(Action::MoveLeft) => p.moved_left(PADDLE_STEP as int),
        Some(Action::Confirm) | Some(Action::Other) => Paddle {
            velocity: Velocity { x: 0, y: 0 },
            ..p
        },
        _ => p,
    }
}

/// The ball after the input of a playing frame: a launch sends an anchored
/// ball off with the velocity that the paddle's motion gives it.
pub open spec fn keyed_ball(b: Ball, p: Paddle, key: Option<Action>) -> Ball {
    if key == Some(Action::Launch) && !b.launched {
        Ball { velocity: launch_velocity(p.velocity.x as int), launched: true, ..b }
    } else {
        b
    }
}

/// The paddle a game starts with: at column 0, standing still.
pub open spec fn starting_paddle() -> Paddle {
    Paddle { x: 0, velocity: Velocity { x: 0, y: 0 } }
}

/// The ball a game starts with: anchored, still, one row above the
/// starting paddle's left edge.
pub open spec fn starting_ball(cfg: Config) -> Ball {
    Ball { x: 0, y: (cfg.paddle_row - 1) as isize, velocity: Velocity { x: 0, y: 0 }, launched: false }
}

impl State {
    /// The geometry is playable, the paddle is on screen, the ball moves
    /// by unit steps and is at most one step outside the playfield.
    pub open spec fn wf(&self) -> bool {
        &&& self.config.wf()
        &&& self.paddle.wf(self.config)
        &&& self.ball.velocity.is_unit()
        &&& -1 <= self.ball.x <= self.config.width + 1
        &&& -1 <= self.ball.y <= self.config.height + 1
    }

    /// The ball after the physics of a playing frame. A ball outside the
    /// playfield is first taken back to the paddle. A ball in flight
    /// rebounds off the wall tile its next position lands on, then inverts
    /// its vertical velocity if it is on the paddle, then moves one step.
    /// An anchored ball rides one row above the paddle's left edge.
    pub open spec fn flown(&self) -> Ball {
        let cfg = self.config;
        let b = if self.ball.out_of_bounds(cfg) {
            Ball { launched: false, ..self.ball }
        } else {
            self.ball
        };
        if b.launched {
            let v1 = match first_hit(self.wall_tiles@, b.next_pos()) {
                Some(t) => reflected(b.velocity, t, cfg),
                None => b.velocity,
            };
            let v2 = if self.paddle.touches(b, cfg) {
                v1.flipped_y()
            } else {
                v1
            };
            Ball { x: (b.x + v2.x) as isize, y: (b.y + v2.y) as isize, velocity: v2, launched: true }
        } else {
            Ball { x: self.paddle.x, y: (cfg.paddle_row - 1) as isize, ..b }
        }
    }

    /// The state after a playing frame.
    pub open spec fn played(&self, key: Option<Action>) -> State {
        State {
            ball: keyed_ball(self.flown(), self.paddle, key),
            paddle: keyed_paddle(self.paddle, key, self.config),
            ..*self
        }
    }

    /// What a playing frame draws: the walls, the ball where it moved, and
    /// the paddle where it stood before the frame's input.
    pub open spec fn playfield(&self) -> Seq<Cell> {
        self.wall_tiles@.map_values(|t: Boundry| t.cell()) + seq![self.flown().cell()]
            + self.paddle.cells(self.config)
    }

    /// A new game: score and frame time back to zero, the paddle back at
    /// column 0 and the ball anchored on it.
    pub open spec fn restarted(&self) -> State {
        State {
            frame_time: 0,
            mode: GameMode::Playing,
            score: 0,
            paddle: starting_paddle(),
            ball: starting_ball(self.config),
            ..*self
        }
    }

    /// The state after a menu or game-over frame: confirming starts a game.
    pub open spec fn prompted(&self, key: Option<Action>) -> State {
        if key == Some(Action::Confirm) {
            self.restarted()
        } else {
            *self
        }
    }

    /// The state after one frame in the current mode.
    pub open spec fn ticked(&self, key: Option<Action>) -> State {
        match self.mode {
            GameMode::Playing => self.played(key),
            _ => self.prompted(key),
        }
    }

    /// A game at the menu, the ball anchored on a paddle at column 0.
    pub fn new(config: Config) -> (r: State)
        requires
            config.wf(),
        ensures
            r.mode == GameMode::Menu,
            r.frame_time == 0,
            r.score == 0,
            r.paddle == starting_paddle(),
            r.ball == starting_ball(config),
            r.wall_tiles@ == field(config),
            r.config == config,
            r.wf(),
    {
        let tiles = Self::init_wall_tiles(&config);
        State {
            mode: GameMode::Menu,
            frame_time: 0,
            paddle: Paddle::new(0),
            ball: Ball::new(0, config.paddle_row - 1),
            score: 0,
            wall_tiles: tiles,
            config,
        }
    }

    /// The wall tiles of a playfield, in the order of `field`.
    pub fn init_wall_tiles(cfg: &Config) -> (r: Vec<Boundry>)
        requires
            cfg.wf(),
        ensures
            r@ == field(*cfg),
    {
        let mut tiles: Vec<Boundry> = Vec::new();
        let mut i: isize = 1;
        while i < cfg.width - 1
            invariant
                cfg.wf(),
                1 <= i <= cfg.width - 1,
                tiles@ == top_wall(*cfg).take(i - 1),
            decreases cfg.width - i,
        {
            tiles.push(Boundry::new(i, cfg.top_row, '_'));
            i = i + 1;
            assert(tiles@ =~= top_wall(*cfg).take(i - 1));
        }
        assert(tiles@ =~= top_wall(*cfg));
        let mut j: isize = cfg.top_row + 1;
        while j < cfg.height
            invariant
                cfg.wf(),
                cfg.top_row + 1 <= j <= cfg.height,
                tiles@ == top_wall(*cfg) + side_wall(*cfg, 0).take(j - cfg.top_row - 1),
            decreases cfg.height - j,
        {
            tiles.push(Boundry::new(0, j, '|'));
            j = j + 1;
            assert(tiles@ =~= top_wall(*cfg) + side_wall(*cfg, 0).take(j - cfg.top_row - 1));
        }
        assert(tiles@ =~= top_wall(*cfg) + side_wall(*cfg, 0));
        let mut k: isize = cfg.top_row + 1;
        while k < cfg.height
            invariant
                cfg.wf(),
                cfg.top_row + 1 <= k <= cfg.height,
                tiles@ == top_wall(*cfg) + side_wall(*cfg, 0) + side_wall(*cfg, cfg.width - 1).take(
                    k - cfg.top_row - 1,
                ),
            decreases cfg.height - k,
        {
            tiles.push(Boundry::new(cfg.width - 1, k, '|'));
            k = k + 1;
            assert(tiles@ =~= top_wall(*cfg) + side_wall(*cfg, 0) + side_wall(
                *cfg,
                cfg.width - 1,
            ).take(k - cfg.top_row - 1));
        }
        assert(tiles@ =~= field(*cfg));
        tiles
    }

    pub fn restart(&mut self)
        requires
            old(self).config.wf(),
        ensures
            *final(self) == old(self).restarted(),
    {
        self.frame_time = 0;
        self.mode = GameMode::Playing;
        self.score = 0;
        self.paddle = Paddle::new(0);
        self.ball = Ball::new(0, self.config.paddle_row - 1);
    }

    /// The game-over screen's input: confirm plays again, quit asks to stop.
    pub fn dead(&mut self, key: Option<Action>) -> (quit: bool)
        requires
            old(self).config.wf(),
        ensures
            *final(self) == old(self).prompted(key),
            quit == (key == Some(Action::Quit)),
    {
        match key {
            Some(Action::Confirm) => {
                self.restart();
                false
            },
            Some(Action::Quit) => true,
            _ => false,
        }
    }

    /// The menu's input: confirm starts a game, quit asks to stop.
    pub fn main_menu(&mut self, key: Option<Action>) -> (quit: bool)
        requires
            old(self).config.wf(),
        ensures
            *final(self) == old(self).prompted(key),
            quit == (key == Some(Action::Quit)),
    {
        match key {
            Some(Action::Confirm) => {
                self.restart();
                false
            },
            Some(Action::Quit) => true,
            _ => false,
        }
    }

    /// The first wall tile that the ball's next position lands on.
    pub fn get_colliding_wall(&self) -> (r: Option<Boundry>)
        requires
            self.ball.can_step(),
        ensures
            r == first_hit(self.wall_tiles@, self.ball.next_pos()),
    {
        let ghost p = self.ball.next_pos();
        let ghost tiles = self.wall_tiles@;
        let n = self.wall_tiles.len();
        assert(tiles.subrange(0, n as int) =~= tiles);
        let mut i: usize = 0;
        while i < n
            invariant
                n == tiles.len(),
                tiles == self.wall_tiles@,
                p == self.ball.next_pos(),
                self.ball.can_step(),
                i <= n,
                first_hit(tiles, p) == first_hit(tiles.subrange(i as int, n as int), p),
            decreases n - i,
        {
            let wall = self.wall_tiles[i];
            if wall.detect_collision(&self.ball) {
                return Some(wall);
            }
            assert(tiles.subrange(i as int, n as int).drop_first() =~= tiles.subrange(
                i + 1,
                n as int,
            ));
            i = i + 1;
        }
        None
    }

    /// One cell per wall tile, in the tiles' order.
    pub fn render_walls(&self) -> (r: Vec<Cell>)
        ensures
            r@ == self.wall_tiles@.map_values(|t: Boundry| t.cell()),
    {
        let mut cells: Vec<Cell> = Vec::new();
        let mut i: usize = 0;
        while i < self.wall_tiles.len()
            invariant
                i <= self.wall_tiles@.len(),
                cells@ == self.wall_tiles@.take(i as int).map_values(|t: Boundry| t.cell()),
            decreases self.wall_tiles@.len() - i,
        {
            cells.push(self.wall_tiles[i].render());
            i = i + 1;
            assert(cells@ =~= self.wall_tiles@.take(i as int).map_values(|t: Boundry| t.cell()));
        }
        assert(self.wall_tiles@.take(i as int) =~= self.wall_tiles@);
        cells
    }

    /// A playing frame: the ball's physics, then the frame's input. Returns
    /// the cells to draw and whether the player asked to quit.
    pub fn play(&mut self, key: Option<Action>) -> (r: (Vec<Cell>, bool))
        requires
            old(self).wf(),
        ensures
            *final(self) == old(self).played(key),
            final(self).wf(),
            r.0@ == old(self).playfield(),
            r.1 == (key == Some(Action::Quit)),
    {
        let mut cells = self.render_walls();

        if self.ball.is_out_of_bounds(&self.config) {
            self.ball.launched = false;
        }

        if self.ball.launched {
            if let Some(wall) = self.get_colliding_wall() {
                self.ball.handle_wall_collision(&wall, &self.config);
            }
            if self.paddle.detect_collision(&self.ball, &self.config) {
                self.ball.bounce_off_paddle();
            }
            self.ball.update_position();
        } else {
            self.ball.set_position(self.paddle.x, self.config.paddle_row - 1);
        }
        cells.push(self.ball.render());
        let mut paddle_cells = self.paddle.render(&self.config);
        cells.append(&mut paddle_cells);

        let quit = match key {
            Some(Action::Quit) => true,
            Some(Action::MoveRight) => {
                self.paddle.move_right(PADDLE_STEP, &self.config);
                false
            },
            Some(Action::MoveLeft) => {
                self.paddle.move_left(PADDLE_STEP, &self.config);
                false
            },
            Some(Action::Launch) => {
                self.ball.launch(&self.paddle);
                false
            },
            Some(_) => {
                self.paddle.stop();
                false
            },
            None => false,
        };
        (cells, quit)
    }

    /// One frame in the current mode: what to draw and whether to stop.
    pub fn tick(&mut self, key: Option<Action>) -> (r: Frame)
        requires
            old(self).wf(),
        ensures
            *final(self) == old(self).ticked(key),
            final(self).wf(),
            r.quit == (key == Some(Action::Quit)),
            old(self).mode == GameMode::Menu ==> r.scene == Scene::Menu,
            old(self).mode == GameMode::End ==> r.scene == Scene::GameOver(old(self).score),
            old(self).mode == GameMode::Playing ==> (r.scene is Playfield
                && r.scene->Playfield_0@ == old(self).playfield()),
    {
        match self.mode {
            GameMode::Menu => {
                let quit = self.main_menu(key);
                Frame { scene: Scene::Menu, quit }
            },
            GameMode::End => {
                let score = self.score;
                let quit = self.dead(key);
                Frame { scene: Scene::GameOver(score), quit }
            },
            GameMode::Playing => {
                let (cells, quit) = self.play(key);
                Frame { scene: Scene::Playfield(cells), quit }
            },
        }
    }
}

/// The paddle after the inputs of a run of playing frames, in order.
pub open spec fn paddle_after(p: Paddle, keys: Seq<Option<Action>>, cfg: Config) -> Paddle
    decreases keys.len(),
{
    if keys.len() == 0 {
        p
    } else {
        paddle_after(keyed_paddle(p, keys[0], cfg), keys.drop_first(), cfg)
    }
}

/// The state after a run of frames, one input (or none) per frame.
pub open spec fn run(s: State, keys: Seq<Option<Action>>) -> State
    decreases keys.len(),
{
    if keys.len() == 0 {
        s
    } else {
        run(s, keys.drop_last()).ticked(keys.last())
    }
}

/// However the player moves it, the paddle stays wholly on the screen:
/// its left edge stays between 0 and the screen width less its own width.
pub proof fn lemma_paddle_stays_on_screen(p: Paddle, keys: Seq<Option<Action>>, cfg: Config)
    requires
        cfg.wf(),
        p.wf(cfg),
    ensures
        paddle_after(p, keys, cfg).wf(cfg),
        0 <= paddle_after(p, keys, cfg).x <= cfg.width - cfg.paddle_width,
    decreases keys.len(),
{
    if keys.len() > 0 {
        assert(keyed_paddle(p, keys[0], cfg).wf(cfg));
        lemma_paddle_stays_on_screen(keyed_paddle(p, keys[0], cfg), keys.drop_first(), cfg);
    }
}

/// Whatever path of frames leads into play, the frame that enters it
/// leaves the score and the frame time at zero, the paddle at column 0 and
/// the ball anchored on it.
pub proof fn lemma_play_starts_fresh(s: State, keys: Seq<Option<Action>>, i: int)
    requires
        0 <= i < keys.len(),
    ensures
        run(s, keys.take(i)).mode != GameMode::Playing && run(s, keys.take(i + 1)).mode
            == GameMode::Playing ==> {
            let entered = run(s, keys.take(i + 1));
            &&& entered.score == 0
            &&& entered.frame_time == 0
            &&& entered.paddle == starting_paddle()
            &&& !entered.ball.launched
            &&& entered.ball.velocity == (Velocity { x: 0, y: 0 })
            &&& entered.ball.x == 0
        },
{
    assert(keys.take(i + 1).drop_last() =~= keys.take(i));
}

} // verus!
