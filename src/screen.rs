//! What one frame asks the host to draw.
use vstd::prelude::*;

verus! {

/// Which actor a drawn cell belongs to; the host picks its colours.
#[derive(Clone, Copy, Debug, PartialEq, Eq)]
pub enum CellKind {
    Wall,
    Paddle,
    Ball,
}

/// One glyph at one grid position.
#[derive(Clone, Copy, Debug, PartialEq, Eq)]
pub struct Cell {
    pub x: isize,
    pub y: isize,
    pub glyph: u16,
    pub kind: CellKind,
}

/// The screen a frame shows.
#[derive(Debug, PartialEq, Eq)]
pub enum Scene {
    /// The title menu.
    Menu,
    /// The game-over screen with the score reached.
    GameOver(u64),
    /// The playfield: walls, then the ball, then the paddle.
    Playfield(Vec<Cell>),
}

/// The outcome of one frame: what to draw, and whether to stop the game.
#[derive(Debug, PartialEq, Eq)]
pub struct Frame {
    pub scene: Scene,
    pub quit: bool,
}

} // verus!
