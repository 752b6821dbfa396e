//! Playfield geometry: every clamp and collision test is parameterised by it.
use vstd::prelude::*;

verus! {

/// How far one left or right input pushes the paddle's velocity.
pub const PADDLE_STEP: isize = 4;

/// Screen size, the row of the top wall, and the paddle's size and row.
#[derive(Clone, Copy, Debug, PartialEq, Eq)]
pub struct Config {
    pub width: isize,
    pub height: isize,
    pub top_row: isize,
    pub paddle_width: isize,
    pub paddle_row: isize,
}

/// Why a geometry cannot host a game.
#[derive(Clone, Copy, Debug, PartialEq, Eq)]
pub enum ConfigError {
    /// The paddle has no cells.
    PaddleTooNarrow,
    /// The paddle is at least as wide as the screen, so no position fits it.
    PaddleTooWide,
    /// The top wall is not above the paddle row, or either lies off screen.
    RowsOutOfOrder,
    /// A ball one cell beyond the screen would have no coordinate.
    ScreenTooLarge,
}

impl Config {
    /// A geometry the game can be played on.
    pub open spec fn wf(&self) -> bool {
        &&& 0 < self.paddle_width
        &&& self.paddle_width < self.width
        &&& 0 <= self.top_row
        &&& self.top_row < self.paddle_row
        &&& self.paddle_row < self.height
        &&& self.width < isize::MAX - 1
        &&& self.height < isize::MAX - 1
    }

    /// Validates a geometry; the first failing rule, in the order of
    /// `ConfigError`, is reported.
    pub fn new(width: isize, height: isize, top_row: isize, paddle_width: isize, paddle_row: isize)
        -> (r: Result<Config, ConfigError>)
        ensures
            paddle_width <= 0 ==> r == Err::<Config, ConfigError>(ConfigError::PaddleTooNarrow),
            0 < paddle_width && paddle_width >= width ==> r == Err::<Config, ConfigError>(
                ConfigError::PaddleTooWide,
            ),
            0 < paddle_width < width && !(0 <= top_row && top_row < paddle_row && paddle_row
                < height) ==> r == Err::<Config, ConfigError>(ConfigError::RowsOutOfOrder),
            0 < paddle_width < width && 0 <= top_row && top_row < paddle_row && paddle_row < height
                && !(width < isize::MAX - 1 && height < isize::MAX - 1) ==> r == Err::<
                Config,
                ConfigError,
            >(ConfigError::ScreenTooLarge),
            r is Ok <==> (Config { width, height, top_row, paddle_width, paddle_row }).wf(),
            r is Ok ==> r == Ok::<Config, ConfigError>(
                Config { width, height, top_row, paddle_width, paddle_row },
            ),
    {
        if paddle_width <= 0 {
            Err(ConfigError::PaddleTooNarrow)
        } else if paddle_width >= width {
            Err(ConfigError::PaddleTooWide)
        } else if !(0 <= top_row && top_row < paddle_row && paddle_row < height) {
            Err(ConfigError::RowsOutOfOrder)
        } else if !(width < isize::MAX - 1 && height < isize::MAX - 1) {
            Err(ConfigError::ScreenTooLarge)
        } else {
            Ok(Config { width, height, top_row, paddle_width, paddle_row })
        }
    }

    /// The classic 80 x 50 screen: top wall on row 2, a 15-cell paddle on
    /// the second row from the bottom.
    pub fn standard() -> (r: Config)
        ensures
            r == (Config { width: 80, height: 50, top_row: 2, paddle_width: 15, paddle_row: 48 }),
            r.wf(),
    {
        Config { width: 80, height: 50, top_row: 2, paddle_width: 15, paddle_row: 48 }
    }
}

} // verus!
