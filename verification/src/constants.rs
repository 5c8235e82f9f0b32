//! Screen, cell and HUD geometry, in pixels.

use vstd::prelude::*;

verus! {

/// Width of the screen, in pixels.
pub const SCREEN_WIDTH: usize = 256;

/// Height of the screen, in pixels.
pub const SCREEN_HEIGHT: usize = 240;

/// Width of one board cell, in pixels.
pub const CELL_WIDTH: usize = 32;

/// Height of one board cell, in pixels.
pub const CELL_HEIGHT: usize = 32;

/// Diameter used for circle shapes, in pixels.
pub const CELL_DIAMETER: usize = 32;

/// Radius used for circle shapes, in pixels.
pub const CELL_RADIUS: usize = 16;

/// Leftmost pixel column of the HUD strip: one spacer pixel after the last
/// cell of a `BOARD_WIDTH`-cell row, each cell followed by a gridline pixel.
pub const HUD_LEFT_EDGE: usize = 6 * (CELL_WIDTH + 1) + 2;

/// Width of the HUD strip, in pixels.
pub const HUD_WIDTH: usize = SCREEN_WIDTH - HUD_LEFT_EDGE;

} // verus!
