//! Dimensions of the board and the sprite sheet.

use vstd::prelude::*;

verus! {

/// Edge length of one sprite, in pixels.
pub const SPRITE_SIZE: usize = 16;

/// Number of rows of the occupancy grid.
pub const HEIGHT: usize = 12;

/// Number of columns of the occupancy grid.
pub const WIDTH: usize = 16;

/// Mark of a spell that favours neither side.
pub const NEUTRAL: &'static str = "-";

/// Mark of a spell of chaos.
pub const CHAOS: &'static str = "*";

/// Mark of a spell of law.
pub const LAW: &'static str = "^";

pub const BORDER_TOPLEFT: usize = 202;

pub const BORDER_TOP: usize = 203;

pub const BORDER_TOPRIGHT: usize = 204;

pub const BORDER_LEFT: usize = 205;

pub const BORDER_BOTTOMLEFT: usize = 206;

pub const BORDER_BOTTOM: usize = 207;

pub const BORDER_BOTTOMRIGHT: usize = 208;

pub const BORDER_RIGHT: usize = 209;

} // verus!
