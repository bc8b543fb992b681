//! Fixed parameters of the simulation: screen geometry, the player's
//! on-screen offset, and the victory threshold.

use vstd::prelude::*;

verus! {

/// Height of the playfield in character rows.
pub const SCREEN_HEIGHT: u16 = 12;

/// Width of the playfield in character columns.
pub const SCREEN_WIDTH: u16 = 80;

/// Horizontal offset of the player from the camera's origin.
pub const PLAYER_X_OFFSET: i64 = 10;

/// Vertical offset of the player's ground row from the bottom of the screen.
pub const PLAYER_Y_OFFSET: i64 = 2;

/// Score at which the game is won.
pub const GAME_VICTORY_SCORE: u64 = 10000;

} // verus!
