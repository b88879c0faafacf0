//! The fixed measures of the playfield and of the simulation clock.

use vstd::prelude::*;

verus! {

pub const WINDOW_WIDTH: i32 = 1280;

pub const WINDOW_HEIGHT: i32 = 720;

pub const VIRTUAL_WIDTH: i32 = 1280;

pub const VIRTUAL_HEIGHT: i32 = 720;

/// Fixed ticks in one second.
pub const FIXED_UPDATE_HZ: i32 = 60;

/// Grid units by which the camera scrolls in one second.
pub const FORWARD_SPEED: i32 = 240;

/// Grid units by which the camera scrolls in one fixed tick.
pub const FORWARD_STEP: i32 = 4;

} // verus!
