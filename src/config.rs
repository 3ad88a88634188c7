use vstd::prelude::*;

verus! {

/// Thickness of each of the four walls.
pub const WALL_THICKNESS: i32 = 10;

/// Arena bounds: the center lines of the four walls.
pub const LEFT_WALL: i32 = -350;
pub const RIGHT_WALL: i32 = 350;
pub const BOTTOM_WALL: i32 = -350;
pub const TOP_WALL: i32 = 350;

/// Distance the head travels along each pressed axis in one movement tick.
pub const STEP_SIZE: i32 = 1;

/// Interval between two movement ticks, in microseconds.
pub const MOVE_COOLDOWN_MICROS: u64 = 100_000;

/// Full width and height of the hitbox used for the head and for food,
/// whatever size they are drawn at.
pub const HEAD_HITBOX: i32 = 20;

/// Where the snake starts: the head sits one step above this point, and the
/// body trails upward from it.
pub const START_X: i32 = 20;
pub const START_Y: i32 = 20;

} // verus!
