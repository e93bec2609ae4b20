//! Tunable geometry and dynamics of the game.
use vstd::prelude::*;
use crate::fixed::CONFIG_LIMIT;

verus! {

/// Geometry and dynamics of a game, in milli-units (see `fixed`).
#[derive(Debug, Clone, Copy, PartialEq, Eq, Structural)]
pub struct GameConfig {
    /// Half of the player's width.
    pub pebble_half_width: i64,
    /// Half of the player's height.
    pub pebble_half_height: i64,
    /// Lowest starting height of the player (inclusive).
    pub pebble_start_y_min: i64,
    /// Highest starting height of the player (exclusive).
    pub pebble_start_y_max: i64,
    /// Velocity given by a jump, per second.
    pub pebble_jump_velocity: i64,
    /// Vertical acceleration, per second squared (negative: downward).
    pub gravity: i64,
    /// Half of an obstacle's width.
    pub moai_half_width: i64,
    /// Height of one obstacle segment.
    pub moai_height: i64,
    /// Horizontal distance between consecutive obstacles.
    pub moai_horizontal_distance: i64,
    /// Height of the passable gap of an obstacle pair.
    pub moai_vertical_distance: i64,
    /// Lowest gap bottom of an obstacle pair (inclusive).
    pub moai_gap_min: i64,
    /// Highest gap bottom of an obstacle pair (exclusive).
    pub moai_gap_max: i64,
    /// Leftward speed of the obstacles, per second.
    pub moai_move_speed: i64,
}

pub open spec fn within_limit(v: i64) -> bool {
    -CONFIG_LIMIT <= v <= CONFIG_LIMIT
}

impl GameConfig {
    /// Every value is within `CONFIG_LIMIT`, sizes and spacing are positive,
    /// the speed is not negative and both ranges are non-empty.
    pub open spec fn wf(&self) -> bool {
        &&& within_limit(self.pebble_half_width)
        &&& within_limit(self.pebble_half_height)
        &&& within_limit(self.pebble_start_y_min)
        &&& within_limit(self.pebble_start_y_max)
        &&& within_limit(self.pebble_jump_velocity)
        &&& within_limit(self.gravity)
        &&& within_limit(self.moai_half_width)
        &&& within_limit(self.moai_height)
        &&& within_limit(self.moai_horizontal_distance)
        &&& within_limit(self.moai_vertical_distance)
        &&& within_limit(self.moai_gap_min)
        &&& within_limit(self.moai_gap_max)
        &&& within_limit(self.moai_move_speed)
        &&& self.pebble_half_width > 0
        &&& self.pebble_half_height > 0
        &&& self.moai_half_width > 0
        &&& self.moai_height > 0
        &&& self.moai_horizontal_distance > 0
        &&& self.moai_vertical_distance > 0
        &&& self.moai_move_speed >= 0
        &&& self.pebble_start_y_min < self.pebble_start_y_max
        &&& self.moai_gap_min < self.moai_gap_max
    }

    /// The game as it is tuned: a 90 x 52 player jumping at 400 per second
    /// under a gravity of -400, and 100-wide obstacles 800 apart with a gap
    /// of 300, moving left at 200 per second.
    pub fn standard() -> (c: GameConfig)
        ensures
            c.wf(),
            c.pebble_half_width == 45_000,
            c.pebble_half_height == 26_000,
            c.pebble_start_y_min == -300_000,
            c.pebble_start_y_max == 300_000,
            c.pebble_jump_velocity == 400_000,
            c.gravity == -400_000,
            c.moai_half_width == 50_000,
            c.moai_height == 197_200,
            c.moai_horizontal_distance == 800_000,
            c.moai_vertical_distance == 300_000,
            c.moai_gap_min == -200_000,
            c.moai_gap_max == 200_000,
            c.moai_move_speed == 200_000,
    {
        GameConfig {
            pebble_half_width: 45_000,
            pebble_half_height: 26_000,
            pebble_start_y_min: -300_000,
            pebble_start_y_max: 300_000,
            pebble_jump_velocity: 400_000,
            gravity: -400_000,
            moai_half_width: 50_000,
            moai_height: 197_200,
            moai_horizontal_distance: 800_000,
            moai_vertical_distance: 300_000,
            moai_gap_min: -200_000,
            moai_gap_max: 200_000,
            moai_move_speed: 200_000,
        }
    }
}

} // verus!
