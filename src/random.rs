//! Random draws: the starting height of the player and the gaps of obstacles.
use vstd::prelude::*;
use crate::config::GameConfig;

verus! {

/// Relies on `rand::thread_rng` and `rand::Rng::gen_range` over `low..high`:
/// the sample lies in that half-open range (`gen_range` panics on an empty one).
#[verifier::external_body]
fn gen_range(low: i64, high: i64) -> (r: i64)
    requires
        low < high,
    ensures
        low <= r < high,
{
    rand::Rng::gen_range(&mut rand::thread_rng(), low..high)
}

/// A starting height for the player, uniformly drawn from the configured range.
pub fn sample_start_y(c: &GameConfig) -> (y: i64)
    requires
        c.wf(),
    ensures
        c.pebble_start_y_min <= y < c.pebble_start_y_max,
{
    gen_range(c.pebble_start_y_min, c.pebble_start_y_max)
}

/// The bottom of a new obstacle's gap, uniformly drawn from the configured range.
pub fn sample_gap_height(c: &GameConfig) -> (h: i64)
    requires
        c.wf(),
    ensures
        c.moai_gap_min <= h < c.moai_gap_max,
{
    gen_range(c.moai_gap_min, c.moai_gap_max)
}

} // verus!
