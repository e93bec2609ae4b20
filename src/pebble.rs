//! The player: falling, jumping, and hitting the floor or an obstacle.
use vstd::prelude::*;
use crate::config::GameConfig;
use crate::fixed::{clamp_to_world, clamp_world, div_floor, floor_div, in_world, MAX_TICK_US};
use crate::game_size::GameSize;
use crate::moai::Moai;

verus! {

/// The player: its vertical velocity (per second) and its position.
#[derive(Debug, Clone, Copy, PartialEq, Eq, Structural)]
pub struct Pebble {
    pub velocity: i64,
    pub x: i64,
    pub y: i64,
}

impl Pebble {
    /// A player at height `y`, in the column of the origin, moving at `velocity`.
    pub fn new(y: i64, velocity: i64) -> (p: Pebble)
        ensures
            p == (Pebble { velocity, x: 0, y }),
    {
        Pebble { velocity, x: 0, y }
    }

    pub open spec fn wf(&self) -> bool {
        in_world(self.velocity as int) && in_world(self.x as int) && in_world(self.y as int)
    }
}

/// `p` after `dt` microseconds under the acceleration `g`:
/// `y + v dt + g dt^2 / 2` and `v + g dt`, rounded down to a milli-unit and
/// held within the world's limits.
pub open spec fn moved_pebble(p: Pebble, g: int, dt: int) -> Pebble {
    Pebble {
        velocity: clamp_world(p.velocity + floor_div(g * dt, 1_000_000)) as i64,
        x: p.x,
        y: clamp_world(p.y + floor_div(2_000_000 * p.velocity * dt + g * dt * dt, 2_000_000_000_000)) as i64,
    }
}

/// Whether `p` is below the floor of the field.
pub open spec fn below_floor(p: Pebble, g: GameSize) -> bool {
    p.y < g.min_y
}

/// Whether the boxes of `p` and `m` overlap horizontally.
pub open spec fn overlaps(p: Pebble, m: Moai, c: GameConfig) -> bool {
    !(m.x + c.moai_half_width < p.x - c.pebble_half_width) && !(m.x - c.moai_half_width > p.x
        + c.pebble_half_width)
}

/// Whether `p` hits the obstacle pair `m`: they overlap horizontally and the
/// player's box reaches below the gap or above it.
pub open spec fn hits(p: Pebble, m: Moai, c: GameConfig) -> bool {
    &&& overlaps(p, m, c)
    &&& (m.height > p.y - c.pebble_half_height || m.height + c.moai_vertical_distance < p.y
        + c.pebble_half_height)
}

/// Whether `p` hits any of `ms`.
pub open spec fn hits_any(p: Pebble, ms: Seq<Moai>, c: GameConfig) -> bool {
    exists|i: int| 0 <= i < ms.len() && hits(p, #[trigger] ms[i], c)
}

/// Advances the player by one tick of `dt` microseconds.
pub fn pebble_move(p: &mut Pebble, c: &GameConfig, dt: u32)
    requires
        old(p).wf(),
        c.wf(),
        dt <= MAX_TICK_US,
    ensures
        *final(p) == moved_pebble(*old(p), c.gravity as int, dt as int),
        final(p).wf(),
{
    let g = c.gravity as i128;
    let t = dt as i128;
    let v = p.velocity as i128;
    assert(-1_000_000_000 * 1_000_000_000_000_000_000 <= g * t * t <= 1_000_000_000
        * 1_000_000_000_000_000_000) by (nonlinear_arith)
        requires
            -1_000_000_000 <= g <= 1_000_000_000,
            0 <= t <= 1_000_000_000,
    ;
    assert(-2_000_000 * 1_000_000_000_000_000 * 1_000_000_000 <= 2_000_000 * v * t <= 2_000_000
        * 1_000_000_000_000_000 * 1_000_000_000) by (nonlinear_arith)
        requires
            -1_000_000_000_000_000 <= v <= 1_000_000_000_000_000,
            0 <= t <= 1_000_000_000,
    ;
    assert(-1_000_000_000 * 1_000_000_000 <= g * t <= 1_000_000_000 * 1_000_000_000) by (nonlinear_arith)
        requires
            -1_000_000_000 <= g <= 1_000_000_000,
            0 <= t <= 1_000_000_000,
    ;
    let dy = div_floor(2_000_000 * v * t + g * t * t, 2_000_000_000_000);
    let dv = div_floor(g * t, 1_000_000);
    p.y = clamp_to_world(p.y as i128 + dy);
    p.velocity = clamp_to_world(v + dv);
}

/// Gives the player the jump velocity.
pub fn reset_pebble_velocity(p: &mut Pebble, c: &GameConfig)
    requires
        c.wf(),
    ensures
        *final(p) == (Pebble { velocity: c.pebble_jump_velocity, ..*old(p) }),
{
    p.velocity = c.pebble_jump_velocity;
}

/// Whether the player fell below the floor of the field.
pub fn check_death_down(p: &Pebble, g: &GameSize) -> (dead: bool)
    ensures
        dead == below_floor(*p, *g),
{
    p.y < g.min_y
}

/// Whether the player hits the obstacle pair `m`.
pub fn collides(p: &Pebble, m: &Moai, c: &GameConfig) -> (hit: bool)
    requires
        p.wf(),
        c.wf(),
        -2_000_000_000_000_000 <= m.x <= 2_000_000_000_000_000,
        -1_000_000_000 <= m.height <= 1_000_000_000,
    ensures
        hit == hits(*p, *m, *c),
{
    let already_passed = m.x + c.moai_half_width < p.x - c.pebble_half_width;
    let not_reached_yet = m.x - c.moai_half_width > p.x + c.pebble_half_width;
    if not_reached_yet || already_passed {
        return false;
    }
    let collided_down = m.height > p.y - c.pebble_half_height;
    let collided_up = m.height + c.moai_vertical_distance < p.y + c.pebble_half_height;
    collided_down || collided_up
}

/// Whether the player hits any of the obstacles.
pub fn check_collisions(p: &Pebble, moai: &Vec<Moai>, c: &GameConfig) -> (hit: bool)
    requires
        p.wf(),
        c.wf(),
        forall|i: int|
            0 <= i < moai.len() ==> -2_000_000_000_000_000 <= #[trigger] moai[i].x
                <= 2_000_000_000_000_000 && -1_000_000_000 <= moai[i].height <= 1_000_000_000,
    ensures
        hit == hits_any(*p, moai@, *c),
{
    let mut i: usize = 0;
    while i < moai.len()
        invariant
            0 <= i <= moai.len(),
            p.wf(),
            c.wf(),
            forall|j: int|
                0 <= j < moai.len() ==> -2_000_000_000_000_000 <= #[trigger] moai[j].x
                    <= 2_000_000_000_000_000 && -1_000_000_000 <= moai[j].height <= 1_000_000_000,
            forall|j: int| 0 <= j < i ==> !hits(*p, #[trigger] moai@[j], *c),
        decreases moai.len() - i,
    {
        if collides(p, &moai[i], c) {
            assert(hits(*p, moai@[i as int], *c));
            return true;
        }
        i = i + 1;
    }
    false
}

} // verus!
