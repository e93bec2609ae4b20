//! Fixed-point arithmetic for the simulation.
//!
//! Lengths are counted in milli-units (a thousandth of a world unit), speeds in
//! milli-units per second, accelerations in milli-units per second squared,
//! and durations in microseconds.
use vstd::prelude::*;

verus! {

/// Milli-units in one world unit.
pub const MILLI: i64 = 1000;

/// Microseconds in one second.
pub const MICROS: i64 = 1_000_000;

/// Largest magnitude of any configured length, speed or acceleration.
pub const CONFIG_LIMIT: i64 = 1_000_000_000;

/// Positions and velocities of moving entities are held within this magnitude.
pub const WORLD_LIMIT: i64 = 1_000_000_000_000_000;

/// Longest tick duration accepted, in microseconds.
pub const MAX_TICK_US: u32 = 1_000_000_000;

/// Rounds `a / b` down, for a positive `b`.
pub open spec fn floor_div(a: int, b: int) -> int
    recommends
        b > 0,
{
    a / b
}

/// `v` held to the interval `[-WORLD_LIMIT, WORLD_LIMIT]`.
pub open spec fn clamp_world(v: int) -> int {
    if v < -WORLD_LIMIT {
        -WORLD_LIMIT as int
    } else if v > WORLD_LIMIT {
        WORLD_LIMIT as int
    } else {
        v
    }
}

pub open spec fn in_world(v: int) -> bool {
    -WORLD_LIMIT <= v <= WORLD_LIMIT
}

/// Integer division rounding toward negative infinity.
pub fn div_floor(a: i128, b: i128) -> (q: i128)
    requires
        b > 0,
        a > i128::MIN,
    ensures
        q == floor_div(a as int, b as int),
{
    if a >= 0 {
        let q = a / b;
        q
    } else {
        let n = -a;
        let t = (n - 1) / b;
        proof {
            lemma_neg_floor(n as int, b as int);
        }
        -t - 1
    }
}

proof fn lemma_neg_floor(n: int, b: int)
    requires
        n > 0,
        b > 0,
    ensures
        (-n) / b == -((n - 1) / b) - 1,
{
    let t = (n - 1) / b;
    let r = (n - 1) % b;
    vstd::arithmetic::div_mod::lemma_fundamental_div_mod(n - 1, b);
    assert(n - 1 == b * t + r);
    assert(-n == b * (-t - 1) + (b - 1 - r)) by (nonlinear_arith)
        requires
            n - 1 == b * t + r,
    ;
    vstd::arithmetic::div_mod::lemma_fundamental_div_mod_converse(-n, b, -t - 1, b - 1 - r);
}

/// `v` held to the interval `[-WORLD_LIMIT, WORLD_LIMIT]`.
pub fn clamp_to_world(v: i128) -> (r: i64)
    ensures
        r == clamp_world(v as int),
{
    if v < -(WORLD_LIMIT as i128) {
        -WORLD_LIMIT
    } else if v > WORLD_LIMIT as i128 {
        WORLD_LIMIT
    } else {
        v as i64
    }
}

} // verus!
