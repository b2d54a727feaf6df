//! The integer lattice on which the game is simulated.
//!
//! Lengths and positions are counted in ticks, a thousand million to the
//! length unit. Velocity components are counted in thousandths and time in
//! microseconds, so that a velocity times a time times a speed in length
//! units per second is a whole number of ticks.

use vstd::prelude::*;

verus! {

/// Ticks in one length unit.
pub const UNIT: i64 = 1_000_000_000;

/// The velocity component that stands for one.
pub const ONE: i64 = 1_000;

/// No coordinate leaves `[-WORLD_LIMIT, WORLD_LIMIT]`; a move that would
/// cross the edge of the world stops at it.
pub const WORLD_LIMIT: i64 = 1_000_000_000_000_000_000;

/// The coordinate nearest to `v` that lies in the world.
pub open spec fn clamp_world(v: int) -> int {
    if v < -WORLD_LIMIT {
        -WORLD_LIMIT as int
    } else if v > WORLD_LIMIT {
        WORLD_LIMIT as int
    } else {
        v
    }
}

/// Whether `v` is a coordinate of the world.
pub open spec fn in_world(v: int) -> bool {
    -WORLD_LIMIT <= v <= WORLD_LIMIT
}

/// Whether `v` is a length that fits in the world: the width of a
/// rectangle, or of the screen.
pub open spec fn is_extent(v: int) -> bool {
    0 <= v <= WORLD_LIMIT
}

/// The sign of `v`: -1, 0 or 1.
pub open spec fn sign(v: int) -> int {
    if v > 0 {
        1
    } else if v < 0 {
        -1
    } else {
        0
    }
}

/// The absolute value of `v`.
pub open spec fn magnitude(v: int) -> int {
    if v < 0 {
        -v
    } else {
        v
    }
}

/// Half of `n`, rounded toward zero.
pub open spec fn half(n: int) -> int {
    if n >= 0 {
        n / 2
    } else {
        -((-n) / 2)
    }
}

/// Brings a coordinate into the world.
pub fn saturate(v: i64) -> (r: i64)
    ensures
        r == clamp_world(v as int),
{
    if v < -WORLD_LIMIT {
        -WORLD_LIMIT
    } else if v > WORLD_LIMIT {
        WORLD_LIMIT
    } else {
        v
    }
}

/// Computes the sign of `v`.
pub fn signum(v: i64) -> (r: i64)
    ensures
        r == sign(v as int),
{
    if v > 0 {
        1
    } else if v < 0 {
        -1
    } else {
        0
    }
}

/// Computes the absolute value of `v`.
pub fn abs(v: i64) -> (r: i64)
    requires
        v > i64::MIN,
    ensures
        r == magnitude(v as int),
{
    if v < 0 {
        -v
    } else {
        v
    }
}

/// Computes half of `n`, rounded toward zero.
pub fn halve(n: i64) -> (r: i64)
    ensures
        r == half(n as int),
{
    n / 2
}

} // verus!
