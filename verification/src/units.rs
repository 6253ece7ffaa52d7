//! Fixed-point scale: world positions and velocities are whole numbers of
//! thousandths of a cell. Saturation bounds keep every arithmetic step inside
//! `i64` whatever the host feeds in, so the game loop is total.

use vstd::prelude::*;

verus! {

/// Thousandths of a cell per world unit.
pub const SCALE: i64 = 1000;

/// Half of `SCALE`, used for round-to-nearest.
pub const HALF_SCALE: i64 = 500;

/// Positions saturate at this many thousandths (a billion cells).
pub const COORD_LIMIT: i64 = 1_000_000_000_000;

/// Velocities saturate at this many thousandths per second (a million cells
/// per second).
pub const VEL_LIMIT: i64 = 1_000_000_000;

/// Largest frame time one step accepts, in milliseconds.
pub const MAX_FRAME_MS: u64 = 1_000_000;

/// `v` thousandths-per-second over `d` milliseconds: `v * d / 1000`,
/// truncating the magnitude toward zero (symmetric about zero).
pub open spec fn scale_ms(v: int, d: int) -> int {
    if v >= 0 {
        v * d / 1000
    } else {
        -((-v) * d / 1000)
    }
}

/// Clamp `v` to `[-limit, limit]`.
pub open spec fn sat(v: int, limit: int) -> int {
    if v > limit {
        limit
    } else if v < -limit {
        -limit
    } else {
        v
    }
}

/// Nearest whole cell to a fixed-point value, halves rounding away from zero.
pub open spec fn round_units(v: int) -> int {
    if v >= 0 {
        (v + 500) / 1000
    } else {
        -((-v + 500) / 1000)
    }
}

/// Rounding a position within the saturation bounds lands in
/// `[0, COORD_LIMIT / SCALE]`.
pub proof fn lemma_round_units_bounds(v: int)
    requires
        0 <= v <= COORD_LIMIT,
    ensures
        0 <= round_units(v) <= 1_000_000_000,
{
    assert(round_units(v) == (v + 500) / 1000);
    assert((v + 500) / 1000 >= 0) by (nonlinear_arith)
        requires v >= 0;
    assert((v + 500) / 1000 <= (1_000_000_000_000i64 + 500) / 1000) by (nonlinear_arith)
        requires v <= 1_000_000_000_000i64;
}

/// Exec rounding for the non-negative coordinates the game keeps.
pub fn round_units_nonneg(v: i64) -> (r: i64)
    requires
        0 <= v <= COORD_LIMIT,
    ensures
        r == round_units(v as int),
{
    proof {
        lemma_round_units_bounds(v as int);
    }
    (v + HALF_SCALE) / SCALE
}

} // verus!
