//! The player-controlled glider: a position, a constant forward speed and a
//! vertical velocity that gravity pulls on and a flap resets.

use vstd::prelude::*;
use crate::units::{
    COORD_LIMIT, MAX_FRAME_MS, SCALE, VEL_LIMIT, round_units, round_units_nonneg, sat, scale_ms,
};

verus! {

/// Downward acceleration, in thousandths of a cell per second per second.
pub const ACCEL_GRAVITY: i64 = 9_800;

/// Vertical velocity right after a flap, in thousandths per second.
pub const VELOCITY_FLAP: i64 = -15_000;

/// Constant forward speed, in thousandths per second.
pub const PLAYER_DX: i64 = 15_000;

/// Positions and velocities are fixed-point thousandths of a cell; `y` grows
/// downward and is clamped at 0 (the top edge of the screen).
#[derive(Clone, Copy, Debug, PartialEq, Eq, Structural)]
pub struct Player {
    pub x: i64,
    pub y: i64,
    pub dx: i64,
    pub dy: i64,
}

/// Vertical velocity after gravity acted for `d` milliseconds.
pub open spec fn dy_after(dy: int, d: int) -> int {
    sat(dy + ACCEL_GRAVITY * d / 1000, VEL_LIMIT as int)
}

/// Vertical position after moving at `dy2` for `d` milliseconds: saturated
/// above, clamped at the top edge (0) below.
pub open spec fn y_after(y: int, dy2: int, d: int) -> int {
    let t = y + scale_ms(dy2, d);
    if t > COORD_LIMIT {
        COORD_LIMIT as int
    } else if t < 0 {
        0
    } else {
        t
    }
}

/// Horizontal position after moving at `dx` for `d` milliseconds.
pub open spec fn x_after(x: int, dx: int, d: int) -> int {
    sat(x + scale_ms(dx, d), COORD_LIMIT as int)
}

impl Player {
    /// Coordinates within the saturation bounds, `y` at or below the top
    /// edge, velocities bounded, forward speed non-negative.
    pub open spec fn wf(self) -> bool {
        &&& 0 <= self.x <= COORD_LIMIT
        &&& 0 <= self.y <= COORD_LIMIT
        &&& 0 <= self.dx <= VEL_LIMIT
        &&& -VEL_LIMIT <= self.dy <= VEL_LIMIT
    }

    /// A glider at `(x, y)` thousandths, moving right at the fixed forward
    /// speed with no vertical velocity.
    pub fn new(x: i64, y: i64) -> (p: Player)
        requires
            0 <= x <= COORD_LIMIT,
            0 <= y <= COORD_LIMIT,
        ensures
            p == (Player { x, y, dx: PLAYER_DX, dy: 0i64 }),
            p.wf(),
    {
        Player { x, y, dx: PLAYER_DX, dy: 0 }
    }

    /// The screen row the glider is drawn on: its vertical position rounded
    /// to the nearest cell.
    pub fn screen_y(&self) -> (r: i64)
        requires
            self.wf(),
        ensures
            r == round_units(self.y as int),
    {
        round_units_nonneg(self.y)
    }

    /// The world column the glider occupies: its horizontal position rounded
    /// to the nearest cell.
    pub fn world_x(&self) -> (r: i64)
        requires
            self.wf(),
        ensures
            r == round_units(self.x as int),
    {
        round_units_nonneg(self.x)
    }

    /// One explicit-Euler physics step over `delta_ms` milliseconds: gravity
    /// first raises `dy`, then the new velocities move the position, and `y`
    /// is clamped at the top edge. `y` never ends negative.
    pub fn update(&mut self, delta_ms: u64)
        requires
            old(self).wf(),
            delta_ms <= MAX_FRAME_MS,
        ensures
            final(self).dy == dy_after(old(self).dy as int, delta_ms as int),
            final(self).y == y_after(old(self).y as int, final(self).dy as int, delta_ms as int),
            final(self).x == x_after(old(self).x as int, old(self).dx as int, delta_ms as int),
            final(self).dx == old(self).dx,
            final(self).y >= 0,
            final(self).wf(),
    {
        let d = delta_ms as i64;
        assert(ACCEL_GRAVITY * d <= 9_800_000_000_000i64) by (nonlinear_arith)
            requires 0 <= d <= 1_000_000i64;
        let grav = (ACCEL_GRAVITY * d) / SCALE;
        assert(0 <= grav <= 9_800_000_000i64) by (nonlinear_arith)
            requires grav == (9_800 * d) / 1000, 0 <= d <= 1_000_000i64;
        let dy1 = self.dy + grav;
        self.dy = if dy1 > VEL_LIMIT {
            VEL_LIMIT
        } else if dy1 < -VEL_LIMIT {
            -VEL_LIMIT
        } else {
            dy1
        };
        let ystep = if self.dy >= 0 {
            assert(self.dy * d <= 1_000_000_000_000_000i64 && self.dy * d >= 0) by (nonlinear_arith)
                requires 0 <= self.dy <= 1_000_000_000i64, 0 <= d <= 1_000_000i64;
            (self.dy * d) / SCALE
        } else {
            let mag = -self.dy;
            assert(mag * d <= 1_000_000_000_000_000i64 && mag * d >= 0) by (nonlinear_arith)
                requires 0 <= mag <= 1_000_000_000i64, 0 <= d <= 1_000_000i64;
            -((mag * d) / SCALE)
        };
        assert(ystep == scale_ms(self.dy as int, d as int));
        let y1 = self.y + ystep;
        self.y = if y1 > COORD_LIMIT {
            COORD_LIMIT
        } else if y1 < 0 {
            0
        } else {
            y1
        };
        assert(self.dx * d <= 1_000_000_000_000_000i64 && self.dx * d >= 0) by (nonlinear_arith)
            requires 0 <= self.dx <= 1_000_000_000i64, 0 <= d <= 1_000_000i64;
        let xstep = (self.dx * d) / SCALE;
        let x1 = self.x + xstep;
        self.x = if x1 > COORD_LIMIT {
            COORD_LIMIT
        } else {
            x1
        };
    }

    /// A flap overwrites the vertical velocity with the fixed impulse; it
    /// never accumulates, and touches nothing else.
    pub fn flap(&mut self)
        ensures
            final(self).dy == VELOCITY_FLAP,
            final(self).x == old(self).x,
            final(self).y == old(self).y,
            final(self).dx == old(self).dx,
    {
        self.dy = VELOCITY_FLAP;
    }
}

} // verus!
