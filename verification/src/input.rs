//! Per-tick input to the simulation.

use vstd::prelude::*;

verus! {

use crate::fixed::SCALE;

/// Fixed-point value of the diagonal intent component: the largest scalar
/// whose square is at most half the square of one (`lemma_diag_is_half_root`).
pub const DIAG: i64 = 707_106;

/// Longest tick the simulation accepts: a thousand seconds, far beyond any
/// real frame, keeps all per-tick arithmetic within `i64`.
pub const MAX_TICK_NANOS: u64 = 1_000_000_000_000;

/// Everything the simulation reads in one tick: the normalized movement
/// intent, the action keys, the grounded report of the physics engine
/// (`false` when no report exists, as on the first tick), and the tick's
/// duration.
#[derive(Clone, Copy, PartialEq, Eq, Structural, Debug)]
pub struct TickInput {
    /// Sideways movement intent, fixed-point, within one in magnitude.
    pub intent_x: i64,
    /// Forward movement intent, fixed-point, within one in magnitude.
    pub intent_y: i64,
    /// Jump key held this tick.
    pub jump: bool,
    /// Key requesting a plane rotation about the X axis.
    pub rotate_x: bool,
    /// Key requesting a plane rotation about the Y axis.
    pub rotate_y: bool,
    /// Key requesting a plane rotation about the Z axis.
    pub rotate_z: bool,
    /// Whether the physics engine reported ground contact this tick.
    pub grounded: bool,
    /// Duration of this tick in nanoseconds.
    pub dt_nanos: u64,
}

impl TickInput {
    /// The intent is a normalized direction and the tick duration is sane.
    pub open spec fn wf(self) -> bool {
        &&& -SCALE <= self.intent_x <= SCALE
        &&& -SCALE <= self.intent_y <= SCALE
        &&& self.dt_nanos <= MAX_TICK_NANOS
    }

    /// No movement intent at all.
    pub open spec fn intent_is_zero(self) -> bool {
        self.intent_x == 0 && self.intent_y == 0
    }

    /// Some action key is held: a rotation request or a jump.
    pub open spec fn action_pressed(self) -> bool {
        self.rotate_x || self.rotate_y || self.rotate_z || self.jump
    }

    /// Tick duration in micro-units of a second (fixed-point seconds),
    /// rounded down.
    pub open spec fn dt_micros_spec(self) -> int {
        self.dt_nanos as int / 1000
    }

    /// Tick duration as a fixed-point scalar of seconds.
    pub fn dt_micros(&self) -> (r: i64)
        requires
            self.wf(),
        ensures
            r == self.dt_micros_spec(),
            0 <= r <= MAX_TICK_NANOS / 1000,
    {
        (self.dt_nanos / 1000) as i64
    }
}

/// Raw key axis: positive key minus negative key.
pub open spec fn key_axis(positive: bool, negative: bool) -> int {
    (if positive {
        1int
    } else {
        0int
    }) - (if negative {
        1int
    } else {
        0int
    })
}

/// Normalized movement intent from the four movement keys. Opposing keys
/// cancel before normalization, so holding both forward and backward is a
/// zero intent. A single live axis gives a whole unit; two live axes give
/// the diagonal component on each.
pub fn intent_from_keys(forward: bool, left: bool, backward: bool, right: bool) -> (r: (
    i64,
    i64,
))
    ensures
        ({
            let rx = key_axis(right, left);
            let ry = key_axis(forward, backward);
            &&& rx == 0 && ry == 0 ==> r == (0i64, 0i64)
            &&& rx == 0 && ry != 0 ==> r == (0i64, (ry * SCALE) as i64)
            &&& rx != 0 && ry == 0 ==> r == ((rx * SCALE) as i64, 0i64)
            &&& rx != 0 && ry != 0 ==> r == ((rx * DIAG) as i64, (ry * DIAG) as i64)
        }),
        -SCALE <= r.0 <= SCALE,
        -SCALE <= r.1 <= SCALE,
{
    let mut x: i64 = 0;
    let mut y: i64 = 0;
    if right {
        x = x + 1;
    }
    if left {
        x = x - 1;
    }
    if forward {
        y = y + 1;
    }
    if backward {
        y = y - 1;
    }
    if x == 0 && y == 0 {
        (0, 0)
    } else if x == 0 {
        (0, y * SCALE)
    } else if y == 0 {
        (x * SCALE, 0)
    } else {
        (x * DIAG, y * DIAG)
    }
}

/// `DIAG` is the fixed-point reciprocal square root of two, rounded down:
/// its square is at most half the square of one, and the next scalar's
/// square already exceeds it.
pub proof fn lemma_diag_is_half_root()
    ensures
        DIAG * DIAG <= SCALE * SCALE / 2,
        (DIAG + 1) * (DIAG + 1) > SCALE * SCALE / 2,
{
    assert(707_106int * 707_106 == 499_998_895_236) by (nonlinear_arith);
    assert(707_107int * 707_107 == 500_000_309_449) by (nonlinear_arith);
}

} // verus!
