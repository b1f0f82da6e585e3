//! Single-shot countdown timers.
//!
//! Time is counted in integer nanoseconds, so accumulating many small
//! ticks is exact: only the total elapsed time decides when a timer
//! finishes, never how that total was divided into ticks.

use vstd::prelude::*;

verus! {

use vstd::arithmetic::div_mod::{lemma_div_is_ordered, lemma_div_multiples_vanish, lemma_div_pos_is_pos};
use crate::fixed::SCALE;

/// Duration of a jump and of a plane rotation: half a second.
pub const HALF_SECOND_NANOS: u64 = 500_000_000;

/// A single-shot timer that counts elapsed nanoseconds up to a fixed
/// duration and then stays finished until reset.
#[derive(Clone, Copy, PartialEq, Eq, Structural, Debug)]
pub struct TickTimer {
    pub duration_nanos: u64,
    pub elapsed_nanos: u64,
}

impl TickTimer {
    /// The duration is positive and the elapsed time never exceeds it.
    pub open spec fn wf(self) -> bool {
        &&& 0 < self.duration_nanos
        &&& self.elapsed_nanos <= self.duration_nanos
    }

    /// The timer has run its full duration.
    pub open spec fn finished_spec(self) -> bool {
        self.elapsed_nanos == self.duration_nanos
    }

    /// The timer after `dt` more nanoseconds: elapsed time grows by `dt`
    /// and saturates at the duration.
    pub open spec fn advanced_spec(self, dt: u64) -> TickTimer {
        if self.elapsed_nanos + dt >= self.duration_nanos {
            TickTimer { duration_nanos: self.duration_nanos, elapsed_nanos: self.duration_nanos }
        } else {
            TickTimer {
                duration_nanos: self.duration_nanos,
                elapsed_nanos: (self.elapsed_nanos + dt) as u64,
            }
        }
    }

    /// Elapsed share of the duration, as a fixed-point fraction of one,
    /// rounded down.
    pub open spec fn fraction_micros_spec(self) -> int {
        self.elapsed_nanos * SCALE / (self.duration_nanos as int)
    }

    /// A timer that has not started running.
    pub fn fresh(duration_nanos: u64) -> (r: TickTimer)
        requires
            0 < duration_nanos,
        ensures
            r == (TickTimer { duration_nanos, elapsed_nanos: 0 }),
            r.wf(),
            !r.finished_spec(),
    {
        TickTimer { duration_nanos, elapsed_nanos: 0 }
    }

    /// A timer that has already run out.
    pub fn spent(duration_nanos: u64) -> (r: TickTimer)
        requires
            0 < duration_nanos,
        ensures
            r == (TickTimer { duration_nanos, elapsed_nanos: duration_nanos }),
            r.wf(),
            r.finished_spec(),
    {
        TickTimer { duration_nanos, elapsed_nanos: duration_nanos }
    }

    /// Run the timer for `dt` nanoseconds.
    pub fn advance(&mut self, dt: u64)
        requires
            old(self).wf(),
        ensures
            *final(self) == old(self).advanced_spec(dt),
            final(self).wf(),
    {
        let room = self.duration_nanos - self.elapsed_nanos;
        if dt >= room {
            self.elapsed_nanos = self.duration_nanos;
        } else {
            self.elapsed_nanos = self.elapsed_nanos + dt;
        }
    }

    /// Whether the timer has run its full duration.
    pub fn finished(&self) -> (r: bool)
        ensures
            r == self.finished_spec(),
    {
        self.elapsed_nanos == self.duration_nanos
    }

    /// Start the timer over.
    pub fn reset(&mut self)
        ensures
            *final(self) == (TickTimer {
                duration_nanos: old(self).duration_nanos,
                elapsed_nanos: 0,
            }),
    {
        self.elapsed_nanos = 0;
    }

    /// Elapsed share of the duration as a fixed-point fraction: `0` when
    /// untouched, `SCALE` exactly when finished.
    pub fn fraction_micros(&self) -> (r: i64)
        requires
            self.wf(),
        ensures
            r == self.fraction_micros_spec(),
            0 <= r <= SCALE,
            r == SCALE <==> self.finished_spec(),
            self.elapsed_nanos == 0 ==> r == 0,
    {
        proof {
            self.lemma_fraction_micros_range();
        }
        let f: u128 = (self.elapsed_nanos as u128) * (SCALE as u128) / (self.duration_nanos as u128);
        f as i64
    }

    /// The fraction lies between zero and one and reaches either end
    /// exactly with the elapsed time.
    pub proof fn lemma_fraction_micros_range(self)
        requires
            self.wf(),
        ensures
            0 <= self.fraction_micros_spec() <= SCALE,
            self.fraction_micros_spec() == SCALE <==> self.finished_spec(),
            self.elapsed_nanos == 0 ==> self.fraction_micros_spec() == 0,
    {
        let d = self.duration_nanos as int;
        let e = self.elapsed_nanos as int;
        lemma_div_pos_is_pos(e * SCALE, d);
        lemma_div_multiples_vanish(SCALE as int, d);
        assert(e * SCALE <= d * SCALE) by (nonlinear_arith)
            requires
                0 <= e <= d,
                SCALE == 1_000_000,
        ;
        lemma_div_is_ordered(e * SCALE, d * SCALE, d);
        if e < d {
            assert(e * SCALE + SCALE <= d * SCALE) by (nonlinear_arith)
                requires
                    e + 1 <= d,
                    SCALE == 1_000_000,
            ;
            assert((e * SCALE) / d < SCALE) by {
                if (e * SCALE) / d >= SCALE {
                    vstd::arithmetic::div_mod::lemma_fundamental_div_mod(e * SCALE, d);
                    assert(e * SCALE == d * ((e * SCALE) / d) + (e * SCALE) % d);
                    vstd::arithmetic::mul::lemma_mul_inequality(SCALE as int, (e * SCALE) / d, d);
                    assert(d * SCALE <= d * ((e * SCALE) / d)) by (nonlinear_arith)
                        requires
                            SCALE <= (e * SCALE) / d,
                            0 < d,
                    ;
                    vstd::arithmetic::div_mod::lemma_mod_division_less_than_divisor(e * SCALE, d);
                }
            }
        }
        if e == d {
            assert(e * SCALE == d * SCALE);
        }
        if e == 0 {
            assert(e * SCALE == 0);
            vstd::arithmetic::div_mod::lemma_div_of0(d);
        }
    }
}

} // verus!
