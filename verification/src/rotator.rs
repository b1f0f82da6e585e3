//! The rotating reference plane.
//!
//! The plane rests at an exact axis-aligned orientation and, on request,
//! turns by a quarter about a world axis over half a second. While the
//! countdown runs, the displayed orientation is the interpolation from the
//! old target to the new one; it is described exactly as the old target
//! composed with a partial turn whose fraction the countdown yields.

use vstd::prelude::*;

verus! {

use crate::fixed::{FX_LIM, SCALE};
use crate::orientation::{
    apply3,
    lemma_apply3_in_range,
    lemma_turn3_in_range,
    lemma_turn3_quarter_angle,
    lemma_turn3_zero_angle,
    turn,
    turn3,
    Axis,
    Orientation,
    Trig,
};
use crate::timer::{TickTimer, HALF_SECOND_NANOS};
use crate::vec3::Vec3;

/// The displayed orientation of the plane at one instant: the rest
/// orientation `base` composed with a partial quarter turn about `axis`
/// whose fraction of the full quarter is `turn_micros`, fixed-point.
#[derive(Clone, Copy, Debug)]
pub struct PlaneAttitude {
    pub base: Orientation,
    pub axis: Axis,
    pub turn_micros: i64,
}

impl PlaneAttitude {
    /// The base is a proper orientation; the fraction lies between zero
    /// and one.
    pub open spec fn wf(self) -> bool {
        &&& self.base.wf()
        &&& 0 <= self.turn_micros <= SCALE
    }

    /// Image of the integer point `(vx, vy, vz)` under this attitude,
    /// given the cosine and sine `c`, `s` of the partial angle: first the
    /// partial turn about the axis, then the base orientation.
    pub open spec fn rotate3(self, c: int, s: int, vx: int, vy: int, vz: int) -> (int, int, int) {
        let (tx, ty, tz) = turn3(self.axis, c, s, vx, vy, vz);
        apply3(self.base, tx, ty, tz)
    }

    /// Rotate a vector by this attitude. The caller supplies the cosine
    /// and sine of the partial angle; at the two rest fractions
    /// `Trig::zero_angle` and `Trig::quarter_angle` are the exact pairs.
    pub fn rotate(&self, t: Trig, v: Vec3) -> (r: Vec3)
        requires
            self.wf(),
            t.wf(),
            v.in_range(FX_LIM as int),
        ensures
            (r.x as int, r.y as int, r.z as int) == self.rotate3(
                t.cos as int,
                t.sin as int,
                v.x as int,
                v.y as int,
                v.z as int,
            ),
            r.in_range(6 * FX_LIM),
    {
        let turned = turn(self.axis, t, v);
        proof {
            lemma_turn3_in_range(
                self.axis,
                t.cos as int,
                t.sin as int,
                v.x as int,
                v.y as int,
                v.z as int,
                FX_LIM as int,
            );
            lemma_apply3_in_range(
                self.base,
                turned.x as int,
                turned.y as int,
                turned.z as int,
                2 * FX_LIM,
            );
        }
        self.base.apply(turned)
    }
}

/// Current and target orientation of the reference plane, with the
/// countdown that carries one to the other.
#[derive(Clone, Copy, Debug)]
pub struct PlaneRotator {
    /// Rest orientation the running transition started from; `None` only
    /// before any rotation has ever been requested.
    pub previous: Option<Orientation>,
    /// Rest orientation the plane is heading to (or resting at).
    pub next: Orientation,
    /// Axis of the most recently requested quarter turn.
    pub axis: Axis,
    /// Single-shot half-second countdown of the running transition.
    pub timer: TickTimer,
}

impl PlaneRotator {
    /// The orientations are proper rotations, the target is the start
    /// composed with the requested quarter turn, and before the first
    /// request the countdown is already spent.
    pub open spec fn wf(self) -> bool {
        &&& self.next.wf()
        &&& self.timer.wf()
        &&& self.timer.duration_nanos == HALF_SECOND_NANOS
        &&& match self.previous {
            Some(p) => p.wf() && self.next == p.rotated_90_spec(self.axis),
            None => self.timer.finished_spec(),
        }
    }

    /// The rotator after a quarter turn about `axis` is requested:
    /// the old target becomes the start — even when a transition is still
    /// in flight, so a re-request mid-turn jumps the display to the old
    /// target — the new target composes the quarter turn onto it, and the
    /// countdown starts over.
    pub open spec fn begun_spec(self, axis: Axis) -> PlaneRotator {
        PlaneRotator {
            previous: Some(self.next),
            next: self.next.rotated_90_spec(axis),
            axis,
            timer: TickTimer { duration_nanos: self.timer.duration_nanos, elapsed_nanos: 0 },
        }
    }

    /// The rotator with its countdown run for `dt` nanoseconds.
    pub open spec fn advanced_spec(self, dt: u64) -> PlaneRotator {
        PlaneRotator { timer: self.timer.advanced_spec(dt), ..self }
    }

    /// The displayed orientation: before any request, the resting target;
    /// during (and after) a transition, the start orientation composed
    /// with the elapsed fraction of the quarter turn.
    pub open spec fn current_spec(self) -> PlaneAttitude {
        match self.previous {
            None => PlaneAttitude { base: self.next, axis: self.axis, turn_micros: 0 },
            Some(p) => PlaneAttitude {
                base: p,
                axis: self.axis,
                turn_micros: self.timer.fraction_micros_spec() as i64,
            },
        }
    }

    /// A plane that has never been asked to rotate: resting at the
    /// identity orientation.
    pub fn new() -> (r: PlaneRotator)
        ensures
            r == (PlaneRotator {
                previous: None::<Orientation>,
                next: Orientation::identity_spec(),
                axis: Axis::X,
                timer: TickTimer {
                    duration_nanos: HALF_SECOND_NANOS,
                    elapsed_nanos: HALF_SECOND_NANOS,
                },
            }),
            r.wf(),
    {
        PlaneRotator {
            previous: None,
            next: Orientation::identity(),
            axis: Axis::X,
            timer: TickTimer::spent(HALF_SECOND_NANOS),
        }
    }

    /// Request a quarter turn about `axis`.
    pub fn begin(&mut self, axis: Axis)
        requires
            old(self).wf(),
        ensures
            *final(self) == old(self).begun_spec(axis),
            final(self).wf(),
    {
        self.previous = Some(self.next);
        self.next = self.next.rotated_90(axis);
        self.axis = axis;
        self.timer.reset();
    }

    /// Run the transition countdown for `dt` nanoseconds.
    pub fn advance(&mut self, dt: u64)
        requires
            old(self).wf(),
        ensures
            *final(self) == old(self).advanced_spec(dt),
            final(self).wf(),
    {
        self.timer.advance(dt);
    }

    /// Whether the transition countdown has run out.
    pub fn finished(&self) -> (r: bool)
        ensures
            r == self.timer.finished_spec(),
    {
        self.timer.finished()
    }

    /// Elapsed fraction of the running transition, fixed-point.
    pub fn fraction_micros(&self) -> (r: i64)
        requires
            self.wf(),
        ensures
            r == self.timer.fraction_micros_spec(),
            0 <= r <= SCALE,
    {
        self.timer.fraction_micros()
    }

    /// The displayed orientation of the plane.
    pub fn current(&self) -> (r: PlaneAttitude)
        requires
            self.wf(),
        ensures
            r == self.current_spec(),
            r.wf(),
    {
        proof {
            self.timer.lemma_fraction_micros_range();
        }
        match self.previous {
            None => PlaneAttitude { base: self.next, axis: self.axis, turn_micros: 0 },
            Some(p) => PlaneAttitude {
                base: p,
                axis: self.axis,
                turn_micros: self.timer.fraction_micros(),
            },
        }
    }
}

/// At fraction zero the displayed orientation moves every vector exactly
/// as the start orientation does: the interpolation begins at `previous`.
pub proof fn lemma_current_matches_previous_at_start(r: PlaneRotator, vx: int, vy: int, vz: int)
    requires
        r.wf(),
        r.previous is Some,
        r.current_spec().turn_micros == 0,
    ensures
        r.current_spec().rotate3(SCALE as int, 0, vx, vy, vz) == apply3(r.previous->0, vx, vy, vz),
{
    lemma_turn3_zero_angle(r.axis, vx, vy, vz);
}

/// At fraction one the displayed orientation moves every vector exactly
/// as the target orientation does: the interpolation ends at `next`.
pub proof fn lemma_current_matches_next_at_end(r: PlaneRotator, vx: int, vy: int, vz: int)
    requires
        r.wf(),
        r.previous is Some,
        r.current_spec().turn_micros == SCALE,
    ensures
        r.current_spec().rotate3(0, SCALE as int, vx, vy, vz) == apply3(r.next, vx, vy, vz),
{
    lemma_turn3_quarter_angle(r.previous->0, r.axis, vx, vy, vz);
}

} // verus!
