//! The locomotion state machine and the per-tick force integration.
//!
//! Each simulation tick has two phases. `LocomotionStateMachine::step`
//! evaluates the transition table on the pre-tick state, running the
//! payload countdowns, snapshotting the old state on a tag change and
//! commanding the plane rotator when a rotation begins. `tick_effects`
//! then derives, from the post-transition state, the forces of the tick
//! and the desired velocity — the force sum rotated into world space by
//! the plane's displayed orientation and scaled by the tick duration —
//! together with the controller's up vector and the culling plane normal
//! while the plane is turning.

use vstd::prelude::*;

verus! {

use crate::fixed::{lemma_scaled_bound, scaled, SCALE};
use crate::input::TickInput;
use crate::orientation::{lemma_apply3_in_range, lemma_turn3_in_range, turn3, Axis, Trig};
use crate::rotator::PlaneRotator;
use crate::state::LocomotionState;
use crate::timer::{TickTimer, HALF_SECOND_NANOS};
use crate::vec3::Vec3;

/// Gravity, in micro-units: ten units of force, straight down.
pub const GRAVITY_Y: i64 = -10_000_000;

/// Speed factor applied to the intent while running.
pub const RUNNING_SPEED: i64 = 8;

/// Speed factor applied to the intent while airborne.
pub const AIR_SPEED: i64 = 5;

/// Upward force of a fresh jump, in whole units; it fades with the
/// remaining fraction of the jump countdown.
pub const JUMPING_FORCE_Y: i64 = 30;

/// Largest magnitude a force component can reach: gravity plus the jump
/// force plus the steered part, with room to spare.
pub const FORCE_LIM: i64 = 50_000_000;

/// The player's discrete state together with the snapshot the transition
/// table falls back to when a plane rotation completes.
#[derive(Clone, Copy, Debug)]
pub struct LocomotionStateMachine {
    /// Current locomotion state, as committed by the last tick.
    pub state: LocomotionState,
    /// The state that was current when the tag last changed, written only
    /// then and read only when Rotating completes.
    pub previous: LocomotionState,
}

/// A fresh jump payload: the full half-second countdown ahead.
pub open spec fn fresh_jump_spec() -> LocomotionState {
    LocomotionState::Jumping {
        timer: TickTimer { duration_nanos: HALF_SECOND_NANOS, elapsed_nanos: 0 },
    }
}

/// The state the transition table selects for this tick, evaluated on the
/// pre-tick state with its payload countdown already run for the tick:
/// - Standing starts a rotation (axis keys take priority in X, Y, Z
///   order), else a jump, else runs on a movement intent;
/// - Running jumps, or stops on a zero intent — rotation keys are ignored;
/// - Jumping falls on the tick its countdown first reaches the duration;
/// - Falling stands once grounded;
/// - Rotating reverts to the snapshot on the tick the plane's countdown
///   first reaches the duration (the tick's advance is counted here).
pub open spec fn next_state_spec(
    state: LocomotionState,
    previous: LocomotionState,
    rotator: PlaneRotator,
    input: TickInput,
) -> LocomotionState {
    match state {
        LocomotionState::Standing => {
            if input.rotate_x {
                LocomotionState::Rotating { axis: Axis::X }
            } else if input.rotate_y {
                LocomotionState::Rotating { axis: Axis::Y }
            } else if input.rotate_z {
                LocomotionState::Rotating { axis: Axis::Z }
            } else if input.jump {
                fresh_jump_spec()
            } else if !input.intent_is_zero() {
                LocomotionState::Running
            } else {
                LocomotionState::Standing
            }
        },
        LocomotionState::Running => {
            if input.jump {
                fresh_jump_spec()
            } else if input.intent_is_zero() {
                LocomotionState::Standing
            } else {
                LocomotionState::Running
            }
        },
        LocomotionState::Jumping { timer } => {
            let t = timer.advanced_spec(input.dt_nanos);
            if t.finished_spec() {
                LocomotionState::Falling
            } else {
                LocomotionState::Jumping { timer: t }
            }
        },
        LocomotionState::Falling => {
            if input.grounded {
                LocomotionState::Standing
            } else {
                LocomotionState::Falling
            }
        },
        LocomotionState::Rotating { axis } => {
            if rotator.advanced_spec(input.dt_nanos).timer.finished_spec() {
                previous
            } else {
                LocomotionState::Rotating { axis }
            }
        },
    }
}

/// The pre-tick state with its own countdown run for the tick: what the
/// snapshot keeps when the tag changes.
pub open spec fn ticked_state_spec(state: LocomotionState, dt: u64) -> LocomotionState {
    match state {
        LocomotionState::Jumping { timer } => LocomotionState::Jumping {
            timer: timer.advanced_spec(dt),
        },
        _ => state,
    }
}

/// The machine after one transition phase: the selected state, and the
/// snapshot overwritten with the (ticked) old state exactly when the tag
/// changed.
pub open spec fn machine_after_spec(
    m: LocomotionStateMachine,
    rotator: PlaneRotator,
    input: TickInput,
) -> LocomotionStateMachine {
    let next = next_state_spec(m.state, m.previous, rotator, input);
    LocomotionStateMachine {
        state: next,
        previous: if next.kind_spec() != m.state.kind_spec() {
            ticked_state_spec(m.state, input.dt_nanos)
        } else {
            m.previous
        },
    }
}

/// The plane rotator after one transition phase: while Rotating its
/// countdown runs for the tick; on the tick a rotation is entered, the
/// quarter turn is requested and the countdown takes its first step; any
/// other tick leaves it alone.
pub open spec fn rotator_after_spec(
    m: LocomotionStateMachine,
    rotator: PlaneRotator,
    input: TickInput,
) -> PlaneRotator {
    let next = next_state_spec(m.state, m.previous, rotator, input);
    if m.state is Rotating {
        rotator.advanced_spec(input.dt_nanos)
    } else {
        match next {
            LocomotionState::Rotating { axis } => rotator.begun_spec(axis).advanced_spec(
                input.dt_nanos,
            ),
            _ => rotator,
        }
    }
}

impl LocomotionStateMachine {
    /// Both the current state and the snapshot carry sane payloads.
    pub open spec fn wf(self) -> bool {
        &&& self.state.wf()
        &&& self.previous.wf()
    }

    /// A player at spawn: standing, with a standing snapshot.
    pub fn new() -> (r: LocomotionStateMachine)
        ensures
            r == (LocomotionStateMachine {
                state: LocomotionState::Standing,
                previous: LocomotionState::Standing,
            }),
            r.wf(),
    {
        LocomotionStateMachine {
            state: LocomotionState::Standing,
            previous: LocomotionState::Standing,
        }
    }

    /// Run the transition phase of one tick: pick the next state from the
    /// pre-tick state, snapshot the old state on a tag change, and drive
    /// the plane rotator — its countdown advances on every tick whose
    /// pre- or post-transition state is Rotating, once.
    pub fn step(&mut self, rotator: &mut PlaneRotator, input: &TickInput)
        requires
            old(self).wf(),
            old(rotator).wf(),
            input.wf(),
        ensures
            *final(self) == machine_after_spec(*old(self), *old(rotator), *input),
            *final(rotator) == rotator_after_spec(*old(self), *old(rotator), *input),
            final(self).wf(),
            final(rotator).wf(),
    {
        let dt = input.dt_nanos;
        let pre = self.state;
        let next: LocomotionState = match pre {
            LocomotionState::Standing => {
                if input.rotate_x {
                    LocomotionState::Rotating { axis: Axis::X }
                } else if input.rotate_y {
                    LocomotionState::Rotating { axis: Axis::Y }
                } else if input.rotate_z {
                    LocomotionState::Rotating { axis: Axis::Z }
                } else if input.jump {
                    LocomotionState::jumping()
                } else if input.intent_x != 0 || input.intent_y != 0 {
                    LocomotionState::Running
                } else {
                    LocomotionState::Standing
                }
            },
            LocomotionState::Running => {
                if input.jump {
                    LocomotionState::jumping()
                } else if input.intent_x == 0 && input.intent_y == 0 {
                    LocomotionState::Standing
                } else {
                    LocomotionState::Running
                }
            },
            LocomotionState::Jumping { timer } => {
                let mut t = timer;
                t.advance(dt);
                if t.finished() {
                    LocomotionState::Falling
                } else {
                    LocomotionState::Jumping { timer: t }
                }
            },
            LocomotionState::Falling => {
                if input.grounded {
                    LocomotionState::Standing
                } else {
                    LocomotionState::Falling
                }
            },
            LocomotionState::Rotating { axis } => {
                rotator.advance(dt);
                if rotator.finished() {
                    self.previous
                } else {
                    LocomotionState::Rotating { axis }
                }
            },
        };
        let changed = next.kind() != pre.kind();
        if changed {
            let snapshot: LocomotionState = match pre {
                LocomotionState::Jumping { timer } => {
                    let mut t = timer;
                    t.advance(dt);
                    LocomotionState::Jumping { timer: t }
                },
                _ => pre,
            };
            self.previous = snapshot;
            match next {
                LocomotionState::Rotating { axis } => {
                    rotator.begin(axis);
                    rotator.advance(dt);
                },
                _ => {},
            }
        }
        self.state = next;
    }
}

/// Sum of this tick's forces in the plane's frame, from the
/// post-transition state: gravity always, plus the state's locomotion
/// force — the intent steers running fully and the air states weakly, and
/// a jump pushes up with its countdown's remaining fraction.
pub open spec fn local_force3(state: LocomotionState, input: TickInput) -> (int, int, int) {
    match state {
        LocomotionState::Standing => (0, GRAVITY_Y as int, 0),
        LocomotionState::Running => (
            RUNNING_SPEED * input.intent_x,
            GRAVITY_Y + RUNNING_SPEED * input.intent_y,
            0,
        ),
        LocomotionState::Jumping { timer } => (
            AIR_SPEED * input.intent_x,
            GRAVITY_Y + JUMPING_FORCE_Y * (SCALE - timer.fraction_micros_spec()) + AIR_SPEED
                * input.intent_y,
            0,
        ),
        LocomotionState::Falling => (
            AIR_SPEED * input.intent_x,
            GRAVITY_Y + AIR_SPEED * input.intent_y,
            0,
        ),
        LocomotionState::Rotating { .. } => (0, GRAVITY_Y as int, 0),
    }
}

/// Compute this tick's force sum in the plane's frame.
pub fn local_force(state: &LocomotionState, input: &TickInput) -> (f: Vec3)
    requires
        state.wf(),
        input.wf(),
    ensures
        (f.x as int, f.y as int, f.z as int) == local_force3(*state, *input),
        f.in_range(FORCE_LIM as int),
{
    match state {
        LocomotionState::Standing => Vec3 { x: 0, y: GRAVITY_Y, z: 0 },
        LocomotionState::Running => Vec3 {
            x: RUNNING_SPEED * input.intent_x,
            y: GRAVITY_Y + RUNNING_SPEED * input.intent_y,
            z: 0,
        },
        LocomotionState::Jumping { timer } => {
            let remaining = SCALE - timer.fraction_micros();
            Vec3 {
                x: AIR_SPEED * input.intent_x,
                y: GRAVITY_Y + JUMPING_FORCE_Y * remaining + AIR_SPEED * input.intent_y,
                z: 0,
            }
        },
        LocomotionState::Falling => Vec3 {
            x: AIR_SPEED * input.intent_x,
            y: GRAVITY_Y + AIR_SPEED * input.intent_y,
            z: 0,
        },
        LocomotionState::Rotating { .. } => Vec3 { x: 0, y: GRAVITY_Y, z: 0 },
    }
}

/// The trigonometric pair the effects use: at the two rest fractions the
/// exact pairs, in between whatever the caller supplied for the partial
/// angle.
pub open spec fn effective_trig_spec(turn_micros: i64, t: Trig) -> Trig {
    if turn_micros == 0 {
        Trig { cos: SCALE, sin: 0 }
    } else if turn_micros == SCALE {
        Trig { cos: 0, sin: SCALE }
    } else {
        t
    }
}

/// This tick's force sum rotated into world space by the plane's
/// displayed orientation.
pub open spec fn world_force3(
    state: LocomotionState,
    input: TickInput,
    rotator: PlaneRotator,
    t: Trig,
) -> (int, int, int) {
    let att = rotator.current_spec();
    let e = effective_trig_spec(att.turn_micros, t);
    let (fx, fy, fz) = local_force3(state, input);
    att.rotate3(e.cos as int, e.sin as int, fx, fy, fz)
}

/// The desired displacement of the tick: the world force (over a unit
/// mass) scaled by the tick duration in fixed-point seconds.
pub open spec fn velocity3(
    state: LocomotionState,
    input: TickInput,
    rotator: PlaneRotator,
    t: Trig,
) -> (int, int, int) {
    let (wx, wy, wz) = world_force3(state, input, rotator, t);
    let dtm = input.dt_micros_spec();
    (scaled(wx, dtm), scaled(wy, dtm), scaled(wz, dtm))
}

/// The plane's local Y axis in world space: the controller's up vector
/// while rotating.
pub open spec fn up3(rotator: PlaneRotator, t: Trig) -> (int, int, int) {
    let att = rotator.current_spec();
    let e = effective_trig_spec(att.turn_micros, t);
    att.rotate3(e.cos as int, e.sin as int, 0, SCALE as int, 0)
}

/// The plane's local Z axis in world space: the culling plane normal
/// while rotating.
pub open spec fn plane_normal3(rotator: PlaneRotator, t: Trig) -> (int, int, int) {
    let att = rotator.current_spec();
    let e = effective_trig_spec(att.turn_micros, t);
    att.rotate3(e.cos as int, e.sin as int, 0, 0, SCALE as int)
}

/// What one tick hands to the physics bridge and the culler: the desired
/// velocity that replaces — never accumulates onto — the stored one, and,
/// while the plane is rotating, the new controller up vector and the
/// plane normal for visibility culling.
#[derive(Clone, Copy, Debug)]
pub struct TickEffects {
    pub velocity: Vec3,
    pub up: Option<Vec3>,
    pub plane_normal: Option<Vec3>,
}

/// Derive this tick's effects from the post-transition state. For the
/// partial angle of a plane mid-rotation the caller supplies the cosine
/// and sine in `trig`; at the rest fractions the exact pairs are used and
/// `trig` is ignored.
#[verifier::rlimit(50)]
pub fn tick_effects(
    state: &LocomotionState,
    input: &TickInput,
    rotator: &PlaneRotator,
    trig: &Trig,
) -> (e: TickEffects)
    requires
        state.wf(),
        input.wf(),
        rotator.wf(),
        trig.wf(),
    ensures
        (e.velocity.x as int, e.velocity.y as int, e.velocity.z as int) == velocity3(
            *state,
            *input,
            *rotator,
            *trig,
        ),
        e.velocity.in_range(300_000_000_000_000),
        e.up is Some <==> *state is Rotating,
        e.plane_normal is Some <==> *state is Rotating,
        e.up matches Some(u) ==> (u.x as int, u.y as int, u.z as int) == up3(*rotator, *trig)
            && u.in_range(6 * SCALE),
        e.plane_normal matches Some(n) ==> (n.x as int, n.y as int, n.z as int) == plane_normal3(
            *rotator,
            *trig,
        ) && n.in_range(6 * SCALE),
{
    let force = local_force(state, input);
    let att = rotator.current();
    let eff: Trig = if att.turn_micros == 0 {
        Trig::zero_angle()
    } else if att.turn_micros == SCALE {
        Trig::quarter_angle()
    } else {
        *trig
    };
    let world = att.rotate(eff, force);
    proof {
        let (tx, ty, tz) = turn3(
            att.axis,
            eff.cos as int,
            eff.sin as int,
            force.x as int,
            force.y as int,
            force.z as int,
        );
        lemma_turn3_in_range(
            att.axis,
            eff.cos as int,
            eff.sin as int,
            force.x as int,
            force.y as int,
            force.z as int,
            FORCE_LIM as int,
        );
        lemma_apply3_in_range(att.base, tx, ty, tz, 2 * FORCE_LIM);
    }
    let dtm = input.dt_micros();
    let velocity = world.scale(dtm);
    proof {
        lemma_scaled_bound(world.x as int, dtm as int, 6 * FORCE_LIM, 1_000_000_000);
        lemma_scaled_bound(world.y as int, dtm as int, 6 * FORCE_LIM, 1_000_000_000);
        lemma_scaled_bound(world.z as int, dtm as int, 6 * FORCE_LIM, 1_000_000_000);
    }
    let rotating = match state {
        LocomotionState::Rotating { .. } => true,
        _ => false,
    };
    if rotating {
        let up = att.rotate(eff, Vec3 { x: 0, y: SCALE, z: 0 });
        let normal = att.rotate(eff, Vec3 { x: 0, y: 0, z: SCALE });
        proof {
            let (ux, uy, uz) = turn3(att.axis, eff.cos as int, eff.sin as int, 0, SCALE as int, 0);
            let (nx, ny, nz) = turn3(att.axis, eff.cos as int, eff.sin as int, 0, 0, SCALE as int);
            lemma_turn3_in_range(
                att.axis,
                eff.cos as int,
                eff.sin as int,
                0,
                SCALE as int,
                0,
                SCALE as int,
            );
            lemma_turn3_in_range(
                att.axis,
                eff.cos as int,
                eff.sin as int,
                0,
                0,
                SCALE as int,
                SCALE as int,
            );
            lemma_apply3_in_range(att.base, ux, uy, uz, 2 * SCALE);
            lemma_apply3_in_range(att.base, nx, ny, nz, 2 * SCALE);
        }
        TickEffects { velocity, up: Some(up), plane_normal: Some(normal) }
    } else {
        TickEffects { velocity, up: None, plane_normal: None }
    }
}

/// With the player grounded, Standing is a fixed point of the transition
/// phase exactly when no action key is pressed and the movement intent is
/// zero: then, and only then, the machine and the plane rotator pass the
/// tick unchanged.
pub proof fn lemma_standing_fixed_point(
    m: LocomotionStateMachine,
    rotator: PlaneRotator,
    input: TickInput,
)
    requires
        m.wf(),
        rotator.wf(),
        input.wf(),
        m.state is Standing,
        input.grounded,
    ensures
        (machine_after_spec(m, rotator, input) == m && rotator_after_spec(m, rotator, input)
            == rotator) <==> (!input.action_pressed() && input.intent_is_zero()),
{
}

/// Accumulated nanoseconds of a sequence of tick durations.
pub open spec fn total_nanos(dts: Seq<u64>) -> int
    decreases dts.len(),
{
    if dts.len() == 0 {
        0
    } else {
        dts[0] + total_nanos(dts.drop_first())
    }
}

/// A jump countdown outlasts a sequence of ticks when no tick of the
/// sequence finishes it.
pub open spec fn jump_outlasts(timer: TickTimer, dts: Seq<u64>) -> bool
    decreases dts.len(),
{
    if dts.len() == 0 {
        true
    } else {
        let t = timer.advanced_spec(dts[0]);
        !t.finished_spec() && jump_outlasts(t, dts.drop_first())
    }
}

/// Tick durations accumulate to a nonnegative total.
pub proof fn lemma_total_nanos_nonneg(dts: Seq<u64>)
    ensures
        total_nanos(dts) >= 0,
    decreases dts.len(),
{
    if dts.len() > 0 {
        lemma_total_nanos_nonneg(dts.drop_first());
    }
}

/// However a span of time is divided into ticks, a jump in progress
/// outlasts all of them exactly when the accumulated time stays short of
/// the jump duration — so the tick on which the cumulative time first
/// reaches the duration ends the jump, independent of step granularity.
pub proof fn lemma_jump_exit_depends_on_total_time(timer: TickTimer, dts: Seq<u64>)
    requires
        timer.wf(),
        !timer.finished_spec(),
    ensures
        jump_outlasts(timer, dts) <==> timer.elapsed_nanos + total_nanos(dts)
            < timer.duration_nanos,
    decreases dts.len(),
{
    lemma_total_nanos_nonneg(dts);
    if dts.len() > 0 {
        let t = timer.advanced_spec(dts[0]);
        lemma_total_nanos_nonneg(dts.drop_first());
        if !t.finished_spec() {
            lemma_jump_exit_depends_on_total_time(t, dts.drop_first());
        }
    }
}

/// One tick moves Jumping to Falling exactly when this tick brings the
/// accumulated jump time up to the full jump duration.
pub proof fn lemma_jump_ends_on_threshold_tick(
    m: LocomotionStateMachine,
    rotator: PlaneRotator,
    input: TickInput,
)
    requires
        m.state is Jumping,
    ensures
        machine_after_spec(m, rotator, input).state is Falling <==> m.state->timer.elapsed_nanos
            + input.dt_nanos >= m.state->timer.duration_nanos,
{
}

/// The machine and the plane rotator agree: while the machine is
/// Rotating, the rotator has a transition to display — so its displayed
/// orientation really interpolates — and it turns about the very axis the
/// state names; and the snapshot never holds a second rotation, so a
/// completed rotation always reverts to one of the other four states'
/// tags. This holds at spawn, where the state is Standing.
pub open spec fn rotation_consistent(m: LocomotionStateMachine, rotator: PlaneRotator) -> bool {
    &&& match m.state {
        LocomotionState::Rotating { axis } => rotator.previous is Some && rotator.axis == axis,
        _ => true,
    }
    &&& !(m.state is Rotating && m.previous is Rotating)
}

/// Every tick preserves the agreement between the machine and the plane
/// rotator.
pub proof fn lemma_step_keeps_rotation_consistent(
    m: LocomotionStateMachine,
    rotator: PlaneRotator,
    input: TickInput,
)
    requires
        rotation_consistent(m, rotator),
    ensures
        rotation_consistent(
            machine_after_spec(m, rotator, input),
            rotator_after_spec(m, rotator, input),
        ),
{
}

/// When the plane's countdown completes this tick, Rotating reverts to
/// the snapshot taken when the rotation began: the very state value, so
/// the same tag, whichever of the five states stood before the rotation.
pub proof fn lemma_rotation_reverts_to_snapshot(
    m: LocomotionStateMachine,
    rotator: PlaneRotator,
    input: TickInput,
)
    requires
        m.state is Rotating,
        rotator.advanced_spec(input.dt_nanos).timer.finished_spec(),
    ensures
        machine_after_spec(m, rotator, input).state == m.previous,
        machine_after_spec(m, rotator, input).state.kind_spec() == m.previous.kind_spec(),
{
}

} // verus!
