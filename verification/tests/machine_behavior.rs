//! Scenario tests for the locomotion state machine and the tick effects.

use gravity_plane::bridge::PlayerBody;
use gravity_plane::fixed::SCALE;
use gravity_plane::input::{intent_from_keys, TickInput};
use gravity_plane::machine::{tick_effects, LocomotionStateMachine};
use gravity_plane::orientation::{Axis, Orientation, Trig};
use gravity_plane::rotator::PlaneRotator;
use gravity_plane::state::{LocomotionState, StateKind};
use gravity_plane::timer::TickTimer;
use gravity_plane::vec3::Vec3;

fn neutral_input(dt_nanos: u64) -> TickInput {
    TickInput {
        intent_x: 0,
        intent_y: 0,
        jump: false,
        rotate_x: false,
        rotate_y: false,
        rotate_z: false,
        grounded: true,
        dt_nanos,
    }
}

#[test]
fn standing_is_fixed_when_grounded_and_idle() {
    let mut m = LocomotionStateMachine::new();
    let mut rot = PlaneRotator::new();
    let before_rot = rot;
    m.step(&mut rot, &neutral_input(16_000_000));
    assert_eq!(m.state.kind(), StateKind::Standing);
    assert_eq!(m.previous.kind(), StateKind::Standing);
    assert_eq!(rot.next, before_rot.next);
    assert_eq!(rot.timer, before_rot.timer);
}

#[test]
fn standing_leaves_on_each_action() {
    let cases = [
        (
            TickInput { rotate_x: true, ..neutral_input(10_000_000) },
            StateKind::Rotating,
        ),
        (
            TickInput { rotate_y: true, ..neutral_input(10_000_000) },
            StateKind::Rotating,
        ),
        (
            TickInput { rotate_z: true, ..neutral_input(10_000_000) },
            StateKind::Rotating,
        ),
        (
            TickInput { jump: true, ..neutral_input(10_000_000) },
            StateKind::Jumping,
        ),
        (
            TickInput { intent_x: SCALE, ..neutral_input(10_000_000) },
            StateKind::Running,
        ),
    ];
    for (input, expected) in cases {
        let mut m = LocomotionStateMachine::new();
        let mut rot = PlaneRotator::new();
        m.step(&mut rot, &input);
        assert_eq!(m.state.kind(), expected);
        assert_eq!(m.previous.kind(), StateKind::Standing);
    }
}

#[test]
fn rotation_keys_take_priority_over_jump_and_movement() {
    let mut m = LocomotionStateMachine::new();
    let mut rot = PlaneRotator::new();
    let input = TickInput {
        rotate_y: true,
        jump: true,
        intent_x: SCALE,
        ..neutral_input(10_000_000)
    };
    m.step(&mut rot, &input);
    match m.state {
        LocomotionState::Rotating { axis } => assert_eq!(axis, Axis::Y),
        _ => panic!("expected a rotation"),
    }
}

#[test]
fn running_ignores_rotation_keys() {
    let mut m = LocomotionStateMachine {
        state: LocomotionState::Running,
        previous: LocomotionState::Standing,
    };
    let mut rot = PlaneRotator::new();
    let input = TickInput {
        rotate_x: true,
        intent_x: SCALE,
        ..neutral_input(10_000_000)
    };
    m.step(&mut rot, &input);
    assert_eq!(m.state.kind(), StateKind::Running);
}

#[test]
fn both_opposing_keys_stop_the_runner() {
    // Forward and backward held together cancel before normalization.
    let (ix, iy) = intent_from_keys(true, false, true, false);
    assert_eq!((ix, iy), (0, 0));
    let mut m = LocomotionStateMachine {
        state: LocomotionState::Running,
        previous: LocomotionState::Standing,
    };
    let mut rot = PlaneRotator::new();
    let input = TickInput {
        intent_x: ix,
        intent_y: iy,
        ..neutral_input(16_666_666)
    };
    m.step(&mut rot, &input);
    assert_eq!(m.state.kind(), StateKind::Standing);
}

#[test]
fn running_velocity_on_identity_plane() {
    // Running with intent (1, 0) on the resting identity plane at one
    // sixtieth of a second: force (0,-10,0) + (8,0,0), velocity force × dt,
    // unrotated.
    let input = TickInput {
        intent_x: SCALE,
        ..neutral_input(16_666_666)
    };
    let state = LocomotionState::Running;
    let rot = PlaneRotator::new();
    let e = tick_effects(&state, &input, &rot, &Trig::zero_angle());
    // dt is 16_666 micro-seconds; 8 units × dt and -10 units × dt.
    assert_eq!(e.velocity, Vec3 { x: 133_328, y: -166_660, z: 0 });
    assert_eq!(e.up, None);
    assert_eq!(e.plane_normal, None);
}

#[test]
fn jump_force_fades_with_the_countdown() {
    // Halfway through the jump the upward force is 30 × 0.5, against
    // gravity 10: net +5 units on y.
    let state = LocomotionState::Jumping {
        timer: TickTimer { duration_nanos: 500_000_000, elapsed_nanos: 250_000_000 },
    };
    let input = neutral_input(100_000_000);
    let rot = PlaneRotator::new();
    let e = tick_effects(&state, &input, &rot, &Trig::zero_angle());
    assert_eq!(e.velocity, Vec3 { x: 0, y: 500_000, z: 0 });
}

#[test]
fn jump_ends_on_the_tick_crossing_the_threshold_coarse() {
    let mut m = LocomotionStateMachine::new();
    let mut rot = PlaneRotator::new();
    m.step(&mut rot, &TickInput { jump: true, ..neutral_input(10_000_000) });
    assert_eq!(m.state.kind(), StateKind::Jumping);
    // One half-second step crosses the threshold at once.
    m.step(&mut rot, &neutral_input(500_000_000));
    assert_eq!(m.state.kind(), StateKind::Falling);
}

#[test]
fn jump_ends_on_the_tick_crossing_the_threshold_fine() {
    let mut m = LocomotionStateMachine::new();
    let mut rot = PlaneRotator::new();
    m.step(&mut rot, &TickInput { jump: true, ..neutral_input(10_000_000) });
    // Forty-nine hundredth-of-a-second steps accumulate 0.49 s: still jumping.
    for _ in 0..49 {
        m.step(&mut rot, &neutral_input(10_000_000));
        assert_eq!(m.state.kind(), StateKind::Jumping);
    }
    // The fiftieth step reaches 0.5 s exactly: falling now.
    m.step(&mut rot, &neutral_input(10_000_000));
    assert_eq!(m.state.kind(), StateKind::Falling);
}

#[test]
fn falling_stands_once_grounded() {
    let mut m = LocomotionStateMachine {
        state: LocomotionState::Falling,
        previous: LocomotionState::Standing,
    };
    let mut rot = PlaneRotator::new();
    let airborne = TickInput { grounded: false, ..neutral_input(10_000_000) };
    m.step(&mut rot, &airborne);
    assert_eq!(m.state.kind(), StateKind::Falling);
    m.step(&mut rot, &neutral_input(10_000_000));
    assert_eq!(m.state.kind(), StateKind::Standing);
    assert_eq!(m.previous.kind(), StateKind::Falling);
}

#[test]
fn rotation_reverts_to_each_possible_snapshot() {
    let snapshots = [
        LocomotionState::Standing,
        LocomotionState::Running,
        LocomotionState::Jumping {
            timer: TickTimer { duration_nanos: 500_000_000, elapsed_nanos: 100_000_000 },
        },
        LocomotionState::Falling,
        LocomotionState::Rotating { axis: Axis::Z },
    ];
    for snapshot in snapshots {
        let mut m = LocomotionStateMachine {
            state: LocomotionState::Rotating { axis: Axis::X },
            previous: snapshot,
        };
        let mut rot = PlaneRotator::new();
        rot.begin(Axis::X);
        // A single overlong tick completes the plane's countdown.
        let airborne = TickInput { grounded: false, ..neutral_input(600_000_000) };
        m.step(&mut rot, &airborne);
        assert_eq!(m.state.kind(), snapshot.kind());
    }
}

#[test]
fn full_rotation_scenario_returns_standing_at_the_exact_target() {
    // Standing, rotate-X pressed: the next tick rotates, the plane's
    // target composes a quarter turn about X, and the snapshot is
    // Standing; once the accumulated time reaches half a second the state
    // is Standing again and the displayed orientation equals the new
    // target exactly.
    let mut m = LocomotionStateMachine::new();
    let mut rot = PlaneRotator::new();
    let old_next = rot.next;
    m.step(&mut rot, &TickInput { rotate_x: true, ..neutral_input(10_000_000) });
    match m.state {
        LocomotionState::Rotating { axis } => assert_eq!(axis, Axis::X),
        _ => panic!("expected a rotation"),
    }
    assert_eq!(m.previous.kind(), StateKind::Standing);
    assert_eq!(rot.next, old_next.rotated_90(Axis::X));
    assert_eq!(rot.previous, Some(old_next));
    // The entering tick already ran 10 ms; 48 more stay short of 0.5 s.
    let airborne = TickInput { grounded: false, ..neutral_input(10_000_000) };
    for _ in 0..48 {
        m.step(&mut rot, &airborne);
        assert_eq!(m.state.kind(), StateKind::Rotating);
    }
    m.step(&mut rot, &airborne);
    assert_eq!(m.state.kind(), StateKind::Standing);
    let att = rot.current();
    assert_eq!(att.turn_micros, SCALE);
    let v = Vec3 { x: 1_000_000, y: 2_000_000, z: -3_000_000 };
    assert_eq!(att.rotate(Trig::quarter_angle(), v), rot.next.apply(v));
}

#[test]
fn rotating_tick_reports_up_and_plane_normal() {
    // Mid-rotation about Z at fraction one half, with the caller's
    // cosine and sine of 45 degrees, the up vector is the rotated local Y.
    let mut rot = PlaneRotator::new();
    rot.begin(Axis::Z);
    rot.advance(250_000_000);
    let state = LocomotionState::Rotating { axis: Axis::Z };
    let input = TickInput { grounded: false, ..neutral_input(10_000_000) };
    let halfway = Trig::new(707_107, 707_107);
    let e = tick_effects(&state, &input, &rot, &halfway);
    assert_eq!(e.up, Some(Vec3 { x: -707_107, y: 707_107, z: 0 }));
    assert_eq!(e.plane_normal, Some(Vec3 { x: 0, y: 0, z: 1_000_000 }));
}

#[test]
fn velocity_replaces_and_report_moves_the_body() {
    let mut body = PlayerBody::new(Vec3 { x: 1_000_000, y: 0, z: 0 });
    body.commit_tick(Vec3 { x: 5, y: 6, z: 7 }, None);
    // No report: the body does not move, the velocity is stored.
    assert_eq!(body.translation, Vec3 { x: 1_000_000, y: 0, z: 0 });
    assert_eq!(body.velocity, Vec3 { x: 5, y: 6, z: 7 });
    body.commit_tick(Vec3 { x: 8, y: 9, z: 10 }, Some(Vec3 { x: 100, y: -50, z: 0 }));
    // The report displaces the body; the velocity is replaced, not summed.
    assert_eq!(body.translation, Vec3 { x: 1_000_100, y: -50, z: 0 });
    assert_eq!(body.velocity, Vec3 { x: 8, y: 9, z: 10 });
}
