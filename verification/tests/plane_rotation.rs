//! Tests for the plane rotator and its displayed orientation.

use gravity_plane::fixed::SCALE;
use gravity_plane::orientation::{Axis, Orientation, Trig};
use gravity_plane::rotator::PlaneRotator;
use gravity_plane::vec3::Vec3;

fn v(x: i64, y: i64, z: i64) -> Vec3 {
    Vec3 { x, y, z }
}

#[test]
fn before_any_request_the_plane_rests_at_identity() {
    let rot = PlaneRotator::new();
    assert_eq!(rot.previous, None);
    assert_eq!(rot.next, Orientation::identity());
    assert!(rot.finished());
    let att = rot.current();
    assert_eq!(att.turn_micros, 0);
    let p = v(1_000_000, -2_000_000, 3_000_000);
    assert_eq!(att.rotate(Trig::zero_angle(), p), p);
}

#[test]
fn current_at_fraction_zero_equals_previous_exactly() {
    let mut rot = PlaneRotator::new();
    rot.begin(Axis::Y);
    let att = rot.current();
    assert_eq!(att.turn_micros, 0);
    let before = rot.previous.unwrap();
    let p = v(1_000_000, 2_000_000, -3_000_000);
    assert_eq!(att.rotate(Trig::zero_angle(), p), before.apply(p));
}

#[test]
fn current_at_fraction_one_equals_next_exactly() {
    let mut rot = PlaneRotator::new();
    rot.begin(Axis::Y);
    rot.advance(500_000_000);
    assert!(rot.finished());
    let att = rot.current();
    assert_eq!(att.turn_micros, SCALE);
    let p = v(1_000_000, 2_000_000, -3_000_000);
    assert_eq!(att.rotate(Trig::quarter_angle(), p), rot.next.apply(p));
}

#[test]
fn quarter_turns_move_the_basis_as_expected() {
    // A quarter turn about X carries Y to Z and Z to -Y; about Y it
    // carries Z to X and X to -Z; about Z it carries X to Y and Y to -X.
    let id = Orientation::identity();
    let rx = id.rotated_90(Axis::X);
    assert_eq!(rx.apply(v(0, 1_000_000, 0)), v(0, 0, 1_000_000));
    assert_eq!(rx.apply(v(0, 0, 1_000_000)), v(0, -1_000_000, 0));
    let ry = id.rotated_90(Axis::Y);
    assert_eq!(ry.apply(v(0, 0, 1_000_000)), v(1_000_000, 0, 0));
    assert_eq!(ry.apply(v(1_000_000, 0, 0)), v(0, 0, -1_000_000));
    let rz = id.rotated_90(Axis::Z);
    assert_eq!(rz.apply(v(1_000_000, 0, 0)), v(0, 1_000_000, 0));
    assert_eq!(rz.apply(v(0, 1_000_000, 0)), v(-1_000_000, 0, 0));
}

#[test]
fn four_quarter_turns_come_back_around() {
    let id = Orientation::identity();
    let full = id
        .rotated_90(Axis::Z)
        .rotated_90(Axis::Z)
        .rotated_90(Axis::Z)
        .rotated_90(Axis::Z);
    assert_eq!(full, id);
}

#[test]
fn a_mid_flight_request_snapshots_the_old_target() {
    // Re-requesting while a transition is still interpolating abandons
    // the in-flight display: the new start is the old target, not the
    // currently shown orientation.
    let mut rot = PlaneRotator::new();
    rot.begin(Axis::X);
    let first_target = rot.next;
    rot.advance(200_000_000);
    rot.begin(Axis::X);
    assert_eq!(rot.previous, Some(first_target));
    assert_eq!(rot.next, first_target.rotated_90(Axis::X));
    assert_eq!(rot.timer.elapsed_nanos, 0);
}

#[test]
fn fraction_tracks_the_countdown() {
    let mut rot = PlaneRotator::new();
    rot.begin(Axis::Z);
    assert_eq!(rot.fraction_micros(), 0);
    rot.advance(125_000_000);
    assert_eq!(rot.fraction_micros(), 250_000);
    rot.advance(125_000_000);
    assert_eq!(rot.fraction_micros(), 500_000);
    rot.advance(1_000_000_000);
    assert_eq!(rot.fraction_micros(), 1_000_000);
    assert!(rot.finished());
}

#[test]
fn halfway_rotation_with_supplied_trig() {
    // Halfway about X with the cosine and sine of 45 degrees: the local Y
    // axis leans toward Z by the supplied pair, exactly as computed in
    // fixed point.
    let mut rot = PlaneRotator::new();
    rot.begin(Axis::X);
    rot.advance(250_000_000);
    let att = rot.current();
    assert_eq!(att.turn_micros, 500_000);
    let halfway = Trig::new(707_107, 707_107);
    assert_eq!(att.rotate(halfway, v(0, 1_000_000, 0)), v(0, 707_107, 707_107));
}
