//! Tests for intent normalization, timers and the fixed-point scalars.

use gravity_plane::fixed::{fx_mul, SCALE};
use gravity_plane::input::{intent_from_keys, TickInput, DIAG};
use gravity_plane::timer::TickTimer;

#[test]
fn intent_covers_all_key_combinations() {
    // (forward, left, backward, right) -> normalized intent.
    assert_eq!(intent_from_keys(false, false, false, false), (0, 0));
    assert_eq!(intent_from_keys(true, false, false, false), (0, SCALE));
    assert_eq!(intent_from_keys(false, false, true, false), (0, -SCALE));
    assert_eq!(intent_from_keys(false, false, false, true), (SCALE, 0));
    assert_eq!(intent_from_keys(false, true, false, false), (-SCALE, 0));
    assert_eq!(intent_from_keys(true, false, false, true), (DIAG, DIAG));
    assert_eq!(intent_from_keys(true, true, false, false), (-DIAG, DIAG));
    assert_eq!(intent_from_keys(false, true, true, false), (-DIAG, -DIAG));
    assert_eq!(intent_from_keys(false, false, true, true), (DIAG, -DIAG));
    // Opposing keys cancel, alone and against a live axis.
    assert_eq!(intent_from_keys(true, false, true, false), (0, 0));
    assert_eq!(intent_from_keys(false, true, false, true), (0, 0));
    assert_eq!(intent_from_keys(true, true, true, false), (-SCALE, 0));
}

#[test]
fn diagonal_intent_squares_to_at_most_half() {
    let d = DIAG as i128;
    let one = SCALE as i128;
    assert!(d * d <= one * one / 2);
    assert!((d + 1) * (d + 1) > one * one / 2);
}

#[test]
fn fixed_point_products_truncate_toward_zero() {
    assert_eq!(fx_mul(SCALE, 123_456), 123_456);
    assert_eq!(fx_mul(500_000, 500_000), 250_000);
    assert_eq!(fx_mul(-500_000, 500_000), -250_000);
    // 0.000001 × 0.9 rounds to zero from either sign.
    assert_eq!(fx_mul(1, 900_000), 0);
    assert_eq!(fx_mul(-1, 900_000), 0);
    assert_eq!(fx_mul(-3, 500_000), -1);
    assert_eq!(fx_mul(3, 500_000), 1);
}

#[test]
fn timers_saturate_and_report_their_fraction() {
    let mut t = TickTimer::fresh(500_000_000);
    assert!(!t.finished());
    assert_eq!(t.fraction_micros(), 0);
    t.advance(100_000_000);
    assert_eq!(t.fraction_micros(), 200_000);
    t.advance(999_000_000_000);
    assert!(t.finished());
    assert_eq!(t.fraction_micros(), SCALE);
    assert_eq!(t.elapsed_nanos, 500_000_000);
    t.reset();
    assert_eq!(t.elapsed_nanos, 0);
    assert!(!t.finished());
}

#[test]
fn tick_duration_converts_to_fixed_point_seconds() {
    let input = TickInput {
        intent_x: 0,
        intent_y: 0,
        jump: false,
        rotate_x: false,
        rotate_y: false,
        rotate_z: false,
        grounded: false,
        dt_nanos: 16_666_666,
    };
    assert_eq!(input.dt_micros(), 16_666);
}
