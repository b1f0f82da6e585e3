//! Verified core of a gravity-plane platformer simulation.
//!
//! The library models, in exact integer arithmetic, the discrete heart of a
//! game in which the player walks on a reorientable reference plane: the
//! locomotion state machine, the per-tick force accumulation, the smoothly
//! interpolated plane rotation, and the test that decides which world blocks
//! straddle the plane while it turns. Rendering, input devices and the
//! physics engine live outside; they exchange plain values with this crate.

pub mod bridge;
pub mod culling;
pub mod fixed;
pub mod input;
pub mod machine;
pub mod orientation;
pub mod rotator;
pub mod state;
pub mod timer;
pub mod vec3;
