//! The two-phase physics bridge.
//!
//! Each tick the core submits a desired displacement (and, while
//! rotating, an up vector) to the external kinematic controller; after
//! the controller has resolved collisions it reports the effective
//! displacement, and the core applies that report to the player's
//! transform itself. The two steps are explicit: first store the desired
//! velocity, then consume the report — absent on the first tick, when no
//! translation is applied.

use vstd::prelude::*;

verus! {

use crate::vec3::Vec3;

/// What the core owns of the player's physics state: the transform's
/// translation it maintains, and the velocity it submits each tick.
#[derive(Clone, Copy, PartialEq, Eq, Structural, Debug)]
pub struct PlayerBody {
    pub translation: Vec3,
    pub velocity: Vec3,
}

impl PlayerBody {
    /// A player at rest at `translation`.
    pub fn new(translation: Vec3) -> (r: PlayerBody)
        ensures
            r == (PlayerBody { translation, velocity: Vec3 { x: 0, y: 0, z: 0 } }),
    {
        PlayerBody { translation, velocity: Vec3 { x: 0, y: 0, z: 0 } }
    }

    /// Commit one tick against the physics report. The stored velocity is
    /// replaced — never accumulated onto — by this tick's desired
    /// velocity: no inertia outlives what the discrete state encodes. The
    /// effective displacement the controller reported, when there is one,
    /// is added to the translation; on a tick without a report the player
    /// does not move.
    pub fn commit_tick(&mut self, velocity: Vec3, report: Option<Vec3>)
        requires
            report matches Some(d) ==> {
                &&& i64::MIN <= old(self).translation.x + d.x <= i64::MAX
                &&& i64::MIN <= old(self).translation.y + d.y <= i64::MAX
                &&& i64::MIN <= old(self).translation.z + d.z <= i64::MAX
            },
        ensures
            final(self).velocity == velocity,
            report matches Some(d) ==> {
                &&& final(self).translation.x == old(self).translation.x + d.x
                &&& final(self).translation.y == old(self).translation.y + d.y
                &&& final(self).translation.z == old(self).translation.z + d.z
            },
            report is None ==> final(self).translation == old(self).translation,
    {
        self.velocity = velocity;
        match report {
            Some(d) => {
                self.translation = self.translation.add(d);
            },
            None => {},
        }
    }
}

} // verus!
