//! The player's discrete locomotion state.

use vstd::prelude::*;

verus! {

use crate::orientation::Axis;
use crate::timer::{TickTimer, HALF_SECOND_NANOS};

/// What the player is doing this tick. `Jumping` carries the countdown
/// that ends the upward phase; `Rotating` carries the world axis the
/// reference plane is turning about.
#[derive(Clone, Copy, Debug)]
pub enum LocomotionState {
    Standing,
    Running,
    Jumping { timer: TickTimer },
    Falling,
    Rotating { axis: Axis },
}

/// The bare tag of a locomotion state. All transition bookkeeping
/// compares tags only, never the payloads.
#[derive(Clone, Copy, PartialEq, Eq, Structural, Debug)]
pub enum StateKind {
    Standing,
    Running,
    Jumping,
    Falling,
    Rotating,
}

impl LocomotionState {
    /// Tag of this state.
    pub open spec fn kind_spec(self) -> StateKind {
        match self {
            LocomotionState::Standing => StateKind::Standing,
            LocomotionState::Running => StateKind::Running,
            LocomotionState::Jumping { .. } => StateKind::Jumping,
            LocomotionState::Falling => StateKind::Falling,
            LocomotionState::Rotating { .. } => StateKind::Rotating,
        }
    }

    /// A jumping payload always counts down the fixed jump duration.
    pub open spec fn wf(self) -> bool {
        match self {
            LocomotionState::Jumping { timer } => timer.wf() && timer.duration_nanos
                == HALF_SECOND_NANOS,
            _ => true,
        }
    }

    /// Tag of this state.
    pub fn kind(&self) -> (r: StateKind)
        ensures
            r == self.kind_spec(),
    {
        match self {
            LocomotionState::Standing => StateKind::Standing,
            LocomotionState::Running => StateKind::Running,
            LocomotionState::Jumping { .. } => StateKind::Jumping,
            LocomotionState::Falling => StateKind::Falling,
            LocomotionState::Rotating { .. } => StateKind::Rotating,
        }
    }

    /// A fresh jump: the countdown has its whole duration left.
    pub fn jumping() -> (r: LocomotionState)
        ensures
            r == (LocomotionState::Jumping {
                timer: TickTimer { duration_nanos: HALF_SECOND_NANOS, elapsed_nanos: 0 },
            }),
            r.wf(),
    {
        LocomotionState::Jumping { timer: TickTimer::fresh(HALF_SECOND_NANOS) }
    }
}

impl PartialEq for LocomotionState {
    /// States compare by tag alone, as the transition bookkeeping wants;
    /// payloads never take part.
    fn eq(&self, other: &Self) -> (r: bool) {
        self.kind() == other.kind()
    }
}

impl vstd::std_specs::cmp::PartialEqSpecImpl for LocomotionState {
    open spec fn obeys_eq_spec() -> bool {
        true
    }

    open spec fn eq_spec(&self, other: &Self) -> bool {
        self.kind_spec() == other.kind_spec()
    }
}

} // verus!
