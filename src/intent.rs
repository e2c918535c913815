//! Movement intent: the rotation and thrust factors read from the held keys.
use vstd::prelude::*;

verus! {

/// Which of the four steering keys are held during a tick.
#[derive(Clone, Copy, Debug, PartialEq, Eq)]
pub struct Keys {
    /// turn counter-clockwise
    pub left: bool,
    /// turn clockwise
    pub right: bool,
    /// thrust ahead
    pub forward: bool,
    /// thrust astern, at half strength
    pub backward: bool,
}

/// Rotation factor of the held keys: left adds +1, right adds -1.
pub open spec fn rotation_factor(k: Keys) -> int {
    (if k.left { 1int } else { 0int }) - (if k.right { 1int } else { 0int })
}

/// Thrust factor of the held keys, counted in halves: forward adds +1 (two
/// halves), backward adds -0.5 (one half).
pub open spec fn thrust_halves(k: Keys) -> int {
    (if k.forward { 2int } else { 0int }) - (if k.backward { 1int } else { 0int })
}

/// The per-tick intent: rotation factor in {-1, 0, 1}, thrust factor in halves
/// in {-1, 0, 1, 2} (that is -0.5, 0, 0.5, 1).
#[derive(Clone, Copy, Debug, PartialEq, Eq)]
pub struct MovementIntent {
    pub rotation: i64,
    pub thrust_halves: i64,
}

impl MovementIntent {
    pub open spec fn wf(self) -> bool {
        -1 <= self.rotation <= 1 && -1 <= self.thrust_halves <= 2
    }
}

/// The intent that the held keys give.
pub open spec fn intent_spec(k: Keys) -> MovementIntent {
    MovementIntent { rotation: rotation_factor(k) as i64, thrust_halves: thrust_halves(k) as i64 }
}

/// Reads the intent of one tick from the held keys.
pub fn intent_of(keys: Keys) -> (r: MovementIntent)
    ensures
        r == intent_spec(keys),
        r.rotation == rotation_factor(keys),
        r.thrust_halves == thrust_halves(keys),
        r.wf(),
{
    let mut rotation: i64 = 0;
    let mut thrust: i64 = 0;
    if keys.left {
        rotation = rotation + 1;
    }
    if keys.right {
        rotation = rotation - 1;
    }
    if keys.forward {
        thrust = thrust + 2;
    }
    if keys.backward {
        thrust = thrust - 1;
    }
    MovementIntent { rotation, thrust_halves: thrust }
}

} // verus!
