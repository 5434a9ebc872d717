//! From held keys to a movement of the camera.

use vstd::prelude::*;

verus! {

/// Which of the movement keys are held.
#[derive(Clone, Copy, Debug, PartialEq, Eq, Structural)]
pub struct MovementKeys {
    pub forward: bool,
    pub backward: bool,
    pub left: bool,
    pub right: bool,
    pub up: bool,
    pub down: bool,
    pub turn_left: bool,
    pub turn_right: bool,
    pub turn_up: bool,
    pub turn_down: bool,
}

/// A movement of the camera, each component in whole steps: -1, 0 or 1.
#[derive(Clone, Copy, Debug, PartialEq, Eq, Structural)]
pub struct MovementSteps {
    pub forward: i8,
    pub sideways: i8,
    pub vertical: i8,
    pub pitch: i8,
    pub yaw: i8,
}

/// One step for the first key, one step back for the second: two opposite
/// keys held together cancel.
pub open spec fn axis(plus: bool, minus: bool) -> int {
    (if plus { 1int } else { 0int }) - (if minus { 1int } else { 0int })
}

/// The movement that a set of held keys asks for.
pub open spec fn steps_of(keys: MovementKeys) -> MovementSteps {
    MovementSteps {
        forward: axis(keys.forward, keys.backward) as i8,
        sideways: axis(keys.left, keys.right) as i8,
        vertical: axis(keys.up, keys.down) as i8,
        pitch: axis(keys.turn_up, keys.turn_down) as i8,
        yaw: axis(keys.turn_left, keys.turn_right) as i8,
    }
}

impl MovementSteps {
    /// No component moves.
    pub open spec fn is_still(self) -> bool {
        self.forward == 0 && self.sideways == 0 && self.vertical == 0 && self.pitch == 0
            && self.yaw == 0
    }
}

/// The movement that a set of held keys asks for, or `None` where it asks
/// for none: no key held, or each held key cancelled by its opposite.
pub open spec fn movement_of(keys: MovementKeys) -> Option<MovementSteps> {
    if steps_of(keys).is_still() {
        None
    } else {
        Some(steps_of(keys))
    }
}

/// The steps along one axis.
fn step(plus: bool, minus: bool) -> (s: i8)
    ensures
        s == axis(plus, minus),
{
    let mut s: i8 = 0;
    if plus {
        s = s + 1;
    }
    if minus {
        s = s - 1;
    }
    s
}

/// The movement that the held keys ask for, if any.
pub fn handle_movement_keys(keys: MovementKeys) -> (movement: Option<MovementSteps>)
    ensures
        movement == movement_of(keys),
{
    let steps = MovementSteps {
        forward: step(keys.forward, keys.backward),
        sideways: step(keys.left, keys.right),
        vertical: step(keys.up, keys.down),
        pitch: step(keys.turn_up, keys.turn_down),
        yaw: step(keys.turn_left, keys.turn_right),
    };
    if steps.forward != 0 || steps.sideways != 0 || steps.vertical != 0 || steps.pitch != 0
        || steps.yaw != 0 {
        Some(steps)
    } else {
        None
    }
}

} // verus!
