//! The host's view of the keyboard: which command keys are currently held.
//! The host translates its input events into this record and applies it to
//! the vehicle once per tick.

use vstd::prelude::*;

use crate::car_steering::{CarInputState, CarSteering};

verus! {

/// Which command keys are held right now.
#[derive(Clone, Copy, PartialEq, Eq, Structural, Debug, Default)]
pub struct InputState {
    /// Throttle key held.
    pub forward: bool,
    /// Left-steer key held.
    pub left: bool,
    /// Right-steer key held.
    pub right: bool,
    /// Brake key held.
    pub back: bool,
    /// Hand-brake key held.
    pub space: bool,
}

impl InputState {
    /// No key held.
    pub open spec fn released_s() -> InputState {
        InputState { forward: false, left: false, right: false, back: false, space: false }
    }

    /// No key held.
    pub fn released() -> (r: InputState)
        ensures
            r == InputState::released_s(),
    {
        InputState { forward: false, left: false, right: false, back: false, space: false }
    }

    /// Assert on the vehicle every command whose key is held, for the coming
    /// tick; commands already asserted this tick stay asserted.
    pub fn apply_to(&self, car: &mut CarSteering)
        ensures
            *final(car) == (CarSteering {
                input: CarInputState {
                    left: old(car).input.left || self.left,
                    right: old(car).input.right || self.right,
                    throttle: old(car).input.throttle || self.forward,
                    brake: old(car).input.brake || self.back,
                    ebrake: old(car).input.ebrake || self.space,
                },
                ..*old(car)
            }),
    {
        if self.right {
            car.steer_right();
        }
        if self.left {
            car.steer_left();
        }
        if self.forward {
            car.accelerate();
        }
        if self.back {
            car.brake();
        }
        if self.space {
            car.ebrake();
        }
    }
}

} // verus!
