//! The console's controller ports.

use crate::inputs;
use vstd::prelude::*;

verus! {

pub struct Ports {
    pub joysticks: inputs::Joystick,
}

impl Ports {
    pub fn new() -> (r: Self)
        ensures
            r.joysticks.input == inputs::Input::spec_default(),
    {
        Self { joysticks: inputs::Joystick::new() }
    }
}

} // verus!
