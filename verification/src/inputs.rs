//! Console input latches and the joystick that drives them.
//!
//! The host translates its key events into calls on `Joystick`; the emulator
//! polls the latched bytes into the RIOT and TIA before stepping the CPU.

use vstd::prelude::*;

verus! {

/// The latched input bytes as the RIOT and TIA see them. A low bit means the
/// switch is pressed (the lines are pulled high when idle).
#[derive(Clone, Copy, PartialEq, Eq, Structural)]
pub struct Input {
    pub swcha: u8,
    pub swchb: u8,
    pub input0: u8,
    pub input1: u8,
    pub input2: u8,
    pub input3: u8,
    pub input4: u8,
    pub input5: u8,
    pub quit: u8,
}

impl Input {
    /// The idle state: every line pulled high, console switches released.
    pub open spec fn spec_default() -> Input {
        Input {
            swcha: 0xFF,
            swchb: 0x3F,
            input0: 0xFF,
            input1: 0xFF,
            input2: 0xFF,
            input3: 0xFF,
            input4: 0xFF,
            input5: 0xFF,
            quit: 0,
        }
    }

    pub fn new() -> (r: Self)
        ensures
            r == Input::spec_default(),
    {
        Self {
            swcha: 0xFF,
            swchb: 0x3F,
            input0: 0xFF,
            input1: 0xFF,
            input2: 0xFF,
            input3: 0xFF,
            input4: 0xFF,
            input5: 0xFF,
            quit: 0x0,
        }
    }
}

/// Directional and button state for both players plus the console switches.
#[derive(Clone, Copy, PartialEq, Eq, Structural)]
pub struct Joystick {
    pub input: Input,
}

/// Pressing clears the masked bits; releasing sets them.
pub open spec fn spec_set_input(value: bool, initial: u8, mask: u8) -> u8 {
    if value {
        initial & !mask
    } else {
        initial | mask
    }
}

impl Joystick {
    pub fn new() -> (r: Self)
        ensures
            r.input == Input::spec_default(),
    {
        Self { input: Input::new() }
    }

    pub fn set_input(value: bool, initial: &mut u8, mask: u8)
        ensures
            *final(initial) == spec_set_input(value, *old(initial), mask),
    {
        if value {
            *initial = *initial & !mask;
        } else {
            *initial = *initial | mask;
        }
    }

    pub fn toggle_input(initial: &mut u8, mask: u8)
        ensures
            *final(initial) == (*old(initial) ^ mask),
    {
        *initial = *initial ^ mask;
    }

    pub fn j1_up(&mut self, value: bool)
        ensures
            *final(self) == (Joystick {
                input: Input {
                    swcha: spec_set_input(value, old(self).input.swcha, 0x10),
                    ..old(self).input
                },
            }),
    {
        Joystick::set_input(value, &mut self.input.swcha, 0x10);
    }

    pub fn j1_down(&mut self, value: bool)
        ensures
            *final(self) == (Joystick {
                input: Input {
                    swcha: spec_set_input(value, old(self).input.swcha, 0x20),
                    ..old(self).input
                },
            }),
    {
        Joystick::set_input(value, &mut self.input.swcha, 0x20);
    }

    pub fn j1_left(&mut self, value: bool)
        ensures
            *final(self) == (Joystick {
                input: Input {
                    swcha: spec_set_input(value, old(self).input.swcha, 0x40),
                    ..old(self).input
                },
            }),
    {
        Joystick::set_input(value, &mut self.input.swcha, 0x40);
    }

    pub fn j1_right(&mut self, value: bool)
        ensures
            *final(self) == (Joystick {
                input: Input {
                    swcha: spec_set_input(value, old(self).input.swcha, 0x80),
                    ..old(self).input
                },
            }),
    {
        Joystick::set_input(value, &mut self.input.swcha, 0x80);
    }

    pub fn j1_fire(&mut self, value: bool)
        ensures
            *final(self) == (Joystick {
                input: Input {
                    input4: spec_set_input(value, old(self).input.input4, 0x80),
                    ..old(self).input
                },
            }),
    {
        Joystick::set_input(value, &mut self.input.input4, 0x80);
    }

    pub fn j2_up(&mut self, value: bool)
        ensures
            *final(self) == (Joystick {
                input: Input {
                    swcha: spec_set_input(value, old(self).input.swcha, 0x01),
                    ..old(self).input
                },
            }),
    {
        Joystick::set_input(value, &mut self.input.swcha, 0x01);
    }

    pub fn j2_down(&mut self, value: bool)
        ensures
            *final(self) == (Joystick {
                input: Input {
                    swcha: spec_set_input(value, old(self).input.swcha, 0x02),
                    ..old(self).input
                },
            }),
    {
        Joystick::set_input(value, &mut self.input.swcha, 0x02);
    }

    pub fn j2_left(&mut self, value: bool)
        ensures
            *final(self) == (Joystick {
                input: Input {
                    swcha: spec_set_input(value, old(self).input.swcha, 0x04),
                    ..old(self).input
                },
            }),
    {
        Joystick::set_input(value, &mut self.input.swcha, 0x04);
    }

    pub fn j2_right(&mut self, value: bool)
        ensures
            *final(self) == (Joystick {
                input: Input {
                    swcha: spec_set_input(value, old(self).input.swcha, 0x08),
                    ..old(self).input
                },
            }),
    {
        Joystick::set_input(value, &mut self.input.swcha, 0x08);
    }

    pub fn j2_fire(&mut self, value: bool)
        ensures
            *final(self) == (Joystick {
                input: Input {
                    input5: spec_set_input(value, old(self).input.input5, 0x80),
                    ..old(self).input
                },
            }),
    {
        Joystick::set_input(value, &mut self.input.input5, 0x80);
    }

    pub fn select(&mut self, value: bool)
        ensures
            *final(self) == (Joystick {
                input: Input {
                    swchb: spec_set_input(value, old(self).input.swchb, 0x01),
                    ..old(self).input
                },
            }),
    {
        Joystick::set_input(value, &mut self.input.swchb, 0x01);
    }

    pub fn reset(&mut self, value: bool)
        ensures
            *final(self) == (Joystick {
                input: Input {
                    swchb: spec_set_input(value, old(self).input.swchb, 0x02),
                    ..old(self).input
                },
            }),
    {
        Joystick::set_input(value, &mut self.input.swchb, 0x02);
    }

    pub fn p0_difficulty(&mut self)
        ensures
            *final(self) == (Joystick {
                input: Input { swchb: old(self).input.swchb ^ 0x40, ..old(self).input },
            }),
    {
        Joystick::toggle_input(&mut self.input.swchb, 0x40);
    }

    pub fn p1_difficulty(&mut self)
        ensures
            *final(self) == (Joystick {
                input: Input { swchb: old(self).input.swchb ^ 0x80, ..old(self).input },
            }),
    {
        Joystick::toggle_input(&mut self.input.swchb, 0x80);
    }
}

} // verus!
