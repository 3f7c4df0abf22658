//! Cycle-level model of a 1977 home console: a 6507-family CPU, a RAM/timer
//! chip ("RIOT") and a video/audio chip ("TIA") sharing one colour clock,
//! together with bank-switched cartridge ROM.
//!
//! Every component here is plain data and arithmetic: the host (windowing,
//! audio output, file loading) lives outside this crate and talks to it
//! through byte vectors and register values.

pub mod addressing;
pub mod cartridge;
pub mod clocks;
pub mod cpu;
pub mod display;
pub mod memory;
pub mod palette;
pub mod inputs;
pub mod instruction_set;
pub mod instructions;
pub mod pc_state;
pub mod ports;
pub mod riot;
pub mod stella;
pub mod tiasound;
