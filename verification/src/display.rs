//! Colours and window geometry handed to the host.

use vstd::prelude::*;

verus! {

pub struct WindowSize {
    pub frame_width: u16,
    pub frame_height: u16,
    pub console_width: u16,
    pub console_height: u16,
    pub fullscreen: bool,
}

impl WindowSize {
    pub fn new(
        frame_width: u16,
        frame_height: u16,
        console_width: u16,
        console_height: u16,
        fullscreen: bool,
    ) -> (r: Self)
        ensures
            r.frame_width == frame_width,
            r.frame_height == frame_height,
            r.console_width == console_width,
            r.console_height == console_height,
            r.fullscreen == fullscreen,
    {
        Self { frame_width, frame_height, console_width, console_height, fullscreen }
    }
}

/// One 24-bit colour, stored as its three channels.
#[derive(Clone, Copy, Debug, PartialEq, Eq, Structural)]
pub struct Colour {
    pub r: u8,
    pub g: u8,
    pub b: u8,
}

impl Colour {
    pub fn new(r: u8, g: u8, b: u8) -> (c: Self)
        ensures
            c == (Colour { r, g, b }),
    {
        Self { r, g, b }
    }

    /// The two bytes of the RGB444 encoding.
    pub fn convert_rgb444(&self) -> (d: [u8; 2])
        ensures
            d@[0] == (self.g & 0xF0) | (self.b >> 4),
            d@[1] == self.r >> 4,
    {
        [(self.g & 0xF0) | (self.b >> 4), self.r >> 4]
    }

    /// The three bytes of the RGB24 encoding, red first.
    pub fn convert_rgb24(&self) -> (d: [u8; 3])
        ensures
            d@[0] == self.r,
            d@[1] == self.g,
            d@[2] == self.b,
    {
        [self.r, self.g, self.b]
    }

    /// The three bytes of the RGB888 encoding, blue first.
    pub fn convert_rgb888(&self) -> (d: [u8; 3])
        ensures
            d@[0] == self.b,
            d@[1] == self.g,
            d@[2] == self.r,
    {
        [self.b, self.g, self.r]
    }
}

} // verus!
