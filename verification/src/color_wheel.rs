//! A color wheel for cycling an RGB LED through the rainbow.
//!
//! A byte-sized position walks the wheel in three equal arcs: red fading
//! into blue, blue into green, and green back into red.  The counter wraps
//! after a full byte of positions, so the cycle repeats forever.

use vstd::prelude::*;

verus! {

use crate::rgb::Rgb8;

/// The color at position `pos` of the wheel.
pub open spec fn wheel_color(pos: u8) -> Rgb8 {
    if pos < 85 {
        Rgb8 { r: (255 - pos * 3) as u8, g: 0, b: (pos * 3) as u8 }
    } else if pos < 170 {
        Rgb8 { r: 0, g: ((pos - 85) * 3) as u8, b: (255 - (pos - 85) * 3) as u8 }
    } else {
        Rgb8 { r: ((pos - 170) * 3) as u8, g: (255 - (pos - 170) * 3) as u8, b: 0 }
    }
}

/// A cycling position on the color wheel.
pub struct ColorWheel {
    pub pos: u8,
}

impl ColorWheel {
    /// A wheel at the start of the red-to-blue arc.
    pub fn new() -> (w: ColorWheel)
        ensures
            w.pos == 0,
    {
        ColorWheel { pos: 0 }
    }

    /// The color of the current position; the position then advances by
    /// one, wrapping at the end of the byte.
    pub fn next_color(&mut self) -> (c: Rgb8)
        ensures
            c == wheel_color(old(self).pos),
            final(self).pos == if old(self).pos == 255 {
                0int
            } else {
                old(self).pos + 1
            },
    {
        let pos: u8 = self.pos;
        self.pos = self.pos.wrapping_add(1);
        if pos < 85 {
            Rgb8 { r: 255 - pos * 3, g: 0, b: pos * 3 }
        } else if pos < 170 {
            let inner: u8 = pos - 85;
            Rgb8 { r: 0, g: inner * 3, b: 255 - inner * 3 }
        } else {
            let inner: u8 = pos - 170;
            Rgb8 { r: inner * 3, g: 255 - inner * 3, b: 0 }
        }
    }
}

} // verus!
