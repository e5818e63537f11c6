//! The WS2812 driver front end: from a color to the frame it transmits.
//!
//! The one-wire protocol wants the three channels in green-red-blue order,
//! most significant byte first.  The driver here only encodes; the caller
//! owns the pulse emitter, hands its counter clock rate in, and clocks the
//! returned frame out.

use vstd::prelude::*;

verus! {

use crate::pulse::{EmitterError, spec_timings, timings_ok};
use crate::signal::{FixedLengthSignal, encode_frame, encodes};

/// An RGB color, one byte per channel.
#[derive(Clone, Copy, Debug, PartialEq, Eq, Structural)]
pub struct Rgb8 {
    pub r: u8,
    pub g: u8,
    pub b: u8,
}

/// The 24-bit value the protocol transmits for `rgb`: green in the top
/// byte, red in the middle, blue in the bottom.
pub open spec fn grb_value(rgb: Rgb8) -> u32 {
    (rgb.g * 0x10000 + rgb.r * 0x100 + rgb.b) as u32
}

/// The brightness header of an SPI strip frame: three marker bits and a
/// five-bit brightness of 8.
pub const SPI_BRIGHTNESS_HEADER: u8 = 0xE8;

/// The 12-byte frame that sets one LED of the SPI strip variant: a zero
/// start frame, the brightness header followed by the channels in
/// blue-green-red order, and an all-ones latch frame.
pub fn spi_frame(rgb: Rgb8) -> (w: Vec<u8>)
    ensures
        w@ == seq![
            0u8,
            0u8,
            0u8,
            0u8,
            SPI_BRIGHTNESS_HEADER,
            rgb.b,
            rgb.g,
            rgb.r,
            0xFFu8,
            0xFFu8,
            0xFFu8,
            0xFFu8,
        ],
{
    let w: Vec<u8> = vec![
        0u8,
        0u8,
        0u8,
        0u8,
        SPI_BRIGHTNESS_HEADER,
        rgb.b,
        rgb.g,
        rgb.r,
        0xFFu8,
        0xFFu8,
        0xFFu8,
        0xFFu8,
    ];
    proof {
        assert(w@ =~= seq![
            0u8,
            0u8,
            0u8,
            0u8,
            SPI_BRIGHTNESS_HEADER,
            rgb.b,
            rgb.g,
            rgb.r,
            0xFFu8,
            0xFFu8,
            0xFFu8,
            0xFFu8,
        ]);
    }
    w
}

/// The encoding half of a WS2812 driver over a pulse-train emitter.
///
/// It holds the one parameter of the emitter that encoding depends on, the
/// counter clock rate in ticks per second; the emitter itself, and the
/// blocking transmission, stay with the caller.
pub struct WS2812RMT {
    pub ticks_hz: u32,
}

impl WS2812RMT {
    /// A driver for an emitter clocked at `ticks_hz` ticks per second.
    pub fn new(ticks_hz: u32) -> (d: WS2812RMT)
        ensures
            d.ticks_hz == ticks_hz,
    {
        WS2812RMT { ticks_hz }
    }

    /// Encodes `rgb` as the frame that sets one pixel to that color.
    ///
    /// Each call is memoryless: the driver is left unchanged and no
    /// partial-frame state is retained.  Fails with `TimingComputation`
    /// exactly when the datasheet durations have no in-range whole tick
    /// count at the driver's clock rate.
    pub fn set_pixel(&mut self, rgb: Rgb8) -> (r: Result<FixedLengthSignal, EmitterError>)
        ensures
            *final(self) == *old(self),
            match r {
                Ok(s) => timings_ok(old(self).ticks_hz) && encodes(
                    s@,
                    grb_value(rgb),
                    spec_timings(old(self).ticks_hz),
                ),
                Err(e) => e == EmitterError::TimingComputation && !timings_ok(old(self).ticks_hz),
            },
    {
        let color: u32 = (rgb.g as u32) * 0x10000 + (rgb.r as u32) * 0x100 + (rgb.b as u32);
        encode_frame(color, self.ticks_hz)
    }
}

} // verus!
