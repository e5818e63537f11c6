//! Pulses and frame timings for the WS2812 one-wire protocol.
//!
//! A pulse is a logic level held for a number of ticks of the emitter's
//! counter clock.  The protocol encodes each bit of a color as a pair of
//! pulses whose durations are fixed in nanoseconds by the datasheet; this
//! module converts those durations into ticks for a given tick frequency.

use vstd::prelude::*;

verus! {

use vstd::arithmetic::div_mod::{
    lemma_fundamental_div_mod,
    lemma_fundamental_div_mod_converse_div,
};
use vstd::arithmetic::mul::lemma_mul_upper_bound;

/// High time of a 0 bit, from the datasheet (T0H, 0.4us).
pub const T0H_NANOS: u64 = 400;

/// High time of a 1 bit, from the datasheet (T1H, 0.8us).
pub const T1H_NANOS: u64 = 800;

/// Low time of a 0 bit, from the datasheet (T0L, 0.85us).
pub const T0L_NANOS: u64 = 850;

/// Low time of a 1 bit, from the datasheet (T1L, 0.45us).
pub const T1L_NANOS: u64 = 450;

pub const NANOS_PER_SEC: u64 = 1_000_000_000;

/// The logic level of one pulse on the output pin.
#[derive(Clone, Copy, Debug, PartialEq, Eq, Structural)]
pub enum PinState {
    High,
    Low,
}

/// Why a frame could not be produced or clocked out.
///
/// `TimingComputation`: a datasheet duration has no whole, in-range tick
/// count at the configured tick frequency; detected before any hardware
/// write.  `Transmit`: the peripheral rejected or aborted the transmission;
/// this crate never constructs it, the caller driving the emitter does.
#[derive(Clone, Copy, Debug, PartialEq, Eq, Structural)]
pub enum EmitterError {
    TimingComputation,
    Transmit,
}

/// One pulse: a logic level held for `ticks` ticks of the counter clock.
#[derive(Clone, Copy, Debug, PartialEq, Eq, Structural)]
pub struct Pulse {
    pub level: PinState,
    pub ticks: u16,
}

/// The number of whole ticks that fit in `nanos` nanoseconds at `ticks_hz`
/// ticks per second.
pub open spec fn ticks_of(ticks_hz: u32, nanos: u64) -> int {
    (nanos * ticks_hz) / (NANOS_PER_SEC as int)
}

/// Whether `nanos` is representable as a pulse at `ticks_hz`: at least one
/// whole tick, and within the emitter's 16-bit tick counter.
pub open spec fn ticks_in_range(ticks_hz: u32, nanos: u64) -> bool {
    1 <= ticks_of(ticks_hz, nanos) <= u16::MAX
}

impl Pulse {
    /// Converts a nanosecond duration into a pulse of whole ticks.
    ///
    /// Fails with `TimingComputation` exactly when the duration is shorter
    /// than one tick or overflows the 16-bit tick counter; it is never
    /// silently rounded to zero ticks.
    pub fn new_with_duration(ticks_hz: u32, level: PinState, nanos: u64) -> (r: Result<Pulse, EmitterError>)
        ensures
            match r {
                Ok(p) => ticks_in_range(ticks_hz, nanos) && p.level == level && p.ticks == ticks_of(
                    ticks_hz,
                    nanos,
                ),
                Err(e) => e == EmitterError::TimingComputation && !ticks_in_range(ticks_hz, nanos),
            },
    {
        proof {
            lemma_mul_upper_bound(nanos as int, u64::MAX as int, ticks_hz as int, u32::MAX as int);
        }
        let product: u128 = (nanos as u128) * (ticks_hz as u128);
        let ticks: u128 = product / (NANOS_PER_SEC as u128);
        if ticks == 0 || ticks > u16::MAX as u128 {
            Err(EmitterError::TimingComputation)
        } else {
            Ok(Pulse { level, ticks: ticks as u16 })
        }
    }
}

/// The four pulses of one frame: high and low windows of a 0 bit and of a
/// 1 bit, all at one tick frequency.
#[derive(Clone, Copy, Debug, PartialEq, Eq, Structural)]
pub struct FrameTimings {
    pub t0h: Pulse,
    pub t1h: Pulse,
    pub t0l: Pulse,
    pub t1l: Pulse,
}

/// The timings that `FrameTimings::new` computes at `ticks_hz`, written out
/// as a value.
pub open spec fn spec_timings(ticks_hz: u32) -> FrameTimings {
    FrameTimings {
        t0h: Pulse { level: PinState::High, ticks: ticks_of(ticks_hz, T0H_NANOS) as u16 },
        t1h: Pulse { level: PinState::High, ticks: ticks_of(ticks_hz, T1H_NANOS) as u16 },
        t0l: Pulse { level: PinState::Low, ticks: ticks_of(ticks_hz, T0L_NANOS) as u16 },
        t1l: Pulse { level: PinState::Low, ticks: ticks_of(ticks_hz, T1L_NANOS) as u16 },
    }
}

/// Whether all four datasheet durations are representable at `ticks_hz`.
pub open spec fn timings_ok(ticks_hz: u32) -> bool {
    &&& ticks_in_range(ticks_hz, T0H_NANOS)
    &&& ticks_in_range(ticks_hz, T1H_NANOS)
    &&& ticks_in_range(ticks_hz, T0L_NANOS)
    &&& ticks_in_range(ticks_hz, T1L_NANOS)
}

impl FrameTimings {
    /// Well-formed timings: the high windows are high, the low windows are
    /// low, every pulse lasts at least one tick, and the two high windows
    /// are distinguishable, so a pulse pair determines its bit.
    pub open spec fn wf(self) -> bool {
        &&& self.t0h.level == PinState::High
        &&& self.t1h.level == PinState::High
        &&& self.t0l.level == PinState::Low
        &&& self.t1l.level == PinState::Low
        &&& self.t0h.ticks >= 1
        &&& self.t1h.ticks >= 1
        &&& self.t0l.ticks >= 1
        &&& self.t1l.ticks >= 1
        &&& self.t0h.ticks != self.t1h.ticks
    }

    /// Computes the four frame pulses for an emitter clocked at `ticks_hz`.
    ///
    /// Fails with `TimingComputation` exactly when some datasheet duration
    /// has no in-range whole tick count at this frequency.
    pub fn new(ticks_hz: u32) -> (r: Result<FrameTimings, EmitterError>)
        ensures
            match r {
                Ok(t) => timings_ok(ticks_hz) && t == spec_timings(ticks_hz) && t.wf(),
                Err(e) => e == EmitterError::TimingComputation && !timings_ok(ticks_hz),
            },
    {
        let t0h = match Pulse::new_with_duration(ticks_hz, PinState::High, T0H_NANOS) {
            Ok(p) => p,
            Err(e) => { return Err(e); },
        };
        let t1h = match Pulse::new_with_duration(ticks_hz, PinState::High, T1H_NANOS) {
            Ok(p) => p,
            Err(e) => { return Err(e); },
        };
        let t0l = match Pulse::new_with_duration(ticks_hz, PinState::Low, T0L_NANOS) {
            Ok(p) => p,
            Err(e) => { return Err(e); },
        };
        let t1l = match Pulse::new_with_duration(ticks_hz, PinState::Low, T1L_NANOS) {
            Ok(p) => p,
            Err(e) => { return Err(e); },
        };
        proof {
            lemma_one_high_outlasts_zero_high(ticks_hz);
        }
        Ok(FrameTimings { t0h, t1h, t0l, t1l })
    }
}

/// Doubling a duration at least doubles its whole tick count, so whenever
/// the 0-bit high window reaches one tick, the 1-bit high window (twice as
/// long) strictly outlasts it.
proof fn lemma_one_high_outlasts_zero_high(ticks_hz: u32)
    requires
        ticks_of(ticks_hz, T0H_NANOS) >= 1,
    ensures
        ticks_of(ticks_hz, T1H_NANOS) > ticks_of(ticks_hz, T0H_NANOS),
{
    let d: int = NANOS_PER_SEC as int;
    let a: int = T0H_NANOS * ticks_hz;
    let q: int = a / d;
    let r: int = a % d;
    lemma_fundamental_div_mod(a, d);
    assert(T1H_NANOS * ticks_hz == 2 * a);
    if 2 * r < d {
        lemma_fundamental_div_mod_converse_div(2 * a, d, 2 * q, 2 * r);
    } else {
        lemma_fundamental_div_mod_converse_div(2 * a, d, 2 * q + 1, 2 * r - d);
    }
}

} // verus!
