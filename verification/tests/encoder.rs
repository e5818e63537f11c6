use ws2812_pulse::pulse::{EmitterError, FrameTimings, PinState, Pulse};
use ws2812_pulse::rgb::{spi_frame, Rgb8, WS2812RMT};
use ws2812_pulse::signal::{decode_signal, encode_frame, encode_signal, FixedLengthSignal, FRAME_BITS};

/// The emitter clock of the reference setup: 160 MHz divided by 2.
const TICKS_HZ: u32 = 80_000_000;

fn timings() -> FrameTimings {
    FrameTimings::new(TICKS_HZ).expect("datasheet durations must be representable at 80 MHz")
}

fn bit(color: u32, i: u32) -> bool {
    (color >> i) & 1 == 1
}

#[test]
fn frame_is_24_pairs_msb_first() {
    let t = timings();
    let color: u32 = 0xA5_C3_F0;
    let s = encode_signal(color, &t);
    assert_eq!(s.len(), FRAME_BITS);
    for j in 0..24u32 {
        let (high, low) = s.get(j as usize);
        // pair j carries bit 23 - j: 1 bits as (t1h, t1l), 0 bits as (t0h, t0l)
        if bit(color, 23 - j) {
            assert_eq!(high, t.t1h);
            assert_eq!(low, t.t1l);
        } else {
            assert_eq!(high, t.t0h);
            assert_eq!(low, t.t0l);
        }
    }
}

#[test]
fn pulse_durations_at_80mhz() {
    let t = timings();
    assert_eq!(t.t0h, Pulse { level: PinState::High, ticks: 32 });
    assert_eq!(t.t1h, Pulse { level: PinState::High, ticks: 64 });
    assert_eq!(t.t0l, Pulse { level: PinState::Low, ticks: 68 });
    assert_eq!(t.t1l, Pulse { level: PinState::Low, ticks: 36 });
}

#[test]
fn round_trip_is_lossless() {
    let t = timings();
    for &color in &[0u32, 1, 0x000080, 0xFF0000, 0x00FF00, 0x0000FF, 0xA5C3F0, 0xFFFFFF] {
        let s = encode_signal(color, &t);
        assert_eq!(decode_signal(&s, &t), Some(color));
    }
}

#[test]
fn encoding_is_idempotent() {
    let t = timings();
    let first = encode_signal(0x12AB34, &t);
    let second = encode_signal(0x12AB34, &t);
    assert_eq!(first.len(), second.len());
    for j in 0..first.len() {
        assert_eq!(first.get(j), second.get(j));
    }
}

#[test]
fn all_zero_color_gives_all_zero_pairs() {
    let t = timings();
    let s = encode_signal(0x000000, &t);
    for j in 0..s.len() {
        assert_eq!(s.get(j), (t.t0h, t.t0l));
    }
}

#[test]
fn all_one_color_gives_all_one_pairs() {
    let t = timings();
    let s = encode_signal(0xFFFFFF, &t);
    for j in 0..s.len() {
        assert_eq!(s.get(j), (t.t1h, t.t1l));
    }
}

#[test]
fn green_frame_scenario() {
    // 0xFF0000 is pure green in the protocol's green-red-blue order: eight
    // 1-bit pairs for the top byte, then sixteen 0-bit pairs.
    let s = encode_frame(0xFF0000, TICKS_HZ).expect("timings representable at 80 MHz");
    for j in 0..8 {
        let (high, low) = s.get(j);
        assert_eq!(high, Pulse { level: PinState::High, ticks: 64 });
        assert_eq!(low, Pulse { level: PinState::Low, ticks: 36 });
    }
    for j in 8..24 {
        let (high, low) = s.get(j);
        assert_eq!(high, Pulse { level: PinState::High, ticks: 32 });
        assert_eq!(low, Pulse { level: PinState::Low, ticks: 68 });
    }
}

#[test]
fn sub_tick_duration_is_an_error() {
    // 1 ns at 1 MHz (tick period 1000 ns) has no whole tick: it must fail,
    // not round to zero ticks.
    let r = Pulse::new_with_duration(1_000_000, PinState::High, 1);
    assert_eq!(r, Err(EmitterError::TimingComputation));
}

#[test]
fn too_slow_clock_is_an_error() {
    // At 1 MHz even the longest datasheet window (850 ns) is below one tick.
    assert!(matches!(encode_frame(0, 1_000_000), Err(EmitterError::TimingComputation)));
    assert!(matches!(FrameTimings::new(1_000_000), Err(EmitterError::TimingComputation)));
}

#[test]
fn over_long_duration_is_an_error() {
    // 100_000 ns at 1 GHz is 100_000 ticks, past the 16-bit tick counter.
    let r = Pulse::new_with_duration(1_000_000_000, PinState::Low, 100_000);
    assert_eq!(r, Err(EmitterError::TimingComputation));
}

#[test]
fn slowest_workable_clock() {
    // 2.5 MHz is the lowest rate giving the 0-bit high window a whole tick.
    let t = FrameTimings::new(2_500_000).expect("all four durations reach one tick");
    assert_eq!(t.t0h.ticks, 1);
    assert_eq!(t.t1h.ticks, 2);
    assert_eq!(t.t0l.ticks, 2);
    assert_eq!(t.t1l.ticks, 1);
}

#[test]
fn tampered_frame_does_not_decode() {
    let t = timings();
    let mut s = encode_signal(0x123456, &t);
    s.set(
        11,
        (Pulse { level: PinState::Low, ticks: 64 }, Pulse { level: PinState::Low, ticks: 36 }),
    );
    assert_eq!(decode_signal(&s, &t), None);
}

#[test]
fn fresh_signal_is_idle() {
    let s = FixedLengthSignal::new();
    assert_eq!(s.len(), 24);
    for j in 0..24 {
        let (high, low) = s.get(j);
        assert_eq!(high, Pulse { level: PinState::Low, ticks: 0 });
        assert_eq!(low, Pulse { level: PinState::Low, ticks: 0 });
    }
}

#[test]
fn set_pixel_encodes_grb() {
    let mut driver = WS2812RMT::new(TICKS_HZ);
    // pure green: top byte 0xFF, the rest zero
    let s = driver.set_pixel(Rgb8 { r: 0, g: 255, b: 0 }).expect("timings representable");
    for j in 0..8 {
        assert_eq!(s.get(j).0.ticks, 64);
    }
    for j in 8..24 {
        assert_eq!(s.get(j).0.ticks, 32);
    }
    let t = timings();
    // red and blue land in the middle and bottom byte
    let s = driver.set_pixel(Rgb8 { r: 0x12, g: 0x34, b: 0x56 }).expect("timings representable");
    assert_eq!(decode_signal(&s, &t), Some(0x341256));
}

#[test]
fn spi_frame_layout() {
    let w = spi_frame(Rgb8 { r: 1, g: 2, b: 3 });
    assert_eq!(w, vec![0, 0, 0, 0, 0xE8, 3, 2, 1, 0xFF, 0xFF, 0xFF, 0xFF]);
}

#[test]
fn set_pixel_fails_on_misconfigured_clock() {
    let mut driver = WS2812RMT::new(1_000_000);
    let r = driver.set_pixel(Rgb8 { r: 1, g: 2, b: 3 });
    assert!(matches!(r, Err(EmitterError::TimingComputation)));
}
