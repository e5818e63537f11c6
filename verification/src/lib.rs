//! Logic core of a small WS2812 LED firmware: a verified bit-to-pulse-pair
//! encoder for the one-wire LED protocol, together with the pure decision
//! kernels of the surrounding firmware (a color wheel, a stepper phase
//! sequencer, access-point selection for the WiFi setup, and the chunk
//! reassembly of the HTTP client demo).
//!
//! Hardware access itself (the RMT pulse emitter, GPIO pins, the WiFi stack)
//! stays outside this crate; callers hand in plain values (tick frequencies,
//! scan results) and receive plain values (pulse sequences, pin levels) back.

pub mod color_wheel;
pub mod http;
pub mod pulse;
pub mod rgb;
pub mod signal;
pub mod stepper;
pub mod wifi;
