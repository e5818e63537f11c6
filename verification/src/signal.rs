//! Encoding a 24-bit color as a fixed-length sequence of pulse pairs.
//!
//! One frame of the one-wire protocol is 24 pulse pairs, one per bit of the
//! color, most significant bit first: the pair at index 0 carries bit 23,
//! the pair at index 23 carries bit 0.  A 1 bit is sent as the long-high /
//! short-low pair, a 0 bit as the short-high / long-low pair.

use vstd::prelude::*;

verus! {

use crate::pulse::{EmitterError, FrameTimings, PinState, Pulse, spec_timings, timings_ok};

/// Pulse pairs in one frame: one per bit of a 24-bit color.
pub const FRAME_BITS: usize = 24;

/// Bit `i` of `color`, counting from the least significant bit.
pub open spec fn bit_of(color: u32, i: u32) -> bool {
    (color >> i) & 1u32 == 1u32
}

/// The pulse pair that carries bit value `b` under timings `t`.
pub open spec fn pair_for(t: FrameTimings, b: bool) -> (Pulse, Pulse) {
    if b {
        (t.t1h, t.t1l)
    } else {
        (t.t0h, t.t0l)
    }
}

/// The pair both pulses of which are idle (low for zero ticks); the content
/// of a freshly created signal before its pairs are set.
pub open spec fn idle_pair() -> (Pulse, Pulse) {
    (Pulse { level: PinState::Low, ticks: 0 }, Pulse { level: PinState::Low, ticks: 0 })
}

/// `s` is the frame that encodes the 24-bit color `c` under timings `t`:
/// exactly one pulse pair per bit, most significant bit first.
pub open spec fn encodes(s: Seq<(Pulse, Pulse)>, c: u32, t: FrameTimings) -> bool {
    &&& s.len() == FRAME_BITS
    &&& c < 0x1000000
    &&& forall|j: int| 0 <= j < FRAME_BITS ==> s[j] == pair_for(t, bit_of(c, (23 - j) as u32))
}

/// An ordered, fixed-length buffer of pulse pairs, one frame's worth.
pub struct FixedLengthSignal {
    pairs: Vec<(Pulse, Pulse)>,
}

impl View for FixedLengthSignal {
    type V = Seq<(Pulse, Pulse)>;

    closed spec fn view(&self) -> Seq<(Pulse, Pulse)> {
        self.pairs@
    }
}

impl FixedLengthSignal {
    /// A frame-sized signal with every pair still idle.
    pub fn new() -> (s: FixedLengthSignal)
        ensures
            s@.len() == FRAME_BITS,
            forall|j: int| 0 <= j < FRAME_BITS ==> s@[j] == idle_pair(),
    {
        let blank: (Pulse, Pulse) = (
            Pulse { level: PinState::Low, ticks: 0 },
            Pulse { level: PinState::Low, ticks: 0 },
        );
        let mut pairs: Vec<(Pulse, Pulse)> = Vec::new();
        let mut k: usize = 0;
        while k < FRAME_BITS
            invariant
                k <= FRAME_BITS,
                pairs@.len() == k,
                blank == idle_pair(),
                forall|j: int| 0 <= j < k ==> pairs@[j] == idle_pair(),
            decreases FRAME_BITS - k,
        {
            pairs.push(blank);
            k = k + 1;
        }
        FixedLengthSignal { pairs }
    }

    /// The number of pulse pairs held.
    pub fn len(&self) -> (n: usize)
        ensures
            n == self@.len(),
    {
        self.pairs.len()
    }

    /// The pulse pair at `index`.
    pub fn get(&self, index: usize) -> (p: (Pulse, Pulse))
        requires
            index < self@.len(),
        ensures
            p == self@[index as int],
    {
        self.pairs[index]
    }

    /// Overwrites the pulse pair at `index`.
    pub fn set(&mut self, index: usize, pair: (Pulse, Pulse))
        requires
            index < old(self)@.len(),
        ensures
            final(self)@ == old(self)@.update(index as int, pair),
    {
        self.pairs[index] = pair;
    }
}

/// Builds the frame for `color` under timings `t`: walks the color's bits
/// most significant first and selects the pair that carries each bit.
pub fn encode_signal(color: u32, t: &FrameTimings) -> (s: FixedLengthSignal)
    requires
        color < 0x1000000,
    ensures
        encodes(s@, color, *t),
{
    let mut s = FixedLengthSignal::new();
    let mut j: usize = 0;
    while j < FRAME_BITS
        invariant
            color < 0x1000000,
            j <= FRAME_BITS,
            s@.len() == FRAME_BITS,
            forall|k: int| 0 <= k < j ==> s@[k] == pair_for(*t, bit_of(color, (23 - k) as u32)),
        decreases FRAME_BITS - j,
    {
        let i: u32 = 23 - (j as u32);
        let mask: u32 = 1u32 << i;
        let bit: bool = color & mask != 0;
        proof {
            lemma_mask_tests_bit(color, i);
        }
        let pair: (Pulse, Pulse) = if bit {
            (t.t1h, t.t1l)
        } else {
            (t.t0h, t.t0l)
        };
        s.set(j, pair);
        j = j + 1;
    }
    s
}

/// Computes the timings for `ticks_hz` and builds the frame for `color`.
///
/// Fails with `TimingComputation` exactly when some datasheet duration has
/// no in-range whole tick count at this frequency; it never transmits.
pub fn encode_frame(color: u32, ticks_hz: u32) -> (r: Result<FixedLengthSignal, EmitterError>)
    requires
        color < 0x1000000,
    ensures
        match r {
            Ok(s) => timings_ok(ticks_hz) && encodes(s@, color, spec_timings(ticks_hz)),
            Err(e) => e == EmitterError::TimingComputation && !timings_ok(ticks_hz),
        },
{
    let t = match FrameTimings::new(ticks_hz) {
        Ok(t) => t,
        Err(e) => { return Err(e); },
    };
    Ok(encode_signal(color, &t))
}

/// Reads a frame back into the color it encodes under timings `t`.
///
/// Returns the unique color whose frame `s` is, or `None` when `s` is not
/// a frame that the encoder could have produced under `t`.
pub fn decode_signal(s: &FixedLengthSignal, t: &FrameTimings) -> (r: Option<u32>)
    requires
        t.wf(),
    ensures
        match r {
            Some(c) => encodes(s@, c, *t),
            None => forall|c: u32| !encodes(s@, c, *t),
        },
{
    if s.len() != FRAME_BITS {
        return None;
    }
    let mut c: u32 = 0;
    let mut j: usize = 0;
    proof {
        lemma_no_bits_set(c);
    }
    while j < FRAME_BITS
        invariant
            t.wf(),
            j <= FRAME_BITS,
            s@.len() == FRAME_BITS,
            c < 0x1000000,
            forall|k: int| 0 <= k < j ==> s@[k] == pair_for(*t, bit_of(c, (23 - k) as u32)),
            forall|i: u32| i < 24 - j ==> !bit_of(c, i),
        decreases FRAME_BITS - j,
    {
        let pair: (Pulse, Pulse) = s.get(j);
        let is_one: bool = pair.0 == t.t1h && pair.1 == t.t1l;
        let is_zero: bool = pair.0 == t.t0h && pair.1 == t.t0l;
        if is_one {
            let i: u32 = 23 - (j as u32);
            proof {
                lemma_or_sets_bit(c, i);
            }
            c = c | (1u32 << i);
        } else if !is_zero {
            proof {
                assert forall|cc: u32| !encodes(s@, cc, *t) by {
                    if encodes(s@, cc, *t) {
                        assert(s@[j as int] == pair_for(*t, bit_of(cc, (23 - j) as u32)));
                    }
                }
            }
            return None;
        }
        j = j + 1;
    }
    Some(c)
}

/// Law: decoding is lossless — a pulse sequence encodes at most one color,
/// so the frame built for a color decodes back to that color exactly.
pub proof fn lemma_encoding_unique(s: Seq<(Pulse, Pulse)>, c1: u32, c2: u32, t: FrameTimings)
    requires
        t.wf(),
        encodes(s, c1, t),
        encodes(s, c2, t),
    ensures
        c1 == c2,
{
    assert forall|i: u32| i < 24 implies bit_of(c1, i) == bit_of(c2, i) by {
        let j: int = 23 - i;
        assert(s[j] == pair_for(t, bit_of(c1, (23 - j) as u32)));
        assert(s[j] == pair_for(t, bit_of(c2, (23 - j) as u32)));
    }
    lemma_bits_determine(c1, c2);
}

/// Law: encoding is deterministic — any two frames that encode the same
/// color under the same timings are identical, pair for pair.
pub proof fn lemma_encoding_deterministic(
    s1: Seq<(Pulse, Pulse)>,
    s2: Seq<(Pulse, Pulse)>,
    c: u32,
    t: FrameTimings,
)
    requires
        encodes(s1, c, t),
        encodes(s2, c, t),
    ensures
        s1 == s2,
{
    assert(s1 =~= s2);
}

/// Testing a color against a single-bit mask reads exactly that bit.
proof fn lemma_mask_tests_bit(c: u32, i: u32)
    by (bit_vector)
    requires
        i < 32,
    ensures
        ((c & (1u32 << i)) != 0) == bit_of(c, i),
{
}

/// Zero has no bit set.
proof fn lemma_no_bits_set(c: u32)
    by (bit_vector)
    requires
        c == 0,
    ensures
        forall|i: u32| !bit_of(c, i),
{
}

/// Or-ing in a single-bit mask sets that bit, leaves every other bit as it
/// was, and keeps a 24-bit value 24-bit.
proof fn lemma_or_sets_bit(c: u32, i: u32)
    by (bit_vector)
    requires
        i < 24,
        c < 0x1000000,
    ensures
        c | (1u32 << i) < 0x1000000,
        forall|k: u32| k < 32 ==> #[trigger] bit_of(c | (1u32 << i), k) == (bit_of(c, k) || k == i),
{
}

/// A 24-bit value is determined by its 24 bits.
proof fn lemma_bits_determine(c1: u32, c2: u32)
    by (bit_vector)
    requires
        c1 < 0x1000000,
        c2 < 0x1000000,
        bit_of(c1, 0) == bit_of(c2, 0),
        bit_of(c1, 1) == bit_of(c2, 1),
        bit_of(c1, 2) == bit_of(c2, 2),
        bit_of(c1, 3) == bit_of(c2, 3),
        bit_of(c1, 4) == bit_of(c2, 4),
        bit_of(c1, 5) == bit_of(c2, 5),
        bit_of(c1, 6) == bit_of(c2, 6),
        bit_of(c1, 7) == bit_of(c2, 7),
        bit_of(c1, 8) == bit_of(c2, 8),
        bit_of(c1, 9) == bit_of(c2, 9),
        bit_of(c1, 10) == bit_of(c2, 10),
        bit_of(c1, 11) == bit_of(c2, 11),
        bit_of(c1, 12) == bit_of(c2, 12),
        bit_of(c1, 13) == bit_of(c2, 13),
        bit_of(c1, 14) == bit_of(c2, 14),
        bit_of(c1, 15) == bit_of(c2, 15),
        bit_of(c1, 16) == bit_of(c2, 16),
        bit_of(c1, 17) == bit_of(c2, 17),
        bit_of(c1, 18) == bit_of(c2, 18),
        bit_of(c1, 19) == bit_of(c2, 19),
        bit_of(c1, 20) == bit_of(c2, 20),
        bit_of(c1, 21) == bit_of(c2, 21),
        bit_of(c1, 22) == bit_of(c2, 22),
        bit_of(c1, 23) == bit_of(c2, 23),
    ensures
        c1 == c2,
{
}

} // verus!
