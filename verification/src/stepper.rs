//! The drive sequence of a four-coil stepper motor.
//!
//! A stepper advances by energizing one coil at a time, in a fixed cycle of
//! four phases.  This module decides which coil each step position maps to;
//! the caller applies the commanded levels to the real pins.

use vstd::prelude::*;

verus! {

/// The phase (0 to 3) that drive position `step` falls in; consecutive
/// positions, in either direction, fall in consecutive phases.
pub open spec fn phase_of(step: i64) -> int {
    (step as int) % 4
}

/// A four-coil stepper, modeled by the logic level commanded on each coil
/// line: `true` energizes the coil.
pub struct Stepper {
    pub p1: bool,
    pub p2: bool,
    pub p3: bool,
    pub p4: bool,
}

impl Stepper {
    /// A stepper with all coils released.
    pub fn new() -> (s: Stepper)
        ensures
            !s.p1 && !s.p2 && !s.p3 && !s.p4,
    {
        Stepper { p1: false, p2: false, p3: false, p4: false }
    }

    /// Energizes exactly the coil of the phase that `step` falls in.
    pub fn step(&mut self, step: i64)
        ensures
            final(self).p1 == (phase_of(step) == 0),
            final(self).p2 == (phase_of(step) == 1),
            final(self).p3 == (phase_of(step) == 2),
            final(self).p4 == (phase_of(step) == 3),
    {
        let phase: i64 = match step.checked_rem_euclid(4) {
            Some(p) => p,
            None => 0,
        };
        self.p1 = phase == 0;
        self.p2 = phase == 1;
        self.p3 = phase == 2;
        self.p4 = phase == 3;
    }

    /// Releases all four coils.
    pub fn stop(&mut self)
        ensures
            !final(self).p1 && !final(self).p2 && !final(self).p3 && !final(self).p4,
    {
        self.p1 = false;
        self.p2 = false;
        self.p3 = false;
        self.p4 = false;
    }

    /// The commanded levels, coil 1 first.
    pub fn levels(&self) -> (l: (bool, bool, bool, bool))
        ensures
            l == ((self.p1, self.p2, self.p3, self.p4)),
    {
        (self.p1, self.p2, self.p3, self.p4)
    }
}

} // verus!
