//! The length counter that the APU channels and the MMC5 pulses share.
use vstd::prelude::*;

verus! {

/// Length counter load values, indexed by the top five bits of the write.
pub const LENGTH_TABLE: [u8; 32] = [
    10, 254, 20, 2, 40, 4, 80, 6, 160, 8, 60, 10, 14, 12, 26, 14, 12, 16, 24, 18, 48, 20, 96, 22,
    192, 24, 72, 26, 16, 28, 32, 30,
];

/// Load value selected by a length register write.
pub open spec fn length_of(value: u8) -> u8 {
    LENGTH_TABLE[((value >> 3) & 0x1F) as int]
}

/// Length counter load value selected by bits 7-3 of `value`.
pub fn length_for(value: u8) -> (n: u8)
    ensures
        n == length_of(value),
{
    proof {
        crate::bits::lemma_byte_fields(value);
    }
    LENGTH_TABLE[((value >> 3) & 0x1F) as usize]
}

/// A length counter: counts down at half-frame clocks unless halted, and
/// silences its channel at zero.
#[derive(Clone, Copy, Debug, PartialEq, Eq, Default, Structural)]
pub struct LengthCounter {
    pub halt: bool,
    pub counter: u8,
}

impl LengthCounter {
    pub open spec fn power_on() -> Self {
        LengthCounter { halt: false, counter: 0 }
    }

    pub open spec fn loaded(self, value: u8) -> Self {
        LengthCounter { counter: length_of(value), ..self }
    }

    pub open spec fn clocked(self) -> Self {
        if !self.halt && self.counter > 0 {
            LengthCounter { counter: (self.counter - 1) as u8, ..self }
        } else {
            self
        }
    }

    /// Whether the channel may sound.
    pub open spec fn running(self) -> bool {
        self.counter > 0
    }

    /// The counter of a channel that has just been enabled or disabled.
    pub open spec fn gated(self, enabled: bool) -> Self {
        if enabled { self } else { LengthCounter { counter: 0, ..self } }
    }

    pub fn new() -> (r: Self)
        ensures
            r == Self::power_on(),
    {
        LengthCounter { halt: false, counter: 0 }
    }

    /// Load the counter, if the channel is enabled.
    pub fn write(&mut self, value: u8, enabled: bool)
        ensures
            *final(self) == (if enabled { old(self).loaded(value) } else { *old(self) }),
    {
        if enabled {
            self.counter = length_for(value);
        }
    }

    pub fn clock(&mut self)
        ensures
            *final(self) == old(self).clocked(),
    {
        if !self.halt && self.counter > 0 {
            self.counter = self.counter - 1;
        }
    }

    pub fn active(&self) -> (r: bool)
        ensures
            r == self.running(),
    {
        self.counter > 0
    }

    pub fn silence_if_disabled(&mut self, enabled: bool)
        ensures
            *final(self) == old(self).gated(enabled),
    {
        if !enabled {
            self.counter = 0;
        }
    }
}

} // verus!
