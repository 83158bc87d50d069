//! The APU noise channel.
use vstd::prelude::*;
use crate::envelope::Envelope;
use crate::length::LengthCounter;

verus! {

/// Shift periods in CPU cycles, NTSC.
pub const NOISE_PERIOD_NTSC: [u16; 16] = [
    4, 8, 16, 32, 64, 96, 128, 160, 202, 254, 380, 508, 762, 1016, 2034, 4068,
];

/// Shift periods in CPU cycles, PAL.
pub const NOISE_PERIOD_PAL: [u16; 16] = [
    4, 8, 14, 30, 60, 88, 118, 148, 188, 236, 354, 472, 708, 944, 1890, 3778,
];

#[derive(Clone, Copy, Debug, PartialEq, Eq, Structural)]
pub struct NoiseChannel {
    pub enabled: bool,
    /// Short sequence (tap at bit 6) rather than the long one (tap at bit 1).
    pub mode: bool,
    pub period_index: u8,
    pub timer_period: u16,
    pub timer: u16,
    /// 15-bit shift register.
    pub shift: u16,
    pub envelope: Envelope,
    pub length: LengthCounter,
    pub pal: bool,
}

/// Shift period for a selector.
pub open spec fn period_of(period_index: u8, pal: bool) -> u16 {
    if pal {
        NOISE_PERIOD_PAL[(period_index & 0x0F) as int]
    } else {
        NOISE_PERIOD_NTSC[(period_index & 0x0F) as int]
    }
}

/// One shift of the register: bit 0 xor the tap enters at bit 14.
pub open spec fn shifted(shift: u16, mode: bool) -> u16 {
    let tap = if mode { (shift >> 6) & 1 } else { (shift >> 1) & 1 };
    (shift >> 1) | (((shift & 1) ^ tap) << 14)
}

/// The noise never dies out: a nonzero 15-bit register stays nonzero and
/// stays within 15 bits.
pub proof fn lemma_noise_never_dies(shift: u16, mode: bool)
    by (bit_vector)
    requires
        0 < shift <= 0x7FFF,
    ensures
        0 < shifted(shift, mode) <= 0x7FFF,
{
}

impl NoiseChannel {
    /// The shift register starts with a single one in its low bit.
    pub open spec fn power_on() -> Self {
        NoiseChannel {
            enabled: false,
            mode: false,
            period_index: 0,
            timer_period: 0,
            timer: 0,
            shift: 1,
            envelope: Envelope::power_on(),
            length: LengthCounter::power_on(),
            pal: false,
        }
    }

    pub open spec fn wf(self) -> bool {
        self.envelope.wf()
    }

    pub open spec fn with_main(self, value: u8) -> Self {
        NoiseChannel {
            length: LengthCounter { halt: value & 0x20 != 0, ..self.length },
            envelope: self.envelope.with_control(value),
            ..self
        }
    }

    pub open spec fn with_period(self, value: u8) -> Self {
        NoiseChannel {
            mode: value & 0x80 != 0,
            period_index: value & 0x0F,
            timer_period: period_of(value & 0x0F, self.pal),
            ..self
        }
    }

    pub open spec fn with_length(self, value: u8) -> Self {
        NoiseChannel {
            length: if self.enabled { self.length.loaded(value) } else { self.length },
            envelope: Envelope { start: true, ..self.envelope },
            ..self
        }
    }

    pub open spec fn with_pal(self, pal: bool) -> Self {
        NoiseChannel { pal, timer_period: period_of(self.period_index, pal), ..self }
    }

    pub open spec fn with_enabled(self, on: bool) -> Self {
        NoiseChannel { enabled: on, length: self.length.gated(on), ..self }
    }

    /// State after one CPU cycle of the timer: the register shifts once per
    /// period.
    pub open spec fn timer_clocked(self) -> Self {
        if self.timer == 0 {
            NoiseChannel {
                timer: self.timer_period.saturating_sub(1),
                shift: shifted(self.shift, self.mode),
                ..self
            }
        } else {
            NoiseChannel { timer: (self.timer - 1) as u16, ..self }
        }
    }

    /// State after `n` CPU cycles of the timer.
    pub open spec fn timer_run(self, n: nat) -> Self
        decreases n,
    {
        if n == 0 {
            self
        } else {
            self.timer_run((n - 1) as nat).timer_clocked()
        }
    }

    /// Level that the channel puts out: nothing while bit 0 is set.
    pub open spec fn level(self) -> u8 {
        if self.enabled && self.length.running() && self.shift & 1 == 0 {
            self.envelope.level()
        } else {
            0
        }
    }

    pub fn new() -> (r: Self)
        ensures
            r == Self::power_on(),
            r.wf(),
    {
        NoiseChannel {
            enabled: false,
            mode: false,
            period_index: 0,
            timer_period: 0,
            timer: 0,
            shift: 1,
            envelope: Envelope::new(),
            length: LengthCounter::new(),
            pal: false,
        }
    }

    /// Shift period for a selector.
    pub fn period_for(period_index: u8, pal: bool) -> (r: u16)
        ensures
            r == period_of(period_index, pal),
    {
        proof {
            crate::bits::lemma_byte_fields(period_index);
        }
        let idx: usize = (period_index & 0x0F) as usize;
        if pal {
            NOISE_PERIOD_PAL[idx]
        } else {
            NOISE_PERIOD_NTSC[idx]
        }
    }

    /// Pick the period table of the region.
    pub fn set_pal(&mut self, pal: bool)
        ensures
            *final(self) == old(self).with_pal(pal),
            old(self).wf() ==> final(self).wf(),
    {
        self.pal = pal;
        self.timer_period = Self::period_for(self.period_index, pal);
    }

    pub fn write_main(&mut self, value: u8)
        ensures
            *final(self) == old(self).with_main(value),
            old(self).wf() ==> final(self).wf(),
    {
        self.length.halt = value & 0x20 != 0;
        self.envelope.write(value);
    }

    pub fn write_period(&mut self, value: u8)
        ensures
            *final(self) == old(self).with_period(value),
            old(self).wf() ==> final(self).wf(),
    {
        self.mode = value & 0x80 != 0;
        self.period_index = value & 0x0F;
        self.timer_period = Self::period_for(self.period_index, self.pal);
    }

    pub fn write_length(&mut self, value: u8)
        ensures
            *final(self) == old(self).with_length(value),
            old(self).wf() ==> final(self).wf(),
    {
        if self.enabled {
            self.length.write(value, true);
        }
        self.envelope.start = true;
    }

    /// Enable or disable the channel.
    pub fn set_enabled(&mut self, on: bool)
        ensures
            *final(self) == old(self).with_enabled(on),
            old(self).wf() ==> final(self).wf(),
    {
        self.enabled = on;
        self.length.silence_if_disabled(on);
    }

    /// Run the timer for `cycles` CPU cycles.
    pub fn tick_timer(&mut self, cycles: u32)
        ensures
            *final(self) == old(self).timer_run(cycles as nat),
            old(self).wf() ==> final(self).wf(),
    {
        for i in 0..cycles
            invariant
                *self == old(self).timer_run(i as nat),
                self.envelope == old(self).envelope,
        {
            if self.timer == 0 {
                self.timer = self.timer_period.saturating_sub(1);
                let tap: u16 = if self.mode {
                    (self.shift >> 6) & 1
                } else {
                    (self.shift >> 1) & 1
                };
                let feedback: u16 = (self.shift & 1) ^ tap;
                self.shift = (self.shift >> 1) | (feedback << 14);
            } else {
                self.timer = self.timer - 1;
            }
        }
    }

    pub fn clock_envelope(&mut self)
        ensures
            *final(self) == (NoiseChannel {
                envelope: old(self).envelope.clocked(),
                ..*old(self)
            }),
            old(self).wf() ==> final(self).wf(),
    {
        self.envelope.clock();
    }

    pub fn clock_length(&mut self)
        ensures
            *final(self) == (NoiseChannel { length: old(self).length.clocked(), ..*old(self) }),
            old(self).wf() ==> final(self).wf(),
    {
        self.length.clock();
    }

    /// Level that the channel puts out.
    pub fn output(&self) -> (r: u8)
        requires
            self.wf(),
        ensures
            r == self.level(),
            r <= 15,
    {
        if !self.enabled || !self.length.active() || self.shift & 1 != 0 {
            return 0;
        }
        self.envelope.output()
    }

    /// The timer does not depend on how its cycles are cut into batches.
    pub proof fn lemma_timer_split(self, a: nat, b: nat)
        ensures
            self.timer_run(a + b) == self.timer_run(a).timer_run(b),
        decreases b,
    {
        if b > 0 {
            self.lemma_timer_split(a, (b - 1) as nat);
            assert((a + b - 1) as nat == a + (b - 1) as nat);
        }
    }

    /// Whether the fields are within their ranges.
    pub fn is_well_formed(&self) -> (r: bool)
        ensures
            r == self.wf(),
    {
        self.envelope.is_well_formed()
    }
}

} // verus!
