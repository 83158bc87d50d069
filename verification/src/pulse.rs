//! The two APU pulse channels.
use vstd::prelude::*;
use crate::envelope::Envelope;
use crate::length::LengthCounter;

verus! {

/// Duty waveforms, one row per duty setting.
pub const DUTY_TABLE: [[u8; 8]; 4] = [
    [0, 1, 0, 0, 0, 0, 0, 0],
    [0, 1, 1, 0, 0, 0, 0, 0],
    [0, 1, 1, 1, 1, 0, 0, 0],
    [1, 0, 0, 1, 1, 1, 1, 1],
];

/// A pulse channel with its sweep unit.
#[derive(Clone, Copy, Debug, PartialEq, Eq, Default, Structural)]
pub struct PulseChannel {
    pub enabled: bool,
    pub duty: u8,
    pub duty_step: u8,
    pub timer_period: u16,
    pub timer: u16,
    pub envelope: Envelope,
    pub length: LengthCounter,
    pub sweep_enabled: bool,
    pub sweep_period: u8,
    pub sweep_negate: bool,
    pub sweep_shift: u8,
    pub sweep_reload: bool,
    pub sweep_divider: u8,
    /// The second channel negates its sweep by two's complement, the first by
    /// ones' complement.
    pub is_pulse_two: bool,
}

impl PulseChannel {
    pub open spec fn power_on(is_pulse_two: bool) -> Self {
        PulseChannel {
            enabled: false,
            duty: 0,
            duty_step: 0,
            timer_period: 0,
            timer: 0,
            envelope: Envelope::power_on(),
            length: LengthCounter::power_on(),
            sweep_enabled: false,
            sweep_period: 0,
            sweep_negate: false,
            sweep_shift: 0,
            sweep_reload: false,
            sweep_divider: 0,
            is_pulse_two,
        }
    }

    pub open spec fn wf(self) -> bool {
        &&& self.duty <= 3
        &&& self.duty_step <= 7
        &&& self.timer_period <= 0x7FF
        &&& self.sweep_shift <= 7
        &&& self.envelope.wf()
    }

    pub open spec fn with_main(self, value: u8) -> Self {
        PulseChannel {
            duty: (value >> 6) & 0x03,
            length: LengthCounter { halt: value & 0x20 != 0, ..self.length },
            envelope: self.envelope.with_control(value),
            ..self
        }
    }

    pub open spec fn with_sweep(self, value: u8) -> Self {
        PulseChannel {
            sweep_enabled: value & 0x80 != 0,
            sweep_period: (value >> 4) & 0x07,
            sweep_negate: value & 0x08 != 0,
            sweep_shift: value & 0x07,
            sweep_reload: true,
            ..self
        }
    }

    pub open spec fn with_period_lo(self, value: u8) -> Self {
        PulseChannel { timer_period: (self.timer_period & 0xFF00) | value as u16, ..self }
    }

    /// Effect of the fourth register: period high bits, length load of an
    /// enabled channel, phase reset and envelope restart.
    pub open spec fn with_period_hi(self, value: u8) -> Self {
        PulseChannel {
            timer_period: (self.timer_period & 0x00FF) | (((value & 0x07) as u16) << 8),
            length: if self.enabled { self.length.loaded(value) } else { self.length },
            duty_step: 0,
            envelope: Envelope { start: true, ..self.envelope },
            ..self
        }
    }

    /// The channel just enabled or disabled.
    pub open spec fn with_enabled(self, on: bool) -> Self {
        PulseChannel { enabled: on, length: self.length.gated(on), ..self }
    }

    /// State after one clock of the timer.
    pub open spec fn timer_clocked(self) -> Self {
        if self.timer == 0 {
            PulseChannel {
                timer: self.timer_period,
                duty_step: ((self.duty_step + 1) % 8) as u8,
                ..self
            }
        } else {
            PulseChannel { timer: (self.timer - 1) as u16, ..self }
        }
    }

    /// State after `n` clocks of the timer.
    pub open spec fn timer_run(self, n: nat) -> Self
        decreases n,
    {
        if n == 0 {
            self
        } else {
            self.timer_run((n - 1) as nat).timer_clocked()
        }
    }

    /// Period that the sweep unit aims for: the current one plus or minus its
    /// own right shift, and one less still on the first channel; never below
    /// zero.
    pub open spec fn target(self) -> int {
        let change = (self.timer_period >> self.sweep_shift) as int;
        if self.sweep_negate {
            let sum = self.timer_period - change - (if self.is_pulse_two { 0int } else { 1int });
            if sum < 0 { 0 } else { sum }
        } else {
            self.timer_period + change
        }
    }

    /// The sweep unit silences the channel while its period is below 8 or the
    /// target is past 11 bits, whether or not sweeping is on.
    pub open spec fn muted(self) -> bool {
        self.timer_period < 8 || self.target() > 0x7FF
    }

    /// State after one half-frame clock of the sweep unit: the period moves
    /// to the target when the divider is at zero, sweeping is on with a
    /// nonzero shift and the channel is not muted; the divider counts on in
    /// any case.
    pub open spec fn sweep_clocked(self) -> Self {
        let p = if self.sweep_divider == 0 && self.sweep_enabled && self.sweep_shift > 0
            && !self.muted() {
            self.target() as u16
        } else {
            self.timer_period
        };
        if self.sweep_divider == 0 || self.sweep_reload {
            PulseChannel {
                timer_period: p,
                sweep_divider: self.sweep_period,
                sweep_reload: false,
                ..self
            }
        } else {
            PulseChannel {
                timer_period: p,
                sweep_divider: (self.sweep_divider - 1) as u8,
                ..self
            }
        }
    }

    /// Level that the channel puts out.
    pub open spec fn level(self) -> u8 {
        if self.enabled && self.length.running() && !self.muted()
            && DUTY_TABLE[self.duty as int][self.duty_step as int] != 0 {
            self.envelope.level()
        } else {
            0
        }
    }

    pub fn new(is_pulse_two: bool) -> (r: Self)
        ensures
            r == Self::power_on(is_pulse_two),
            r.wf(),
    {
        PulseChannel {
            enabled: false,
            duty: 0,
            duty_step: 0,
            timer_period: 0,
            timer: 0,
            envelope: Envelope::new(),
            length: LengthCounter::new(),
            sweep_enabled: false,
            sweep_period: 0,
            sweep_negate: false,
            sweep_shift: 0,
            sweep_reload: false,
            sweep_divider: 0,
            is_pulse_two,
        }
    }

    pub fn write_main(&mut self, value: u8)
        ensures
            *final(self) == old(self).with_main(value),
            old(self).wf() ==> final(self).wf(),
    {
        proof {
            crate::bits::lemma_byte_fields(value);
        }
        self.duty = (value >> 6) & 0x03;
        self.length.halt = value & 0x20 != 0;
        self.envelope.write(value);
    }

    pub fn write_sweep(&mut self, value: u8)
        ensures
            *final(self) == old(self).with_sweep(value),
            old(self).wf() ==> final(self).wf(),
    {
        proof {
            crate::bits::lemma_byte_fields(value);
        }
        self.sweep_enabled = value & 0x80 != 0;
        self.sweep_period = (value >> 4) & 0x07;
        self.sweep_negate = value & 0x08 != 0;
        self.sweep_shift = value & 0x07;
        self.sweep_reload = true;
    }

    pub fn write_period_lo(&mut self, value: u8)
        ensures
            *final(self) == old(self).with_period_lo(value),
            old(self).wf() ==> final(self).wf(),
    {
        proof {
            if self.wf() {
                crate::bits::lemma_period_bits(self.timer_period, value, 0);
            }
        }
        self.timer_period = (self.timer_period & 0xFF00) | value as u16;
    }

    pub fn write_period_hi(&mut self, value: u8)
        ensures
            *final(self) == old(self).with_period_hi(value),
            old(self).wf() ==> final(self).wf(),
    {
        proof {
            if self.wf() {
                crate::bits::lemma_period_bits(self.timer_period, value, 0);
            }
        }
        self.timer_period = (self.timer_period & 0x00FF) | (((value & 0x07) as u16) << 8);
        if self.enabled {
            self.length.write(value, true);
        }
        self.duty_step = 0;
        self.envelope.start = true;
    }

    /// Enable or disable the channel.
    pub fn set_enabled(&mut self, on: bool)
        ensures
            *final(self) == old(self).with_enabled(on),
            old(self).wf() ==> final(self).wf(),
    {
        self.enabled = on;
        self.length.silence_if_disabled(on);
    }

    /// Clock the timer `cycles` times.
    pub fn tick_timer(&mut self, cycles: u32)
        requires
            old(self).wf(),
        ensures
            *final(self) == old(self).timer_run(cycles as nat),
            final(self).wf(),
    {
        for i in 0..cycles
            invariant
                *self == old(self).timer_run(i as nat),
                self.wf(),
        {
            if self.timer == 0 {
                self.timer = self.timer_period;
                self.duty_step = (self.duty_step + 1) % 8;
            } else {
                self.timer = self.timer - 1;
            }
        }
    }

    pub fn clock_envelope(&mut self)
        ensures
            *final(self) == (PulseChannel {
                envelope: old(self).envelope.clocked(),
                ..*old(self)
            }),
            old(self).wf() ==> final(self).wf(),
    {
        self.envelope.clock();
    }

    pub fn clock_length(&mut self)
        ensures
            *final(self) == (PulseChannel { length: old(self).length.clocked(), ..*old(self) }),
            old(self).wf() ==> final(self).wf(),
    {
        self.length.clock();
    }

    /// Period that the sweep unit aims for.
    pub fn target_period(&self) -> (r: u16)
        requires
            self.wf(),
        ensures
            r == self.target(),
    {
        proof {
            crate::bits::lemma_period_bits(self.timer_period, 0, self.sweep_shift);
        }
        let change: u16 = self.timer_period >> self.sweep_shift;
        if self.sweep_negate {
            let bias: i32 = if self.is_pulse_two { 0 } else { 1 };
            let sum: i32 = self.timer_period as i32 - change as i32 - bias;
            if sum < 0 {
                0
            } else {
                sum as u16
            }
        } else {
            self.timer_period + change
        }
    }

    /// Whether the sweep unit silences the channel.
    pub fn sweep_mutes(&self) -> (r: bool)
        requires
            self.wf(),
        ensures
            r == self.muted(),
    {
        self.timer_period < 8 || self.target_period() > 0x07FF
    }

    /// Clock the sweep unit once.
    pub fn clock_sweep(&mut self)
        requires
            old(self).wf(),
        ensures
            *final(self) == old(self).sweep_clocked(),
            final(self).wf(),
    {
        let target: u16 = self.target_period();
        if self.sweep_divider == 0 && self.sweep_enabled && self.sweep_shift > 0
            && !self.sweep_mutes() {
            self.timer_period = target;
        }
        if self.sweep_divider == 0 || self.sweep_reload {
            self.sweep_divider = self.sweep_period;
            self.sweep_reload = false;
        } else {
            self.sweep_divider = self.sweep_divider - 1;
        }
    }

    /// Level that the channel puts out.
    pub fn output(&self) -> (r: u8)
        requires
            self.wf(),
        ensures
            r == self.level(),
            r <= 15,
    {
        if !self.enabled || !self.length.active() || self.sweep_mutes() {
            return 0;
        }
        let step: u8 = DUTY_TABLE[self.duty as usize][self.duty_step as usize];
        if step == 0 {
            0
        } else {
            self.envelope.output()
        }
    }

    /// The timer does not depend on how its clocks are cut into batches.
    pub proof fn lemma_timer_split(self, a: nat, b: nat)
        ensures
            self.timer_run(a + b) == self.timer_run(a).timer_run(b),
        decreases b,
    {
        if b > 0 {
            self.lemma_timer_split(a, (b - 1) as nat);
            assert((a + b - 1) as nat == a + (b - 1) as nat);
        }
    }

    /// With the negate flag set and no shift the sweep unit never mutes a
    /// period of 8 or more.
    pub proof fn lemma_negated_unshifted_sweep_never_mutes(self)
        requires
            self.wf(),
            self.sweep_negate,
            self.sweep_shift == 0,
            self.timer_period >= 8,
        ensures
            !self.muted(),
    {
    }

    /// Without negate and shift the target is twice the period, so the bottom
    /// octave is muted.
    pub proof fn lemma_bottom_octave_is_muted(self)
        requires
            self.wf(),
            !self.sweep_negate,
            self.sweep_shift == 0,
            self.timer_period >= 0x400,
        ensures
            self.muted(),
    {
        let p = self.timer_period;
        assert(p >> 0u8 == p) by (bit_vector);
    }

    /// Whether the fields are within their ranges.
    pub fn is_well_formed(&self) -> (r: bool)
        ensures
            r == self.wf(),
    {
        self.duty <= 3 && self.duty_step <= 7 && self.timer_period <= 0x7FF && self.sweep_shift <= 7
            && self.envelope.is_well_formed()
    }
}

} // verus!
