//! Konami VRC6: two pulse channels and a sawtooth.
//!
//! Registers live at `$9000..=$B002`, three per channel, plus the frequency
//! control register `$9003`.
use vstd::prelude::*;

verus! {

/// One VRC6 pulse channel.
#[derive(Clone, Copy, Debug, PartialEq, Eq, Default)]
pub struct Vrc6Pulse {
    pub enabled: bool,
    pub mode_digital: bool,
    pub duty: u8,
    pub volume: u8,
    pub timer_period: u16,
    pub timer: u16,
    /// Position of the 16-step duty generator, which counts down from 15
    /// to 0 and starts again at 15.
    pub step: u8,
}

/// The VRC6 sawtooth channel.
#[derive(Clone, Copy, Debug, PartialEq, Eq, Default)]
pub struct Vrc6Saw {
    pub enabled: bool,
    pub rate: u8,
    pub timer_period: u16,
    pub timer: u16,
    pub accum: u8,
    /// Position in the 14-step accumulator cycle.
    pub step: u8,
}

/// The whole chip.
#[derive(Debug, PartialEq, Eq, Default)]
pub struct Vrc6 {
    pub enabled: bool,
    pub pulse: [Vrc6Pulse; 2],
    pub saw: Vrc6Saw,
    /// `$9003` bits 2-1: bit 1 of the field selects 256x, bit 0 selects 16x.
    pub freq_shift: u8,
    pub halt: bool,
}

/// A 12-bit period with its low byte replaced.
pub open spec fn period_with_low(period: u16, value: u8) -> u16 {
    (period & 0x0F00) | value as u16
}

/// A 12-bit period with its high nibble replaced by the low nibble of
/// `value`.
pub open spec fn period_with_high(period: u16, value: u8) -> u16 {
    (period & 0x00FF) | (((value & 0x0F) as u16) << 8)
}

impl Vrc6Pulse {
    /// A silent channel with its duty generator at the top of the countdown.
    pub open spec fn power_on() -> Self {
        Vrc6Pulse {
            enabled: false,
            mode_digital: false,
            duty: 0,
            volume: 0,
            timer_period: 0,
            timer: 0,
            step: 15,
        }
    }

    pub open spec fn wf(self) -> bool {
        &&& self.duty <= 7
        &&& self.volume <= 15
        &&& self.step <= 15
    }

    /// Effect of the enable bit: a falling edge puts the duty generator
    /// back to its beginning and reloads the divider.
    pub open spec fn with_enabled(self, on: bool) -> Self {
        if !on && self.enabled {
            Vrc6Pulse { step: 15, timer: self.timer_period, enabled: false, ..self }
        } else {
            Vrc6Pulse { enabled: on, ..self }
        }
    }

    /// Effect of the first register of the channel (`MDDD VVVV`).
    pub open spec fn with_control(self, value: u8) -> Self {
        Vrc6Pulse {
            volume: value & 0x0F,
            duty: (value >> 4) & 0x07,
            mode_digital: value & 0x80 != 0,
            ..self
        }
    }

    /// Effect of the third register of the channel (`E... FFFF`).
    pub open spec fn with_high(self, value: u8) -> Self {
        (Vrc6Pulse {
            timer_period: period_with_high(self.timer_period, value),
            ..self
        }).with_enabled(value & 0x80 != 0)
    }

    /// One CPU cycle: an enabled channel counts its divider down; at zero
    /// the divider is reloaded and the duty generator steps.
    pub open spec fn cycle(self, shift: u8) -> Self {
        if !self.enabled {
            self
        } else if self.timer == 0 {
            Vrc6Pulse {
                timer: self.timer_period >> shift,
                step: (if self.step == 0 { 15u8 } else { (self.step - 1) as u8 }),
                ..self
            }
        } else {
            Vrc6Pulse { timer: (self.timer - 1) as u16, ..self }
        }
    }

    /// Level that the channel puts out.
    pub open spec fn level(self) -> u8 {
        if self.enabled && self.timer_period >= 1 && (self.mode_digital || self.step <= self.duty) {
            self.volume
        } else {
            0
        }
    }

    fn new() -> (r: Self)
        ensures
            r == Self::power_on(),
            r.wf(),
    {
        Vrc6Pulse {
            enabled: false,
            mode_digital: false,
            duty: 0,
            volume: 0,
            timer_period: 0,
            timer: 0,
            step: 15,
        }
    }

    pub fn set_enabled(&mut self, now_enabled: bool)
        ensures
            *final(self) == old(self).with_enabled(now_enabled),
    {
        if !now_enabled && self.enabled {
            self.step = 15;
            self.timer = self.timer_period;
        }
        self.enabled = now_enabled;
    }

    fn write_control(&mut self, value: u8)
        ensures
            *final(self) == old(self).with_control(value),
            old(self).wf() ==> final(self).wf(),
    {
        proof {
            crate::bits::lemma_byte_fields(value);
        }
        self.volume = value & 0x0F;
        self.duty = (value >> 4) & 0x07;
        self.mode_digital = value & 0x80 != 0;
    }

    fn write_high(&mut self, value: u8)
        ensures
            *final(self) == old(self).with_high(value),
            old(self).wf() ==> final(self).wf(),
    {
        self.timer_period = (self.timer_period & 0x00FF) | (((value & 0x0F) as u16) << 8);
        self.set_enabled(value & 0x80 != 0);
    }

    fn tick_one(&mut self, shift: u8)
        requires
            old(self).wf(),
            shift <= 8,
        ensures
            *final(self) == old(self).cycle(shift),
            final(self).wf(),
    {
        if !self.enabled {
            return ;
        }
        if self.timer == 0 {
            self.timer = self.timer_period >> shift;
            self.step = if self.step == 0 { 15 } else { self.step - 1 };
        } else {
            self.timer = self.timer - 1;
        }
    }

    /// Level of the channel in the 6-bit mix.
    pub fn output(&self) -> (level: u8)
        ensures
            level == self.level(),
    {
        if !self.enabled || self.timer_period < 1 {
            return 0;
        }
        if self.mode_digital || self.step <= self.duty {
            self.volume
        } else {
            0
        }
    }

    /// Whether the fields are within their ranges.
    pub fn is_well_formed(&self) -> (r: bool)
        ensures
            r == self.wf(),
    {
        self.duty <= 7 && self.volume <= 15 && self.step <= 15
    }
}

impl Vrc6Saw {
    pub open spec fn power_on() -> Self {
        Vrc6Saw { enabled: false, rate: 0, timer_period: 0, timer: 0, accum: 0, step: 0 }
    }

    pub open spec fn wf(self) -> bool {
        &&& self.rate <= 63
        &&& self.step < 14
    }

    /// Effect of `$B002`: a falling edge of the enable bit clears the
    /// accumulator and the step counter, and leaves the divider alone.
    pub open spec fn with_high(self, value: u8) -> Self {
        let on = value & 0x80 != 0;
        let period = period_with_high(self.timer_period, value);
        if !on && self.enabled {
            Vrc6Saw { timer_period: period, accum: 0, step: 0, enabled: on, ..self }
        } else {
            Vrc6Saw { timer_period: period, enabled: on, ..self }
        }
    }

    /// One clock of the 14-step cycle: the rate is added on every even
    /// step but the first, where the accumulator starts again at zero.
    pub open spec fn clocked(self) -> Self {
        let step = ((self.step + 1) % 14) as u8;
        let accum = if step == 0 {
            0u8
        } else if step % 2 == 0 {
            self.accum.wrapping_add(self.rate)
        } else {
            self.accum
        };
        Vrc6Saw { step, accum, ..self }
    }

    /// One CPU cycle of the channel.
    pub open spec fn cycle(self, shift: u8) -> Self {
        if !self.enabled {
            self
        } else if self.timer == 0 {
            (Vrc6Saw { timer: self.timer_period >> shift, ..self }).clocked()
        } else {
            Vrc6Saw { timer: (self.timer - 1) as u16, ..self }
        }
    }

    /// The top five accumulator bits of an enabled channel.
    pub open spec fn level(self) -> u8 {
        if self.enabled { self.accum >> 3 } else { 0 }
    }

    fn write_high(&mut self, value: u8)
        ensures
            *final(self) == old(self).with_high(value),
            old(self).wf() ==> final(self).wf(),
    {
        self.timer_period = (self.timer_period & 0x00FF) | (((value & 0x0F) as u16) << 8);
        let now_enabled = value & 0x80 != 0;
        if !now_enabled && self.enabled {
            self.accum = 0;
            self.step = 0;
        }
        self.enabled = now_enabled;
    }

    fn tick_one(&mut self, shift: u8)
        requires
            old(self).wf(),
            shift <= 8,
        ensures
            *final(self) == old(self).cycle(shift),
            final(self).wf(),
    {
        if !self.enabled {
            return ;
        }
        if self.timer == 0 {
            self.timer = self.timer_period >> shift;
            self.step = (self.step + 1) % 14;
            if self.step == 0 {
                self.accum = 0;
            } else if self.step % 2 == 0 {
                self.accum = self.accum.wrapping_add(self.rate);
            }
        } else {
            self.timer = self.timer - 1;
        }
    }

    /// Whether the fields are within their ranges.
    pub fn is_well_formed(&self) -> (r: bool)
        ensures
            r == self.wf(),
    {
        self.rate <= 63 && self.step < 14
    }
}

impl Vrc6 {
    /// State after power-on: silent, both duty generators at 15.
    pub open spec fn power_on(self) -> bool {
        &&& !self.enabled
        &&& self.pulse@ == seq![Vrc6Pulse::power_on(), Vrc6Pulse::power_on()]
        &&& self.saw == Vrc6Saw::power_on()
        &&& self.freq_shift == 0
        &&& !self.halt
    }

    pub open spec fn wf(self) -> bool {
        &&& self.pulse[0].wf()
        &&& self.pulse[1].wf()
        &&& self.saw.wf()
    }

    pub open spec fn with_pulse(self, i: int, p: Vrc6Pulse) -> Self {
        Vrc6 { pulse: crate::bits::put(self.pulse, i, p), ..self }
    }

    /// State after the CPU writes `value` at `addr`.
    pub open spec fn written(self, addr: u16, value: u8) -> Self {
        match addr {
            0x9000 => self.with_pulse(0, self.pulse[0].with_control(value)),
            0x9001 => self.with_pulse(
                0,
                Vrc6Pulse {
                    timer_period: period_with_low(self.pulse[0].timer_period, value),
                    ..self.pulse[0]
                },
            ),
            0x9002 => self.with_pulse(0, self.pulse[0].with_high(value)),
            0x9003 => Vrc6 { halt: value & 0x01 != 0, freq_shift: (value >> 1) & 0x03, ..self },
            0xA000 => self.with_pulse(1, self.pulse[1].with_control(value)),
            0xA001 => self.with_pulse(
                1,
                Vrc6Pulse {
                    timer_period: period_with_low(self.pulse[1].timer_period, value),
                    ..self.pulse[1]
                },
            ),
            0xA002 => self.with_pulse(1, self.pulse[1].with_high(value)),
            0xB000 => Vrc6 { saw: Vrc6Saw { rate: value & 0x3F, ..self.saw }, ..self },
            0xB001 => Vrc6 {
                saw: Vrc6Saw {
                    timer_period: period_with_low(self.saw.timer_period, value),
                    ..self.saw
                },
                ..self
            },
            0xB002 => Vrc6 { saw: self.saw.with_high(value), ..self },
            _ => self,
        }
    }

    /// Right shift of the period registers: 8 bits under the 256x flag,
    /// else 4 bits under the 16x flag.
    pub open spec fn shift_amount(self) -> u8 {
        if self.freq_shift & 0b10 != 0 {
            8
        } else if self.freq_shift & 0b01 != 0 {
            4
        } else {
            0
        }
    }

    /// One CPU cycle: every oscillator advances unless the chip is halted.
    pub open spec fn cycle(self) -> Self {
        if self.halt {
            self
        } else {
            let shift = self.shift_amount();
            Vrc6 {
                pulse: crate::bits::put(
                    crate::bits::put(self.pulse, 0, self.pulse[0].cycle(shift)),
                    1,
                    self.pulse[1].cycle(shift),
                ),
                saw: self.saw.cycle(shift),
                ..self
            }
        }
    }

    /// State after `n` CPU cycles.
    pub open spec fn ticked(self, n: nat) -> Self
        decreases n,
    {
        if n == 0 {
            self
        } else {
            self.ticked((n - 1) as nat).cycle()
        }
    }

    pub fn new() -> (r: Self)
        ensures
            r.power_on(),
            r.wf(),
    {
        Vrc6 {
            enabled: false,
            pulse: [Vrc6Pulse::new(), Vrc6Pulse::new()],
            saw: Vrc6Saw { enabled: false, rate: 0, timer_period: 0, timer: 0, accum: 0, step: 0 },
            freq_shift: 0,
            halt: false,
        }
    }

    pub fn write(&mut self, addr: u16, value: u8)
        ensures
            *final(self) == old(self).written(addr, value),
            old(self).wf() ==> final(self).wf(),
    {
        proof {
            crate::bits::lemma_byte_fields(value);
        }
        match addr {
            0x9000 => {
                self.pulse[0].write_control(value);
            },
            0x9001 => {
                self.pulse[0].timer_period = (self.pulse[0].timer_period & 0x0F00) | value as u16;
            },
            0x9002 => {
                self.pulse[0].write_high(value);
            },
            0x9003 => {
                self.halt = value & 0x01 != 0;
                self.freq_shift = (value >> 1) & 0x03;
            },
            0xA000 => {
                self.pulse[1].write_control(value);
            },
            0xA001 => {
                self.pulse[1].timer_period = (self.pulse[1].timer_period & 0x0F00) | value as u16;
            },
            0xA002 => {
                self.pulse[1].write_high(value);
            },
            0xB000 => {
                self.saw.rate = value & 0x3F;
            },
            0xB001 => {
                self.saw.timer_period = (self.saw.timer_period & 0x0F00) | value as u16;
            },
            0xB002 => {
                self.saw.write_high(value);
            },
            _ => {},
        }
    }

    pub fn period_shift(&self) -> (shift: u8)
        ensures
            shift == self.shift_amount(),
            shift <= 8,
    {
        if self.freq_shift & 0b10 != 0 {
            8
        } else if self.freq_shift & 0b01 != 0 {
            4
        } else {
            0
        }
    }

    /// Advance the chip by `cycles` CPU cycles.
    pub fn tick(&mut self, cycles: u32)
        requires
            old(self).wf(),
        ensures
            *final(self) == old(self).ticked(cycles as nat),
            final(self).wf(),
    {
        if self.halt {
            proof {
                self.lemma_halted_chip_stands_still(cycles as nat);
            }
            return ;
        }
        let shift: u8 = self.period_shift();
        for i in 0..cycles
            invariant
                *self == old(self).ticked(i as nat),
                self.wf(),
                !self.halt,
                shift == self.shift_amount(),
                shift <= 8,
        {
            self.pulse[0].tick_one(shift);
            self.pulse[1].tick_one(shift);
            self.saw.tick_one(shift);
        }
    }

    /// Sum of the two pulse levels and the top five accumulator bits of the
    /// sawtooth: the 6-bit value that feeds the DAC.
    pub fn output(&self) -> (level: u32)
        requires
            self.wf(),
        ensures
            level == self.pulse[0].level() + self.pulse[1].level() + self.saw.level(),
            level <= 61,
    {
        proof {
            crate::bits::lemma_byte_fields(self.saw.accum);
        }
        let mut o: u32 = self.pulse[0].output() as u32 + self.pulse[1].output() as u32;
        if self.saw.enabled {
            o = o + (self.saw.accum >> 3) as u32;
        }
        o
    }

    /// The halt flag overrides everything: a halted chip does not move.
    pub proof fn lemma_halted_chip_stands_still(self, n: nat)
        requires
            self.halt,
        ensures
            self.ticked(n) == self,
        decreases n,
    {
        if n > 0 {
            self.lemma_halted_chip_stands_still((n - 1) as nat);
        }
    }

    /// The state after a stretch of time does not depend on how the time is
    /// cut into batches.
    pub proof fn lemma_ticks_split(self, a: nat, b: nat)
        ensures
            self.ticked(a + b) == self.ticked(a).ticked(b),
        decreases b,
    {
        if b > 0 {
            self.lemma_ticks_split(a, (b - 1) as nat);
            assert((a + b - 1) as nat == a + (b - 1) as nat);
        }
    }

    /// Whether the fields are within their ranges.
    pub fn is_well_formed(&self) -> (r: bool)
        ensures
            r == self.wf(),
    {
        self.pulse[0].is_well_formed() && self.pulse[1].is_well_formed()
            && self.saw.is_well_formed()
    }
}

} // verus!
