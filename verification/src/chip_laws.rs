//! What the VRC6, the MMC5 and the N163 play.
use vstd::prelude::*;
use crate::mmc5::{Mmc5, Mmc5Pulse};
use crate::tone_laws::{clocks, lemma_clocks};
use crate::vrc6::{Vrc6, Vrc6Pulse, Vrc6Saw};

verus! {

proof fn lemma_period_shifts(p: u16)
    by (bit_vector)
    ensures
        p >> 0u8 == p,
        p >> 4u8 == p / 16u16,
        p >> 8u8 == p / 256u16,
{
}

/// Period of a VRC6 channel under the frequency control register: a sixteenth
/// with its bit 1 set, a 256th with its bit 2 set, whatever bit 1 says.
pub open spec fn scaled_period(period: u16, control: u8) -> int {
    if control / 4 % 2 == 1 {
        period as int / 256
    } else if control / 2 % 2 == 1 {
        period as int / 16
    } else {
        period as int
    }
}

impl Vrc6Pulse {
    /// The channel after `n` CPU cycles.
    pub open spec fn after(self, shift: u8, n: nat) -> Self
        decreases n,
    {
        if n == 0 { self } else { self.after(shift, (n - 1) as nat).cycle(shift) }
    }

    /// A VRC6 pulse of period `t` moves on by one of its 16 steps every `t + 1`
    /// CPU cycles, which is the frequency `CPU / (16 * (t + 1))`. The steps
    /// count down.
    pub proof fn lemma_tone(self, steps: nat, rest: nat)
        requires
            self.enabled,
            self.timer == self.timer_period,
            self.step <= 15,
            rest <= self.timer_period,
        ensures
            self.after(0, clocks(steps, (self.timer_period + 1) as nat, rest)) == (Vrc6Pulse {
                timer: (self.timer_period - rest) as u16,
                step: ((self.step - steps) % 16) as u8,
                ..self
            }),
        decreases steps, rest,
    {
        let period = (self.timer_period + 1) as nat;
        lemma_period_shifts(self.timer_period);
        if rest > 0 {
            self.lemma_tone(steps, (rest - 1) as nat);
            lemma_clocks(steps, period, rest);
            lemma_clocks(steps, period, (rest - 1) as nat);
            assert(clocks(steps, period, rest) - 1 == clocks(steps, period, (rest - 1) as nat));
        } else if steps > 0 {
            let before = (steps - 1) as nat;
            self.lemma_tone(before, self.timer_period as nat);
            lemma_clocks(before, period, self.timer_period as nat);
            assert(clocks(steps, period, 0) - 1 == clocks(before, period, self.timer_period as nat));
        } else {
            lemma_clocks(0, period, 0);
        }
    }

    /// A channel that is on has its volume for `duty + 1` of the 16 steps, the
    /// last ones, and is silent for the others; in digital mode it has its
    /// volume all the time. A channel that is off stands still and is silent.
    pub proof fn lemma_waveform(self, shift: u8)
        ensures
            self.enabled && self.timer_period >= 1 && !self.mode_digital ==> self.level() == (
            if self.step <= self.duty { self.volume } else { 0 }),
            self.enabled && self.timer_period >= 1 && self.mode_digital ==> self.level()
                == self.volume,
            !self.enabled ==> self.level() == 0 && self.cycle(shift) == self,
    {
    }
}

impl Vrc6Saw {
    /// The saw after `n` clocks.
    pub open spec fn clocked_times(self, n: nat) -> Self
        decreases n,
    {
        if n == 0 { self } else { self.clocked_times((n - 1) as nat).clocked() }
    }

    #[verifier::spinoff_prover]
    proof fn lemma_saw_clock(self, product: int)
        requires
            self.step < 13,
            self.accum == product % 0x100,
            product >= 0,
        ensures
            self.clocked().step == self.step + 1,
            self.step % 2 == 0 ==> self.clocked().accum == self.accum,
            self.step % 2 == 1 ==> self.clocked().accum == (product + self.rate) % 0x100,
            self.clocked().rate == self.rate,
    {
    }

    proof fn lemma_saw_at(self, n: nat)
        requires
            self.step == 0,
            self.accum == 0,
            n < 14,
        ensures
            self.clocked_times(n).step == n,
            self.clocked_times(n).accum == (n as int / 2 * self.rate) % 0x100,
            self.clocked_times(n).rate == self.rate,
        decreases n,
    {
        if n > 0 {
            self.lemma_saw_at((n - 1) as nat);
            let k = (n - 1) as int / 2;
            assert(k * self.rate >= 0) by (nonlinear_arith)
                requires
                    k >= 0,
            ;
            self.clocked_times((n - 1) as nat).lemma_saw_clock(k * self.rate);
            if n % 2 == 0 {
                assert(n as int / 2 == k + 1);
                assert((k + 1) * self.rate == k * self.rate + self.rate) by (nonlinear_arith);
            } else {
                assert(n as int / 2 == k);
            }
        } else {
            assert(0 * self.rate == 0);
        }
    }

    /// The saw rises by its rate at every second of 14 clocks, six times over,
    /// and then falls back to zero; what is heard is an eighth of it.
    pub proof fn lemma_saw(self, n: nat)
        requires
            self.step == 0,
            self.accum == 0,
            n < 14,
        ensures
            self.clocked_times(n).accum == (n as int / 2 * self.rate) % 0x100,
            self.enabled ==> self.clocked_times(n).level() == (n as int / 2 * self.rate) % 0x100
                / 8,
            self.clocked_times(14) == self,
    {
        self.lemma_saw_at(n);
        self.lemma_saw_keeps(n);
        crate::bits::lemma_byte_bits(self.clocked_times(n).accum);
        self.lemma_last_clocks();
    }

    proof fn lemma_saw_keeps(self, n: nat)
        ensures
            self.clocked_times(n) == (Vrc6Saw {
                step: self.clocked_times(n).step,
                accum: self.clocked_times(n).accum,
                ..self
            }),
            self.clocked_times(n).step == (self.step + n) % 14 || self.step >= 14,
        decreases n,
    {
        if n > 0 {
            self.lemma_saw_keeps((n - 1) as nat);
        }
    }

    proof fn lemma_last_clocks(self)
        requires
            self.step == 0,
            self.accum == 0,
        ensures
            self.clocked_times(14) == self,
    {
        self.lemma_saw_keeps(13);
        self.lemma_saw_keeps(14);
    }

    /// The saw is clocked every `period + 1` CPU cycles while it is on.
    pub proof fn lemma_saw_rate(self)
        ensures
            !self.enabled ==> self.cycle(0) == self && self.level() == 0,
            self.enabled && self.timer > 0 ==> self.cycle(0) == (Vrc6Saw {
                timer: (self.timer - 1) as u16,
                ..self
            }),
            self.enabled && self.timer == 0 ==> self.cycle(0) == (Vrc6Saw {
                timer: self.timer_period,
                ..self
            }).clocked(),
    {
        lemma_period_shifts(self.timer_period);
    }
}

impl Vrc6 {
    /// The three registers of the pulses at `$9000` and `$A000`: digital mode,
    /// duty and volume; then the period, low byte first, and in the top bit of
    /// the last one the switch. Switching a channel off starts it over.
    #[verifier::spinoff_prover]
    pub proof fn lemma_pulse_registers(self, control: u8, lo: u8, hi: u8)
        ensures
            ({
                let a = self.written(0x9000, control).written(0x9001, lo).written(0x9002, hi);
                let b = self.written(0xA000, control).written(0xA001, lo).written(0xA002, hi);
                let period = (lo + 0x100 * (hi % 16)) as u16;
                let p0 = self.pulse[0];
                let p1 = self.pulse[1];
                let on = hi >= 128;
                &&& a.pulse[0] == (Vrc6Pulse {
                    mode_digital: control >= 128,
                    duty: control / 16 % 8,
                    volume: control % 16,
                    timer_period: period,
                    enabled: on,
                    step: if p0.enabled && !on { 15 } else { p0.step },
                    timer: if p0.enabled && !on { period } else { p0.timer },
                })
                &&& a.pulse[1] == p1 && a.saw == self.saw
                &&& b.pulse[1] == (Vrc6Pulse {
                    mode_digital: control >= 128,
                    duty: control / 16 % 8,
                    volume: control % 16,
                    timer_period: period,
                    enabled: on,
                    step: if p1.enabled && !on { 15 } else { p1.step },
                    timer: if p1.enabled && !on { period } else { p1.timer },
                })
                &&& b.pulse[0] == p0 && b.saw == self.saw
            }),
    {
        crate::bits::lemma_byte_bits(control);
        crate::bits::lemma_byte_bits(hi);
        crate::bits::lemma_word_bits(self.pulse[0].timer_period, lo, hi);
        crate::bits::lemma_word_bits(self.pulse[1].timer_period, lo, hi);
    }

    /// The registers of the saw at `$B000`: the rate, then the period, low byte
    /// first, and the switch. Switching the saw off puts it back to zero.
    #[verifier::spinoff_prover]
    pub proof fn lemma_saw_registers(self, rate: u8, lo: u8, hi: u8)
        ensures
            ({
                let s = self.written(0xB000, rate).written(0xB001, lo).written(0xB002, hi);
                let off = self.saw.enabled && hi < 128;
                &&& s.saw == (Vrc6Saw {
                    enabled: hi >= 128,
                    rate: rate % 64,
                    timer_period: (lo + 0x100 * (hi % 16)) as u16,
                    timer: self.saw.timer,
                    accum: if off { 0 } else { self.saw.accum },
                    step: if off { 0 } else { self.saw.step },
                })
                &&& s.pulse == self.pulse
            }),
    {
        crate::bits::lemma_byte_bits(rate);
        crate::bits::lemma_byte_bits(hi);
        crate::bits::lemma_word_bits(self.saw.timer_period, lo, hi);
    }

    /// The frequency control at `$9003` scales the periods; its lowest bit
    /// halts the chip.
    #[verifier::spinoff_prover]
    pub proof fn lemma_frequency_control(self, value: u8, period: u16)
        ensures
            ({
                let c = self.written(0x9003, value);
                &&& c.halt == (value % 2 == 1)
                &&& period >> c.shift_amount() == scaled_period(period, value)
                &&& c.pulse == self.pulse && c.saw == self.saw
                &&& value % 2 == 1 ==> c.cycle() == c
            }),
    {
        crate::bits::lemma_byte_bits(value);
        let field = (value >> 1) & 0x03;
        crate::bits::lemma_byte_bits(field);
        assert(field == value / 2 % 4);
        assert(field % 2 == value / 2 % 2);
        assert(field / 2 % 2 == value / 4 % 2);
        lemma_period_shifts(period);
    }
}

impl Mmc5Pulse {
    /// An MMC5 pulse of period `t` moves on by one of its eight steps every
    /// `t + 1` clocks of its timer.
    pub proof fn lemma_tone(self, steps: nat, rest: nat)
        requires
            self.timer == self.timer_period,
            self.step <= 7,
            rest <= self.timer_period,
        ensures
            self.timer_run(clocks(steps, (self.timer_period + 1) as nat, rest)) == (Mmc5Pulse {
                timer: (self.timer_period - rest) as u16,
                step: ((self.step + steps) % 8) as u8,
                ..self
            }),
        decreases steps, rest,
    {
        let period = (self.timer_period + 1) as nat;
        if rest > 0 {
            self.lemma_tone(steps, (rest - 1) as nat);
            lemma_clocks(steps, period, rest);
            lemma_clocks(steps, period, (rest - 1) as nat);
            assert(clocks(steps, period, rest) - 1 == clocks(steps, period, (rest - 1) as nat));
        } else if steps > 0 {
            let before = (steps - 1) as nat;
            self.lemma_tone(before, self.timer_period as nat);
            lemma_clocks(before, period, self.timer_period as nat);
            assert(clocks(steps, period, 0) - 1 == clocks(before, period, self.timer_period as nat));
        } else {
            lemma_clocks(0, period, 0);
        }
    }

    /// The four waveforms: one high step of eight, two, four, and all but two.
    /// The level is the constant volume or that of the envelope.
    #[verifier::spinoff_prover]
    pub proof fn lemma_waveforms(self)
        requires
            self.wf(),
            self.enabled,
            self.length > 0,
        ensures
            ({
                let loud = if self.constant { self.volume } else { self.env_decay };
                let s = self.step;
                &&& self.duty == 0 ==> self.level() == (if s == 1 { loud } else { 0 })
                &&& self.duty == 1 ==> self.level() == (if 1 <= s <= 2 { loud } else { 0 })
                &&& self.duty == 2 ==> self.level() == (if 1 <= s <= 4 { loud } else { 0 })
                &&& self.duty == 3 ==> self.level() == (if 1 <= s <= 2 { 0 } else { loud })
            }),
    {
    }

    /// A channel that is off or has no length left is silent.
    pub proof fn lemma_silence(self)
        ensures
            !self.enabled || self.length == 0 ==> self.level() == 0,
    {
    }

    /// The envelope after `n` clocks.
    pub open spec fn decayed(self, n: nat) -> Self
        decreases n,
    {
        if n == 0 { self } else { self.decayed((n - 1) as nat).envelope_clocked() }
    }

    /// A started envelope goes to 15 at the next clock, and then one down every
    /// `volume + 1` clocks; at zero it stays, or starts over if it loops.
    pub proof fn lemma_decay(self, drops: nat, rest: nat)
        requires
            self.env_start,
            rest <= self.volume,
        ensures
            self.decayed(1 + clocks(drops, (self.volume + 1) as nat, rest)) == (Mmc5Pulse {
                env_start: false,
                env_decay: (if drops <= 15 {
                    15 - drops
                } else if self.halt {
                    15 - drops % 16
                } else {
                    0
                }) as u8,
                env_divider: (self.volume - rest) as u8,
                ..self
            }),
        decreases drops, rest,
    {
        let period = (self.volume + 1) as nat;
        if rest > 0 {
            self.lemma_decay(drops, (rest - 1) as nat);
            lemma_clocks(drops, period, rest);
            lemma_clocks(drops, period, (rest - 1) as nat);
            assert(clocks(drops, period, rest) - 1 == clocks(drops, period, (rest - 1) as nat));
        } else if drops > 0 {
            let before = (drops - 1) as nat;
            self.lemma_decay(before, self.volume as nat);
            lemma_clocks(before, period, self.volume as nat);
            assert(clocks(drops, period, 0) - 1 == clocks(before, period, self.volume as nat));
            assert(1 + clocks(drops, period, 0) - 1 == 1 + clocks(
                before,
                period,
                self.volume as nat,
            ));
        } else {
            lemma_clocks(0, period, 0);
            reveal_with_fuel(Mmc5Pulse::decayed, 2);
        }
    }

    /// The length counter goes down to zero unless it is halted.
    pub proof fn lemma_length(self)
        ensures
            self.length_clocked() == (Mmc5Pulse {
                length: (if self.halt || self.length == 0 {
                    self.length as int
                } else {
                    self.length - 1
                }) as u8,
                ..self
            }),
    {
    }
}

impl Mmc5 {
    /// The registers of the pulses at `$5000` and `$5004`, as those of the APU
    /// without a sweep.
    #[verifier::spinoff_prover]
    pub proof fn lemma_pulse_registers(self, control: u8, lo: u8, hi: u8, i: int)
        requires
            i == 0 || i == 1,
        ensures
            ({
                let at = 0x5000 + 4 * i;
                let s = self.written(at as u16, control).written((at + 2) as u16, lo).written(
                    (at + 3) as u16,
                    hi,
                );
                let p = self.pulse[i];
                &&& s.pulse[i] == (Mmc5Pulse {
                    duty: control / 64,
                    halt: control / 32 % 2 == 1,
                    constant: control / 16 % 2 == 1,
                    volume: control % 16,
                    timer_period: (lo + 0x100 * (hi % 8)) as u16,
                    length: if p.enabled { crate::length::length_of(hi) } else { p.length },
                    step: 0,
                    env_start: true,
                    ..p
                })
                &&& s.pulse[1 - i] == self.pulse[1 - i]
                &&& s.pcm == self.pcm
            }),
    {
        crate::bits::lemma_byte_bits(control);
        crate::bits::lemma_word_bits(self.pulse[i].timer_period, lo, hi);
    }

    /// `$5015` switches the two pulses by its low bits, and reads back which of
    /// them have length left. A pulse that is off loses its length.
    #[verifier::spinoff_prover]
    pub proof fn lemma_status(self, value: u8)
        ensures
            ({
                let s = self.written(0x5015, value);
                let on0 = value % 2 == 1;
                let on1 = value / 2 % 2 == 1;
                &&& s.pulse[0] == (Mmc5Pulse {
                    enabled: on0,
                    length: if on0 { self.pulse[0].length } else { 0 },
                    ..self.pulse[0]
                })
                &&& s.pulse[1] == (Mmc5Pulse {
                    enabled: on1,
                    length: if on1 { self.pulse[1].length } else { 0 },
                    ..self.pulse[1]
                })
                &&& self.read_value(0x5015) % 2 == (if self.pulse[0].length > 0 { 1int } else { 0 })
                &&& self.read_value(0x5015) / 2 == (if self.pulse[1].length > 0 { 1int } else { 0 })
            }),
    {
        crate::bits::lemma_byte_bits(value);
        assert(0u8 | 0u8 == 0 && 1u8 | 0u8 == 1 && 0u8 | 2u8 == 2 && 1u8 | 2u8 == 3) by (bit_vector);
    }

    /// The PCM level: in write mode a byte written to `$5011`, in read mode one
    /// that is read from the program, becomes the level. Zero leaves the level
    /// and raises the interrupt, any other byte takes it back; a read of
    /// `$5010` acknowledges it.
    #[verifier::spinoff_prover]
    pub proof fn lemma_pcm(self, value: u8)
        ensures
            ({
                let w = self.written(0x5011, value);
                let r = self.observed(value);
                &&& self.pcm_read_mode ==> w == self
                &&& !self.pcm_read_mode ==> w.pcm == (if value == 0 { self.pcm } else { value })
                    && w.irq_trip == (value == 0)
                &&& !self.pcm_read_mode || !self.enabled ==> r == self
                &&& self.pcm_read_mode && self.enabled ==> r.pcm == (if value == 0 {
                    self.pcm
                } else {
                    value
                }) && r.irq_trip == (value == 0)
                &&& self.written(0x5010, value).irq_enable == (value >= 128)
                &&& self.written(0x5010, value).pcm_read_mode == (value % 2 == 1)
                &&& (self.irq_asserted() <==> self.irq_trip && self.irq_enable)
                &&& !self.after_read(0x5010).irq_trip
                &&& self.after_read(0x5010).pcm == self.pcm
            }),
    {
        crate::bits::lemma_byte_bits(value);
    }

    /// Every 7457 CPU cycles the envelopes and length counters are clocked
    /// once; the timers at every second cycle.
    #[verifier::spinoff_prover]
    pub proof fn lemma_clocks_of_chip(self, i: int)
        requires
            self.wf(),
            i == 0 || i == 1,
        ensures
            ({
                let s = self.cycle();
                let t = if self.pulse_prescaler_carry == 1 {
                    self.pulse[i].timer_clocked()
                } else {
                    self.pulse[i]
                };
                &&& s.pulse_prescaler_carry == 1 - self.pulse_prescaler_carry
                &&& self.frame_acc < 7456 ==> s.pulse[i] == t && s.frame_acc == self.frame_acc + 1
                &&& self.frame_acc == 7456 ==> s.pulse[i] == t.envelope_clocked().length_clocked()
                    && s.frame_acc == 0
            }),
    {
    }
}

} // verus!
