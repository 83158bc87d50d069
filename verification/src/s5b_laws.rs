//! What the Sunsoft 5B plays.
use vstd::prelude::*;
use crate::s5b::{S5bChan, S5bEnvelope, S5bNoise, Sunsoft5b, LIN_AY_VOL, S5B_ENV_LIN};
use crate::tone_laws::{clocks, lemma_clocks};

verus! {

proof fn lemma_mixer_bits(r7: u8)
    by (bit_vector)
    ensures
        ((r7 >> 0) & 1 == 1) == (r7 & 0x01 != 0),
        ((r7 >> 1) & 1 == 1) == (r7 & 0x02 != 0),
        ((r7 >> 2) & 1 == 1) == (r7 & 0x04 != 0),
        ((r7 >> 3) & 1 == 1) == (r7 & 0x08 != 0),
        ((r7 >> 4) & 1 == 1) == (r7 & 0x10 != 0),
        ((r7 >> 5) & 1 == 1) == (r7 & 0x20 != 0),
{
}

proof fn lemma_level_flips(level: u8)
    by (bit_vector)
    requires
        level <= 1,
    ensures
        level ^ 1 == (1 - level) as u8,
{
}

/// Whether the mixer register lets the tone of channel `i` through: its bit is
/// clear.
pub open spec fn tone_on(r7: u8, i: int) -> bool {
    if i == 0 {
        r7 & 0x01 == 0
    } else if i == 1 {
        r7 & 0x02 == 0
    } else {
        r7 & 0x04 == 0
    }
}

/// Whether the mixer register lets the noise into channel `i`: its bit is
/// clear.
pub open spec fn noise_on(r7: u8, i: int) -> bool {
    if i == 0 {
        r7 & 0x08 == 0
    } else if i == 1 {
        r7 & 0x10 == 0
    } else {
        r7 & 0x20 == 0
    }
}

/// The amplitudes: zero is silence, each volume is louder than the one below,
/// and from the fourth on two volumes more double it, within 30. The envelope
/// has two steps to each volume, and its odd steps are the volumes.
#[verifier::spinoff_prover]
pub proof fn lemma_amplitudes(v: int)
    requires
        0 <= v <= 15,
    ensures
        LIN_AY_VOL[0] == 0 && LIN_AY_VOL[1] == 110 && LIN_AY_VOL[4] == 460 && LIN_AY_VOL[15]
            == 21140,
        v < 15 ==> LIN_AY_VOL[v] < LIN_AY_VOL[v + 1],
        4 <= v <= 13 ==> -30 <= LIN_AY_VOL[v + 2] - 2 * LIN_AY_VOL[v] <= 30,
        v >= 1 ==> S5B_ENV_LIN[2 * v + 1] == LIN_AY_VOL[v],
        v >= 1 ==> S5B_ENV_LIN[2 * v - 1] < S5B_ENV_LIN[2 * v] < S5B_ENV_LIN[2 * v + 1],
        S5B_ENV_LIN[0] == 0 && S5B_ENV_LIN[1] == 0,
{
}

impl Sunsoft5b {
    /// Level of channel `i` while it is high: the amplitude of its four-bit
    /// volume, or that of the envelope if bit 4 of the volume register is set.
    pub open spec fn loudness(self, i: int) -> u16 {
        let v = self.regs[8 + i];
        if v / 16 % 2 == 1 {
            S5B_ENV_LIN[self.envelope.step as int]
        } else {
            LIN_AY_VOL[(v % 16) as int]
        }
    }

    /// The mixer. With only the tone on, a channel is silent while its square
    /// is low, and as loud as its volume while it is high. With only the noise
    /// on, the low bit of the noise decides likewise. With both on both must be
    /// high, and with neither on the channel is a constant level.
    #[verifier::spinoff_prover]
    pub proof fn lemma_mixer(self, i: int)
        requires
            0 <= i <= 2,
        ensures
            ({
                let r7 = self.regs[7];
                let square = self.channels[i].level != 0;
                let noise = self.noise.lfsr % 2 == 1;
                let a = self.amplitude(i);
                &&& tone_on(r7, i) && !noise_on(r7, i) ==> a == (if square {
                    self.loudness(i)
                } else {
                    0
                })
                &&& !tone_on(r7, i) && noise_on(r7, i) ==> a == (if noise {
                    self.loudness(i)
                } else {
                    0
                })
                &&& tone_on(r7, i) && noise_on(r7, i) ==> a == (if square && noise {
                    self.loudness(i)
                } else {
                    0
                })
                &&& !tone_on(r7, i) && !noise_on(r7, i) ==> a == self.loudness(i)
            }),
    {
        lemma_mixer_bits(self.regs[7]);
        crate::bits::lemma_byte_bits(self.regs[8 + i]);
        lemma_low_bit(self.noise.lfsr);
    }
}

impl S5bChan {
    /// The channel after `n` intervals of 16 clocks.
    pub open spec fn after(self, n: nat) -> Self
        decreases n,
    {
        if n == 0 { self } else { self.after((n - 1) as nat).interval() }
    }

    /// The square flips once per period.
    pub proof fn lemma_square(self, flips: nat, rest: nat)
        requires
            self.timer == 0,
            self.level <= 1,
            rest < self.timer_period,
        ensures
            self.after(clocks(flips, self.timer_period as nat, rest)) == (S5bChan {
                timer: rest as u16,
                level: ((self.level + flips) % 2) as u8,
                ..self
            }),
        decreases flips, rest,
    {
        let period = self.timer_period as nat;
        lemma_level_flips(0);
        lemma_level_flips(1);
        if rest > 0 {
            self.lemma_square(flips, (rest - 1) as nat);
            lemma_clocks(flips, period, rest);
            lemma_clocks(flips, period, (rest - 1) as nat);
            assert(clocks(flips, period, rest) - 1 == clocks(flips, period, (rest - 1) as nat));
        } else if flips > 0 {
            let before = (flips - 1) as nat;
            self.lemma_square(before, (period - 1) as nat);
            lemma_clocks(before, period, (period - 1) as nat);
            assert(clocks(flips, period, 0) - 1 == clocks(before, period, (period - 1) as nat));
        } else {
            lemma_clocks(0, period, 0);
        }
    }
}

impl Sunsoft5b {
    /// Time passes for each tone channel on its own, in intervals of 16 CPU
    /// cycles; registers stay as they were written.
    #[verifier::spinoff_prover]
    pub proof fn lemma_tones_run(self, n: nat, i: int)
        requires
            0 <= i <= 2,
            self.clock_rem < 16,
        ensures
            self.ticked(n).channels[i] == self.channels[i].after((self.clock_rem + n) as nat / 16),
            self.ticked(n).clock_rem == (self.clock_rem + n) % 16,
            self.ticked(n).regs == self.regs,
        decreases n,
    {
        if n > 0 {
            self.lemma_tones_run((n - 1) as nat, i);
            let before = (self.clock_rem + n - 1) as nat;
            let total = (self.clock_rem + n) as nat;
            if before % 16 == 15 {
                assert(total / 16 == before / 16 + 1);
            } else {
                assert(total / 16 == before / 16);
            }
        }
    }

    /// A plain square tone: with only the tone of channel `i` on, the channel
    /// is silent and as loud as its volume by turns of `16 * period` CPU cycles.
    #[verifier::spinoff_prover]
    pub proof fn lemma_plain_tone(self, i: int, flips: nat, rest: nat)
        requires
            0 <= i <= 2,
            self.clock_rem == 0,
            self.channels[i].timer == 0,
            self.channels[i].level == 0,
            rest < 16 * self.channels[i].timer_period,
            tone_on(self.regs[7], i),
            !noise_on(self.regs[7], i),
            self.regs[8 + i] < 16,
        ensures
            self.ticked(clocks(flips, (16 * self.channels[i].timer_period) as nat, rest)).amplitude(
                i,
            ) == (if flips % 2 == 1 { LIN_AY_VOL[self.regs[8 + i] as int] } else { 0 }),
    {
        let period = self.channels[i].timer_period as nat;
        let n = clocks(flips, 16 * period, rest);
        assert(flips * (16 * period) == 16 * (flips * period)) by (nonlinear_arith);
        assert(n / 16 == clocks(flips, period, rest / 16));
        self.lemma_tones_run(n, i);
        self.channels[i].lemma_square(flips, rest / 16);
        self.ticked(n).lemma_mixer(i);
    }
}

impl Sunsoft5b {
    /// A register is written through the two ports: its number to `$C000`,
    /// its value to `$E000`. A number past 15 keeps the value out.
    #[verifier::spinoff_prover]
    pub proof fn lemma_ports(self, reg: u8, value: u8)
        ensures
            ({
                let s = self.written(0xC000, reg).written(0xE000, value);
                &&& reg < 16 ==> s.regs@ == self.regs@.update(reg as int, value)
                &&& reg >= 16 ==> s == self.written(0xC000, reg)
                &&& self.written(0xC000, reg).regs == self.regs
            }),
    {
        crate::bits::lemma_byte_bits(reg);
        crate::bits::lemma_byte_bits(reg % 16);
        assert(reg < 16 ==> self.written(0xC000, reg).written(0xE000, value).regs@
            =~= self.regs@.update(reg as int, value));
    }

    /// Registers 0 and 1 hold the period of channel A, low byte first, with
    /// four bits in the high byte; 2 and 3 that of B, 4 and 5 that of C. The
    /// square goes on where it was.
    #[verifier::spinoff_prover]
    pub proof fn lemma_tone_registers(self, i: int, lo: u8, hi: u8)
        requires
            0 <= i <= 2,
        ensures
            ({
                let s = self.written(0xC000, (2 * i) as u8).written(0xE000, lo).written(
                    0xC000,
                    (2 * i + 1) as u8,
                ).written(0xE000, hi);
                &&& s.channels[i] == (S5bChan {
                    timer_period: (lo + 0x100 * (hi % 16)) as u16,
                    ..self.channels[i]
                })
                &&& forall|j: int|
                    0 <= j <= 2 && j != i ==> #[trigger] s.channels[j] == self.channels[j]
                &&& s.noise == self.noise && s.envelope == self.envelope
            }),
    {
        let k = (2 * i) as u8;
        let k1 = (2 * i + 1) as u8;
        crate::bits::lemma_byte_bits(k);
        crate::bits::lemma_byte_bits(k1);
        crate::bits::lemma_byte_bits(hi);
        crate::bits::lemma_word_bits(0, lo, hi);
    }

    /// Register 6 holds the noise period in five bits, 11 and 12 the envelope
    /// period, low byte first, and 13 starts the envelope over in one of 16
    /// shapes.
    #[verifier::spinoff_prover]
    pub proof fn lemma_other_registers(self, lo: u8, hi: u8)
        ensures
            ({
                let noise = self.written(0xC000, 6).written(0xE000, lo);
                let period = self.written(0xC000, 11).written(0xE000, lo).written(
                    0xC000,
                    12,
                ).written(0xE000, hi);
                let shape = self.written(0xC000, 13).written(0xE000, lo);
                &&& noise.noise == (S5bNoise { period: lo % 32, ..self.noise })
                &&& period.envelope == (S5bEnvelope {
                    period: (lo + 0x100 * hi) as u16,
                    ..self.envelope
                })
                &&& shape.envelope.shape == lo % 16
                &&& shape.envelope.timer == 0 && !shape.envelope.holding
                &&& shape.envelope.step == (if lo / 4 % 2 == 1 { 0u8 } else { 31u8 })
                &&& shape.envelope.period == self.envelope.period
                &&& noise.channels == self.channels && period.channels == self.channels
                    && shape.channels == self.channels
            }),
    {
        crate::bits::lemma_byte_bits(lo);
        crate::bits::lemma_byte_bits(6);
        crate::bits::lemma_byte_bits(11);
        crate::bits::lemma_byte_bits(12);
        crate::bits::lemma_byte_bits(13);
        crate::bits::lemma_word_bits(0, lo, hi);
        crate::bits::lemma_byte_bits(lo % 16);
    }
}

proof fn lemma_low_bit(lfsr: u32)
    by (bit_vector)
    ensures
        (lfsr & 1 != 0) == (lfsr % 2 == 1),
{
}

proof fn lemma_noise_shift(lfsr: u32)
    by (bit_vector)
    requires
        lfsr < 0x2_0000,
    ensures
        lfsr % 2 == (lfsr / 8u32) % 2 ==> crate::s5b::lfsr_next(lfsr) == lfsr / 2u32,
        lfsr % 2 != (lfsr / 8u32) % 2 ==> crate::s5b::lfsr_next(lfsr) == (lfsr / 2u32
            + 0x1_0000u32) as u32,
{
}

impl S5bNoise {
    /// The noise after `n` intervals of 16 clocks.
    pub open spec fn after(self, n: nat) -> Self
        decreases n,
    {
        if n == 0 { self } else { self.after((n - 1) as nat).interval() }
    }

    /// The noise moves on once per twice its period, in intervals: that is
    /// every `32 * period` CPU cycles. The new top bit of its 17 is the
    /// exclusive or of the lowest and the fourth lowest.
    #[verifier::spinoff_prover]
    pub proof fn lemma_noise_steps(self, rest: nat)
        requires
            self.timer == 0,
            self.period >= 1,
            rest < 2 * self.period,
            self.lfsr < 0x2_0000,
        ensures
            self.after(rest) == (S5bNoise { timer: rest as u16, ..self }),
            self.after((2 * self.period) as nat).timer == 0,
            self.after((2 * self.period) as nat).lfsr == self.lfsr / 2 + 0x1_0000 * ((self.lfsr % 2
                + self.lfsr / 8 % 2) % 2),
        decreases rest,
    {
        let lfsr = self.lfsr;
        lemma_noise_shift(lfsr);
        if rest > 0 {
            self.lemma_noise_steps((rest - 1) as nat);
        }
        self.lemma_noise_waits((2 * self.period - 1) as nat);
    }

    proof fn lemma_noise_waits(self, rest: nat)
        requires
            self.timer == 0,
            rest < 2 * self.period,
        ensures
            self.after(rest) == (S5bNoise { timer: rest as u16, ..self }),
        decreases rest,
    {
        if rest > 0 {
            self.lemma_noise_waits((rest - 1) as nat);
        }
    }
}

impl S5bEnvelope {
    /// The envelope after `n` steps.
    pub open spec fn steps(self, n: nat) -> Self
        decreases n,
    {
        if n == 0 { self } else { self.steps((n - 1) as nat).advanced() }
    }

    /// A shape just started goes through the 32 steps of its ramp, upwards if
    /// its bit 2 is set, else downwards.
    #[verifier::spinoff_prover]
    pub proof fn lemma_first_ramp(self, shape: u8, n: nat)
        requires
            n <= 31,
        ensures
            ({
                let s = self.restarted(shape);
                s.steps(n) == (S5bEnvelope {
                    step: (if shape / 4 % 2 == 1 { n as int } else { 31 - n }) as u8,
                    ..s
                })
            }),
        decreases n,
    {
        crate::bits::lemma_byte_bits(shape);
        if n > 0 {
            self.lemma_first_ramp(shape, (n - 1) as nat);
        }
    }

    /// After the ramp: shapes below 8 go silent for good; with bit 0 set a
    /// shape stays at the end that it reached, or jumps to the other one if bit
    /// 1 is set; without bit 0 it starts over, or turns round if bit 1 is set.
    #[verifier::spinoff_prover]
    pub proof fn lemma_end_of_ramp(self, shape: u8)
        requires
            shape < 16,
        ensures
            ({
                let s = self.restarted(shape);
                let e = s.steps(32);
                let up = shape / 4 % 2 == 1;
                let alternates = shape / 2 % 2 == 1;
                &&& shape < 8 ==> e.holding && e.step == 0
                &&& shape >= 8 && shape % 2 == 1 ==> e.holding && e.step == (if up != alternates {
                    31u8
                } else {
                    0u8
                })
                &&& shape >= 8 && shape % 2 == 0 && !alternates ==> !e.holding && e.step == (if up {
                    0u8
                } else {
                    31u8
                }) && e.rising() == up
                &&& shape >= 8 && shape % 2 == 0 && alternates ==> !e.holding && e.step == (if up {
                    30u8
                } else {
                    1u8
                }) && e.rising() == !up
            }),
    {
        self.lemma_first_ramp(shape, 31);
        crate::bits::lemma_byte_bits(shape);
        reveal_with_fuel(S5bEnvelope::steps, 2);
    }

    /// The first ramp counts as done once its end is passed, and not before.
    #[verifier::spinoff_prover]
    pub proof fn lemma_ramp_is_done(self, shape: u8)
        requires
            shape < 16,
        ensures
            !self.restarted(shape).attacked,
            self.restarted(shape).steps(32).attacked,
    {
        self.lemma_first_ramp(shape, 31);
        crate::bits::lemma_byte_bits(shape);
        reveal_with_fuel(S5bEnvelope::steps, 2);
    }

    /// The envelope takes one step per period, in intervals of 16 CPU cycles,
    /// until it holds.
    #[verifier::spinoff_prover]
    pub proof fn lemma_envelope_rate(self)
        ensures
            self.holding ==> self.interval() == self,
            !self.holding && self.timer + 1 < self.period ==> self.interval() == (S5bEnvelope {
                timer: (self.timer + 1) as u16,
                ..self
            }),
            !self.holding && self.timer + 1 == self.period ==> self.interval() == (S5bEnvelope {
                timer: 0,
                ..self
            }).advanced(),
    {
    }
}

} // verus!
