//! What the APU channels play: how often a tone repeats, what its waveform is,
//! and how registers set it.
use vstd::prelude::*;
use crate::envelope::Envelope;
use crate::length::LengthCounter;
use crate::noise::NoiseChannel;
use crate::pulse::PulseChannel;
use crate::triangle::TriangleChannel;

verus! {

/// A whole number of periods and a part of one.
pub open spec fn clocks(periods: nat, period: nat, rest: nat) -> nat {
    periods * period + rest
}

pub proof fn lemma_clocks(periods: nat, period: nat, rest: nat)
    ensures
        clocks(0, period, rest) == rest,
        clocks(periods, period, rest) == clocks(periods, period, 0) + rest,
        clocks(periods + 1, period, 0) == clocks(periods, period, 0) + period,
{
    assert(0 * period == 0) by (nonlinear_arith);
    assert((periods + 1) * period == periods * period + period) by (nonlinear_arith);
}

impl PulseChannel {
    /// A pulse channel of period `t` moves on by one of its eight steps every
    /// `t + 1` clocks of its timer, so a tone repeats after `8 * (t + 1)`
    /// clocks, which is the frequency `CPU / (16 * (t + 1))`.
    pub proof fn lemma_tone(self, steps: nat, rest: nat)
        requires
            self.timer == self.timer_period,
            self.duty_step <= 7,
            rest <= self.timer_period,
        ensures
            self.timer_run(clocks(steps, (self.timer_period + 1) as nat, rest)) == (PulseChannel {
                timer: (self.timer_period - rest) as u16,
                duty_step: ((self.duty_step + steps) % 8) as u8,
                ..self
            }),
        decreases steps, rest,
    {
        let period = (self.timer_period + 1) as nat;
        if rest > 0 {
            self.lemma_tone(steps, (rest - 1) as nat);
            lemma_clocks(steps, period, rest);
            lemma_clocks(steps, period, (rest - 1) as nat);
            assert(clocks(steps, period, rest) - 1 == clocks(steps, period, (rest - 1) as nat));
        } else if steps > 0 {
            let before = (steps - 1) as nat;
            self.lemma_tone(before, self.timer_period as nat);
            lemma_clocks(before, period, self.timer_period as nat);
            assert(clocks(steps, period, 0) - 1 == clocks(before, period, self.timer_period as nat));
        } else {
            lemma_clocks(0, period, 0);
        }
    }

    /// A tone is as it was after `8 * (t + 1)` clocks, and not before.
    pub proof fn lemma_tone_repeats(self, n: nat)
        requires
            self.timer == self.timer_period,
            self.duty_step <= 7,
        ensures
            self.timer_run((8 * (self.timer_period + 1)) as nat) == self,
            0 < n < 8 * (self.timer_period + 1) ==> self.timer_run(n) != self,
            self.timer_period + 1 <= n < 8 * (self.timer_period + 1) ==> self.timer_run(
                n,
            ).duty_step != self.duty_step,
    {
        let period = (self.timer_period + 1) as nat;
        self.lemma_tone(8, 0);
        assert(clocks(8, period, 0) == 8 * period);
        if 0 < n < 8 * period {
            let steps = n / period;
            let rest = n % period;
            vstd::arithmetic::div_mod::lemma_fundamental_div_mod(n as int, period as int);
            assert(period * steps == steps * period) by (nonlinear_arith);
            assert(steps < 8) by (nonlinear_arith)
                requires
                    n == period * steps + rest,
                    n < 8 * period,
            ;
            assert(steps >= 1 || n == rest) by (nonlinear_arith)
                requires
                    n == period * steps + rest,
            ;
            self.lemma_tone(steps, rest);
        }
    }

    /// The four waveforms are high for one step of eight, for two, for four,
    /// and for all but those two; a high step has the level of the envelope,
    /// and a low one is silent. The first low step comes before the high ones.
    pub proof fn lemma_waveforms(self)
        requires
            self.wf(),
            self.enabled,
            self.length.counter > 0,
            !self.muted(),
        ensures
            self.duty == 0 ==> self.level() == (if self.duty_step == 1 {
                self.envelope.level()
            } else {
                0
            }),
            self.duty == 1 ==> self.level() == (if 1 <= self.duty_step <= 2 {
                self.envelope.level()
            } else {
                0
            }),
            self.duty == 2 ==> self.level() == (if 1 <= self.duty_step <= 4 {
                self.envelope.level()
            } else {
                0
            }),
            self.duty == 3 ==> self.level() == (if 1 <= self.duty_step <= 2 {
                0
            } else {
                self.envelope.level()
            }),
    {
    }

    /// A channel that is switched off, has no length left or is muted is
    /// silent.
    pub proof fn lemma_silence(self)
        requires
            self.wf(),
        ensures
            !self.enabled || self.length.counter == 0 || self.timer_period < 8 ==> self.level()
                == 0,
    {
    }
}

/// Half frames that a length register write grants, by its top five bits: an
/// odd number is two less than itself or so, and 254 for one; the even ones are
/// note lengths, which double from 10 and from 12 four times over.
#[verifier::spinoff_prover]
pub proof fn lemma_lengths(value: u8)
    ensures
        ({
            let i = value as int / 8;
            let n = crate::length::length_of(value) as int;
            &&& i % 2 == 1 && i > 1 ==> n == i - 1
            &&& i == 1 ==> n == 254
            &&& i == 0 ==> n == 10
            &&& i == 2 ==> n == 20
            &&& i == 4 ==> n == 40
            &&& i == 6 ==> n == 80
            &&& i == 8 ==> n == 160
            &&& i == 10 ==> n == 60
            &&& i == 12 ==> n == 14
            &&& i == 14 ==> n == 26
            &&& i == 16 ==> n == 12
            &&& i == 18 ==> n == 24
            &&& i == 20 ==> n == 48
            &&& i == 22 ==> n == 96
            &&& i == 24 ==> n == 192
            &&& i == 26 ==> n == 72
            &&& i == 28 ==> n == 16
            &&& i == 30 ==> n == 32
        }),
{
    crate::bits::lemma_byte_bits(value);
}

impl LengthCounter {
    /// The counter after `n` half frames.
    pub open spec fn after(self, n: nat) -> Self
        decreases n,
    {
        if n == 0 { self } else { self.after((n - 1) as nat).clocked() }
    }

    /// A counter that is not halted counts down to zero and stays there; one
    /// that is halted stays where it is. A channel sounds while it is not zero.
    pub proof fn lemma_counts_down(self, n: nat)
        ensures
            self.after(n).halt == self.halt,
            self.after(n).counter == (if self.halt {
                self.counter as int
            } else if n < self.counter {
                self.counter - n
            } else {
                0
            }),
            self.after(n).running() <==> self.after(n).counter != 0,
        decreases n,
    {
        if n > 0 {
            self.lemma_counts_down((n - 1) as nat);
        }
    }
}

impl Envelope {
    /// The envelope after `n` quarter frames.
    pub open spec fn after(self, n: nat) -> Self
        decreases n,
    {
        if n == 0 { self } else { self.after((n - 1) as nat).clocked() }
    }

    /// A started envelope goes to level 15 at the next quarter frame, and then
    /// one down every `volume + 1` quarter frames; at zero it stays, or starts
    /// over if it loops.
    pub proof fn lemma_decay(self, drops: nat, rest: nat)
        requires
            self.start,
            rest <= self.volume,
        ensures
            self.after(1 + clocks(drops, (self.volume + 1) as nat, rest)) == (Envelope {
                start: false,
                decay: (if drops <= 15 {
                    15 - drops
                } else if self.loop_flag {
                    15 - drops % 16
                } else {
                    0
                }) as u8,
                divider: (self.volume - rest) as u8,
                ..self
            }),
        decreases drops, rest,
    {
        let period = (self.volume + 1) as nat;
        if rest > 0 {
            self.lemma_decay(drops, (rest - 1) as nat);
            lemma_clocks(drops, period, rest);
            lemma_clocks(drops, period, (rest - 1) as nat);
            assert(clocks(drops, period, rest) - 1 == clocks(drops, period, (rest - 1) as nat));
        } else if drops > 0 {
            let before = (drops - 1) as nat;
            self.lemma_decay(before, self.volume as nat);
            lemma_clocks(before, period, self.volume as nat);
            assert(clocks(drops, period, 0) - 1 == clocks(before, period, self.volume as nat));
            assert(1 + clocks(drops, period, 0) - 1 == 1 + clocks(
                before,
                period,
                self.volume as nat,
            ));
        } else {
            lemma_clocks(0, period, 0);
            reveal_with_fuel(Envelope::after, 2);
        }
    }

    /// The level is the volume while that is constant, else the decay level.
    pub proof fn lemma_level(self, value: u8)
        ensures
            ({
                let e = self.with_control(value);
                &&& e == (Envelope {
                    loop_flag: value / 32 % 2 == 1,
                    constant: value / 16 % 2 == 1,
                    volume: value % 16,
                    ..self
                })
                &&& value / 16 % 2 == 1 ==> e.level() == value % 16
                &&& value / 16 % 2 == 0 ==> e.level() == self.decay
            }),
    {
        crate::bits::lemma_byte_bits(value);
    }
}

proof fn lemma_halvings(p: u16)
    by (bit_vector)
    ensures
        p >> 0u8 == p,
        p >> 1u8 == p / 2u16,
        p >> 2u8 == p / 4u16,
        p >> 3u8 == p / 8u16,
        p >> 4u8 == p / 16u16,
        p >> 5u8 == p / 32u16,
        p >> 6u8 == p / 64u16,
        p >> 7u8 == p / 128u16,
{
}

/// Two to the power of a sweep shift.
pub open spec fn power(shift: u8) -> int {
    match shift {
        0 => 1int,
        1 => 2,
        2 => 4,
        3 => 8,
        4 => 16,
        5 => 32,
        6 => 64,
        _ => 128,
    }
}

impl PulseChannel {
    /// The sweep unit moves the period by its own fraction: up when it adds;
    /// down when it negates, by one more on the first channel. A period below 8
    /// or a target above `$7FF` silences the channel.
    #[verifier::spinoff_prover]
    pub proof fn lemma_sweep_target(self)
        requires
            self.wf(),
        ensures
            ({
                let p = self.timer_period as int;
                let part = p / power(self.sweep_shift);
                let down = p - part - (if self.is_pulse_two { 0int } else { 1 });
                &&& !self.sweep_negate ==> self.target() == p + part
                &&& self.sweep_negate && down >= 0 ==> self.target() == down
                &&& self.sweep_negate && down < 0 ==> self.target() == 0
                &&& (self.muted() <==> p < 8 || self.target() > 0x7FF)
            }),
    {
        lemma_halvings(self.timer_period);
    }

    /// The sweep unit after `n` half frames.
    pub open spec fn swept(self, n: nat) -> Self
        decreases n,
    {
        if n == 0 { self } else { self.swept((n - 1) as nat).sweep_clocked() }
    }

    /// Between two sweeps the period stays: the divider counts down from its
    /// period. When it has run out, a unit that is on, with a shift, and not
    /// muting takes the period to its target.
    pub proof fn lemma_sweep_rate(self)
        requires
            self.wf(),
        ensures
            self.sweep_divider > 0 && !self.sweep_reload ==> self.sweep_clocked() == (PulseChannel {
                sweep_divider: (self.sweep_divider - 1) as u8,
                ..self
            }),
            self.sweep_divider == 0 ==> self.sweep_clocked() == (PulseChannel {
                timer_period: if self.sweep_enabled && self.sweep_shift > 0 && self.timer_period
                    >= 8 && self.target() <= 0x7FF {
                    self.target() as u16
                } else {
                    self.timer_period
                },
                sweep_divider: self.sweep_period,
                sweep_reload: false,
                ..self
            }),
            self.sweep_divider > 0 && self.sweep_reload ==> self.sweep_clocked() == (PulseChannel {
                sweep_divider: self.sweep_period,
                sweep_reload: false,
                ..self
            }),
    {
    }
}

impl TriangleChannel {
    /// A running triangle of period `t` moves on by one of its 32 steps every
    /// `t + 1` CPU cycles, which is the frequency `CPU / (32 * (t + 1))`.
    pub proof fn lemma_tone(self, steps: nat, rest: nat)
        requires
            self.timer == self.timer_period,
            self.timer_period >= 2,
            self.seq_step <= 31,
            self.length.counter > 0,
            self.linear_counter > 0,
            rest <= self.timer_period,
        ensures
            self.timer_run(clocks(steps, (self.timer_period + 1) as nat, rest))
                == (TriangleChannel {
                timer: (self.timer_period - rest) as u16,
                seq_step: ((self.seq_step + steps) % 32) as u8,
                ..self
            }),
        decreases steps, rest,
    {
        let period = (self.timer_period + 1) as nat;
        if rest > 0 {
            self.lemma_tone(steps, (rest - 1) as nat);
            lemma_clocks(steps, period, rest);
            lemma_clocks(steps, period, (rest - 1) as nat);
            assert(clocks(steps, period, rest) - 1 == clocks(steps, period, (rest - 1) as nat));
        } else if steps > 0 {
            let before = (steps - 1) as nat;
            self.lemma_tone(before, self.timer_period as nat);
            lemma_clocks(before, period, self.timer_period as nat);
            assert(clocks(steps, period, 0) - 1 == clocks(before, period, self.timer_period as nat));
        } else {
            lemma_clocks(0, period, 0);
        }
    }

    /// The waveform falls from 15 to 0 over 16 steps and rises again over the
    /// other 16; a stopped channel holds its level, and one that runs with a
    /// period below 2 is at the middle.
    #[verifier::spinoff_prover]
    pub proof fn lemma_waveform(self)
        requires
            self.wf(),
        ensures
            ({
                let ultrasonic = self.timer_period < 2 && self.length.counter > 0
                    && self.linear_counter > 0;
                &&& ultrasonic ==> self.level_halfsteps() == 15
                &&& !ultrasonic && self.seq_step < 16 ==> self.level_halfsteps() == 2 * (15
                    - self.seq_step)
                &&& !ultrasonic && self.seq_step >= 16 ==> self.level_halfsteps() == 2 * (
                self.seq_step - 16)
            }),
    {
    }

    /// The linear counter is loaded while the reload flag is set, and else
    /// counts down to zero; the control flag keeps the reload flag set.
    pub proof fn lemma_linear_counter(self)
        ensures
            self.linear_reload ==> self.linear_clocked() == (TriangleChannel {
                linear_counter: self.linear_reload_value,
                linear_reload: self.control_flag,
                ..self
            }),
            !self.linear_reload && self.linear_counter > 0 ==> self.linear_clocked()
                == (TriangleChannel { linear_counter: (self.linear_counter - 1) as u8, ..self }),
            !self.linear_reload && self.linear_counter == 0 ==> self.linear_clocked() == self,
    {
    }
}

proof fn lemma_noise_shift(s: u16, mode: bool)
    by (bit_vector)
    requires
        s < 0x8000,
    ensures
        !mode && s % 2 == (s / 2u16) % 2 ==> crate::noise::shifted(s, mode) == s / 2u16,
        !mode && s % 2 != (s / 2u16) % 2 ==> crate::noise::shifted(s, mode) == (s / 2u16
            + 0x4000u16) as u16,
        mode && s % 2 == (s / 64u16) % 2 ==> crate::noise::shifted(s, mode) == s / 2u16,
        mode && s % 2 != (s / 64u16) % 2 ==> crate::noise::shifted(s, mode) == (s / 2u16
            + 0x4000u16) as u16,
        (s & 1 == 0) == (s % 2 == 0),
{
}

impl NoiseChannel {
    /// The noise register shifts once per period; the new top bit of its 15 is
    /// the exclusive or of the lowest bit with the next one, or with bit 6 in
    /// the short mode.
    #[verifier::spinoff_prover]
    pub proof fn lemma_noise(self, rest: nat)
        requires
            self.timer == 0,
            self.timer_period >= 1,
            self.shift < 0x8000,
            1 <= rest <= self.timer_period,
        ensures
            ({
                let tap = if self.mode { self.shift / 64 % 2 } else { self.shift / 2 % 2 };
                let s = self.timer_run(rest);
                &&& s == (NoiseChannel { timer: s.timer, shift: s.shift, ..self })
                &&& s.timer == self.timer_period - rest
                &&& s.shift == self.shift / 2 + (if self.shift % 2 != tap { 0x4000int } else { 0 })
            }),
        decreases rest,
    {
        lemma_noise_shift(self.shift, self.mode);
        if rest > 1 {
            self.lemma_noise((rest - 1) as nat);
        } else {
            reveal_with_fuel(NoiseChannel::timer_run, 2);
        }
    }

    /// The channel has the level of its envelope while the lowest bit of the
    /// register is clear, it is on and has length left; else it is silent.
    pub proof fn lemma_noise_level(self)
        ensures
            self.enabled && self.length.counter > 0 && self.shift % 2 == 0 ==> self.level()
                == self.envelope.level(),
            !self.enabled || self.length.counter == 0 || self.shift % 2 == 1 ==> self.level() == 0,
    {
        let s = self.shift;
        assert((s & 1 == 0) == (s % 2 == 0)) by (bit_vector);
    }

    /// CPU cycles per shift that the low four bits of the period register
    /// select; its top bit selects the short mode.
    #[verifier::spinoff_prover]
    pub proof fn lemma_noise_periods(self, value: u8)
        ensures
            ({
                let s = self.with_period(value);
                let ntsc = seq![
                    4int, 8, 16, 32, 64, 96, 128, 160, 202, 254, 380, 508, 762, 1016, 2034, 4068,
                ];
                let pal = seq![
                    4int, 8, 14, 30, 60, 88, 118, 148, 188, 236, 354, 472, 708, 944, 1890, 3778,
                ];
                &&& s == (NoiseChannel {
                    mode: value >= 128,
                    period_index: value % 16,
                    timer_period: s.timer_period,
                    ..self
                })
                &&& s.timer_period == (if self.pal { pal } else { ntsc })[value as int % 16]
            }),
    {
        crate::bits::lemma_byte_bits(value);
        let v = value % 16;
        crate::bits::lemma_byte_bits(v);
    }
}

} // verus!
