//! Sunsoft 5B: three square channels, a noise generator and an envelope
//! generator behind an address port (`$C000`) and a data port (`$E000`).
use vstd::prelude::*;

verus! {

/// One tone channel.
#[derive(Clone, Copy, Debug, PartialEq, Eq, Default)]
pub struct S5bChan {
    pub timer_period: u16,
    /// Counts 16-clock intervals up to the period.
    pub timer: u16,
    pub level: u8,
}

/// The noise generator that all three channels share.
#[derive(Clone, Copy, Debug, PartialEq, Eq)]
pub struct S5bNoise {
    pub period: u8,
    /// Counts 16-clock intervals; noise moves on every second one.
    pub timer: u16,
    /// 17-bit shift register; bit 0 is the output.
    pub lfsr: u32,
}

/// The envelope generator.
#[derive(Clone, Copy, Debug, PartialEq, Eq, Default)]
pub struct S5bEnvelope {
    pub period: u16,
    pub timer: u16,
    /// Ramp position, 0 to 31.
    pub step: u8,
    /// Shape nibble: continue, attack, alternate, hold.
    pub shape: u8,
    /// The first pass over the ramp is complete.
    pub attacked: bool,
    /// The ramp has stopped for good.
    pub holding: bool,
    /// An alternating shape currently runs against its attack direction.
    pub flipped: bool,
}

/// Linear amplitude of the sixteen 4-bit volumes, in ten-thousandths. The DAC
/// is logarithmic: 1.5 dB per step, and silence at zero.
pub const LIN_AY_VOL: [u16; 16] = [
    0, 110, 220, 330, 460, 660, 940, 1330, 1880, 2650, 3750, 5290, 7470, 10570, 14940, 21140,
];

/// Linear amplitude of the 32 envelope steps, in ten-thousandths. Steps 0 and
/// 1 are silent; every odd step from 3 on equals a 4-bit volume.
pub const S5B_ENV_LIN: [u16; 32] = [
    0, 0, 95, 110, 180, 220, 270, 330, 390, 460, 550, 660, 790, 940, 1110, 1330, 1580, 1880, 2240,
    2650, 3160, 3750, 4470, 5290, 6290, 7470, 8890, 10570, 12570, 14940, 17760, 21140,
];

/// The whole chip.
#[derive(Debug, PartialEq, Eq, Default)]
pub struct Sunsoft5b {
    pub enabled: bool,
    pub addr: u8,
    /// The last select byte had a nonzero high nibble.
    pub writes_disabled: bool,
    pub regs: [u8; 16],
    pub channels: [S5bChan; 3],
    pub noise: S5bNoise,
    pub envelope: S5bEnvelope,
    /// CPU cycles towards the next 16-clock interval.
    pub clock_rem: u32,
}

/// A period register of zero acts as one.
pub open spec fn at_least_one(period: u16) -> u16 {
    if period == 0 { 1 } else { period }
}

impl S5bChan {
    /// One 16-clock interval: the level flips when the count reaches the
    /// period.
    pub open spec fn interval(self) -> Self {
        let t = self.timer.saturating_add(1);
        if t >= at_least_one(self.timer_period) {
            S5bChan { timer: 0, level: self.level ^ 1, ..self }
        } else {
            S5bChan { timer: t, ..self }
        }
    }

    fn tick_interval(&mut self)
        ensures
            *final(self) == old(self).interval(),
    {
        let p: u16 = if self.timer_period == 0 { 1 } else { self.timer_period };
        self.timer = self.timer.saturating_add(1);
        if self.timer >= p {
            self.timer = 0;
            self.level = self.level ^ 1;
        }
    }
}

impl Default for S5bNoise {
    /// The shift register starts at one: from zero it would never leave zero.
    fn default() -> (r: Self)
        ensures
            r == (S5bNoise { period: 0, timer: 0, lfsr: 1 }),
    {
        S5bNoise { period: 0, timer: 0, lfsr: 1 }
    }
}

/// One shift of the 17-bit register: bit 0 xor bit 3 enters at bit 16.
pub open spec fn lfsr_next(lfsr: u32) -> u32 {
    ((lfsr >> 1) | (((lfsr ^ (lfsr >> 3)) & 1) << 16)) & 0x0001_FFFF
}

/// The noise never dies out: a nonzero 17-bit register stays nonzero and
/// stays within 17 bits.
pub proof fn lemma_noise_never_dies(lfsr: u32)
    by (bit_vector)
    requires
        0 < lfsr <= 0x0001_FFFF,
    ensures
        0 < lfsr_next(lfsr) <= 0x0001_FFFF,
{
}

impl S5bNoise {
    /// One 16-clock interval: on every second one the count is held against
    /// the period, and at the period the register shifts.
    pub open spec fn interval(self) -> Self {
        let t = self.timer.wrapping_add(1);
        let p = if self.period == 0 { 1u8 } else { self.period };
        if t % 2 == 0 && t / 2 >= p {
            S5bNoise { timer: 0, lfsr: lfsr_next(self.lfsr), ..self }
        } else {
            S5bNoise { timer: t, ..self }
        }
    }

    fn tick_interval(&mut self)
        ensures
            *final(self) == old(self).interval(),
    {
        self.timer = self.timer.wrapping_add(1);
        if self.timer % 2 == 0 {
            let p: u8 = if self.period == 0 { 1 } else { self.period };
            let nticks: u16 = self.timer / 2;
            if nticks >= p as u16 {
                self.timer = 0;
                let lfsr: u32 = self.lfsr;
                let new_bit: u32 = ((lfsr ^ (lfsr >> 3)) & 1) << 16;
                self.lfsr = ((lfsr >> 1) | new_bit) & 0x0001_FFFF;
            }
        }
    }
}

impl S5bEnvelope {
    pub open spec fn wf(self) -> bool {
        &&& self.step <= 31
        &&& self.flipped ==> self.attacked
    }

    /// Whether the ramp is going up.
    pub open spec fn rising(self) -> bool {
        (self.shape & 0b0100 != 0) != self.flipped
    }

    /// The envelope restarted with a new shape: at the foot of the ramp if it
    /// attacks, else at the top.
    pub open spec fn restarted(self, shape: u8) -> Self {
        S5bEnvelope {
            shape,
            timer: 0,
            attacked: false,
            holding: false,
            flipped: false,
            step: if shape & 0b0100 != 0 { 0 } else { 31 },
            ..self
        }
    }

    /// One step along the shape. Inside the ramp the step moves by one. Past
    /// its end a shape without continue falls to zero and stays; one with
    /// hold stays at the end it reached, or at the opposite end if it
    /// alternates; an alternating one turns round; any other starts over.
    pub open spec fn advanced(self) -> Self {
        let rising = self.rising();
        let cont = self.shape & 0b1000 != 0;
        let alt = self.shape & 0b0010 != 0;
        let hold = self.shape & 0b0001 != 0;
        if rising && self.step < 31 {
            S5bEnvelope { step: (self.step + 1) as u8, ..self }
        } else if !rising && self.step > 0 {
            S5bEnvelope { step: (self.step - 1) as u8, ..self }
        } else if !cont {
            S5bEnvelope { step: 0, attacked: true, holding: true, ..self }
        } else if hold {
            S5bEnvelope {
                step: if rising != alt { 31 } else { 0 },
                attacked: true,
                holding: true,
                ..self
            }
        } else if alt {
            S5bEnvelope {
                step: if rising { 30 } else { 1 },
                attacked: true,
                flipped: !self.flipped,
                ..self
            }
        } else {
            S5bEnvelope { step: if rising { 0 } else { 31 }, attacked: true, ..self }
        }
    }

    /// One 16-clock interval.
    pub open spec fn interval(self) -> Self {
        if self.holding {
            self
        } else {
            let t = self.timer.wrapping_add(1);
            if t >= at_least_one(self.period) {
                (S5bEnvelope { timer: 0, ..self }).advanced()
            } else {
                S5bEnvelope { timer: t, ..self }
            }
        }
    }

    fn restart(&mut self, shape: u8)
        ensures
            *final(self) == old(self).restarted(shape),
            final(self).wf(),
    {
        self.shape = shape;
        self.timer = 0;
        self.attacked = false;
        self.holding = false;
        self.flipped = false;
        self.step = if shape & 0b0100 != 0 { 0 } else { 31 };
    }

    fn tick_interval(&mut self)
        requires
            old(self).wf(),
        ensures
            *final(self) == old(self).interval(),
            final(self).wf(),
    {
        if !self.holding {
            let p: u16 = if self.period == 0 { 1 } else { self.period };
            self.timer = self.timer.wrapping_add(1);
            if self.timer >= p {
                self.timer = 0;
                self.advance();
            }
        }
    }

    /// Advance one step inside the active shape.
    pub fn advance(&mut self)
        requires
            old(self).wf(),
        ensures
            *final(self) == old(self).advanced(),
            final(self).wf(),
    {
        let shape: u8 = self.shape;
        let attack = (shape & 0b0100) != 0;
        let cont = (shape & 0b1000) != 0;
        let alt = (shape & 0b0010) != 0;
        let hold = (shape & 0b0001) != 0;
        let rising = attack != self.flipped;
        if rising && self.step < 31 {
            self.step = self.step + 1;
            return ;
        }
        if !rising && self.step > 0 {
            self.step = self.step - 1;
            return ;
        }
        self.attacked = true;
        if rising {
            if !cont {
                self.step = 0;
                self.holding = true;
            } else if hold {
                self.step = if alt { 0 } else { 31 };
                self.holding = true;
            } else if alt {
                self.step = 30;
                self.flipped = !self.flipped;
            } else {
                self.step = 0;
            }
        } else {
            if !cont {
                self.step = 0;
                self.holding = true;
            } else if hold {
                self.step = if alt { 31 } else { 0 };
                self.holding = true;
            } else if alt {
                self.step = 1;
                self.flipped = !self.flipped;
            } else {
                self.step = 31;
            }
        }
    }

    /// Whether the fields are within their ranges.
    pub fn is_well_formed(&self) -> (r: bool)
        ensures
            r == self.wf(),
    {
        self.step <= 31 && (!self.flipped || self.attacked)
    }
}

impl Sunsoft5b {
    /// State after power-on.
    pub open spec fn power_on(self) -> bool {
        &&& !self.enabled
        &&& self.addr == 0
        &&& !self.writes_disabled
        &&& self.regs@ == Seq::new(16, |i: int| 0u8)
        &&& self.channels@ == Seq::new(3, |i: int| S5bChan { timer_period: 0, timer: 0, level: 0 })
        &&& self.noise == (S5bNoise { period: 0, timer: 0, lfsr: 1 })
        &&& self.envelope == (S5bEnvelope {
            period: 0,
            timer: 0,
            step: 0,
            shape: 0,
            attacked: false,
            holding: false,
            flipped: false,
        })
        &&& self.clock_rem == 0
    }

    pub open spec fn wf(self) -> bool {
        &&& self.addr <= 15
        &&& self.envelope.wf()
        &&& self.clock_rem < 16
    }

    /// Tone period held in the register pair of channel `ch`.
    pub open spec fn tone_period(regs: [u8; 16], ch: int) -> u16 {
        (((regs[ch * 2 + 1] & 0x0F) as u16) << 8) | regs[ch * 2] as u16
    }

    pub open spec fn with_tone(self, ch: int) -> Self {
        Sunsoft5b {
            channels: crate::bits::put(
                self.channels,
                ch,
                S5bChan {
                    timer_period: Self::tone_period(self.regs, ch),
                    ..self.channels[ch]
                },
            ),
            ..self
        }
    }

    /// State after `value` reaches the selected internal register.
    pub open spec fn register_written(self, value: u8) -> Self {
        let r = self.addr & 0x0F;
        let s = Sunsoft5b { regs: crate::bits::put(self.regs, r as int, value), ..self };
        if r <= 5 {
            s.with_tone(r as int / 2)
        } else if r == 6 {
            Sunsoft5b { noise: S5bNoise { period: value & 0x1F, ..s.noise }, ..s }
        } else if r == 0x0B || r == 0x0C {
            Sunsoft5b {
                envelope: S5bEnvelope {
                    period: ((s.regs[0x0C] as u16) << 8) | s.regs[0x0B] as u16,
                    ..s.envelope
                },
                ..s
            }
        } else if r == 0x0D {
            Sunsoft5b { envelope: s.envelope.restarted(value & 0x0F), ..s }
        } else {
            s
        }
    }

    /// State after the CPU writes `value` at `addr`.
    pub open spec fn written(self, addr: u16, value: u8) -> Self {
        if addr == 0xC000 {
            Sunsoft5b { addr: value & 0x0F, writes_disabled: value & 0xF0 != 0, ..self }
        } else if addr == 0xE000 && !self.writes_disabled {
            self.register_written(value)
        } else {
            self
        }
    }

    /// One 16-clock interval of every generator.
    pub open spec fn interval(self) -> Self {
        Sunsoft5b {
            channels: crate::bits::put(
                crate::bits::put(
                    crate::bits::put(self.channels, 0, self.channels[0].interval()),
                    1,
                    self.channels[1].interval(),
                ),
                2,
                self.channels[2].interval(),
            ),
            noise: self.noise.interval(),
            envelope: self.envelope.interval(),
            ..self
        }
    }

    /// State after `n` intervals.
    pub open spec fn intervals(self, n: nat) -> Self
        decreases n,
    {
        if n == 0 {
            self
        } else {
            self.intervals((n - 1) as nat).interval()
        }
    }

    /// One CPU cycle: every sixteenth completes an interval.
    pub open spec fn cycle(self) -> Self {
        if self.clock_rem >= 15 {
            (Sunsoft5b { clock_rem: 0, ..self }).interval()
        } else {
            Sunsoft5b { clock_rem: (self.clock_rem + 1) as u32, ..self }
        }
    }

    /// State after `n` CPU cycles.
    pub open spec fn ticked(self, n: nat) -> Self
        decreases n,
    {
        if n == 0 {
            self
        } else {
            self.ticked((n - 1) as nat).cycle()
        }
    }

    /// Whether channel `i` is high: the mixer register picks tone, noise, the
    /// AND of both, or a constant when both are switched off.
    pub open spec fn signal_high(self, i: int) -> bool {
        let tone_off = (self.regs[7] >> i) & 1 == 1;
        let noise_off = (self.regs[7] >> (i + 3)) & 1 == 1;
        (tone_off || self.channels[i].level != 0) && (noise_off || self.noise.lfsr & 1 != 0)
    }

    /// Amplitude of channel `i`: while it is high, that of its volume, or of
    /// the envelope where bit 4 of its volume register says so.
    pub open spec fn amplitude(self, i: int) -> u16 {
        if !self.signal_high(i) {
            0
        } else if self.regs[8 + i] & 0x10 != 0 {
            S5B_ENV_LIN[self.envelope.step as int]
        } else {
            LIN_AY_VOL[(self.regs[8 + i] & 0x0F) as int]
        }
    }

    pub fn new() -> (r: Self)
        ensures
            r.power_on(),
            r.wf(),
    {
        let chan = S5bChan { timer_period: 0, timer: 0, level: 0 };
        let r = Sunsoft5b {
            enabled: false,
            addr: 0,
            writes_disabled: false,
            regs: [0u8; 16],
            channels: [chan, chan, chan],
            noise: S5bNoise { period: 0, timer: 0, lfsr: 1 },
            envelope: S5bEnvelope {
                period: 0,
                timer: 0,
                step: 0,
                shape: 0,
                attacked: false,
                holding: false,
                flipped: false,
            },
            clock_rem: 0,
        };
        assert(r.regs@ =~= Seq::new(16, |i: int| 0u8));
        assert(r.channels@ =~= Seq::new(3, |i: int| chan));
        r
    }

    pub fn write(&mut self, addr: u16, value: u8)
        ensures
            *final(self) == old(self).written(addr, value),
            old(self).wf() ==> final(self).wf(),
    {
        proof {
            crate::bits::lemma_byte_fields(value);
            crate::bits::lemma_byte_fields(self.addr);
        }
        if addr == 0xC000 {
            self.addr = value & 0x0F;
            self.writes_disabled = (value & 0xF0) != 0;
        } else if addr == 0xE000 && !self.writes_disabled {
            let r: usize = (self.addr & 0x0F) as usize;
            self.regs[r] = value;
            if r <= 5 {
                let ch: usize = r / 2;
                let lo: u16 = self.regs[ch * 2] as u16;
                let hi: u16 = (self.regs[ch * 2 + 1] & 0x0F) as u16;
                self.channels[ch].timer_period = (hi << 8) | lo;
            } else if r == 6 {
                self.noise.period = value & 0x1F;
            } else if r == 0x0B {
                let hi: u16 = self.regs[0x0C] as u16;
                self.envelope.period = (hi << 8) | value as u16;
            } else if r == 0x0C {
                let lo: u16 = self.regs[0x0B] as u16;
                self.envelope.period = ((value as u16) << 8) | lo;
            } else if r == 0x0D {
                self.envelope.restart(value & 0x0F);
            }
        }
    }

    /// Advance the chip by `cycles` CPU cycles.
    pub fn tick(&mut self, cycles: u32)
        requires
            old(self).wf(),
        ensures
            *final(self) == old(self).ticked(cycles as nat),
            final(self).wf(),
    {
        let total: u64 = self.clock_rem as u64 + cycles as u64;
        let n: u64 = total / 16;
        self.clock_rem = (total % 16) as u32;
        let ghost start = *self;
        for i in 0..n
            invariant
                *self == start.intervals(i as nat),
                self.wf(),
        {
            self.channels[0].tick_interval();
            self.channels[1].tick_interval();
            self.channels[2].tick_interval();
            self.noise.tick_interval();
            self.envelope.tick_interval();
        }
        proof {
            old(self).lemma_ticked_by_intervals(cycles as nat);
        }
    }

    /// Advance the envelope one step inside the active shape.
    pub fn envelope_advance(&mut self)
        requires
            old(self).wf(),
        ensures
            *final(self) == (Sunsoft5b { envelope: old(self).envelope.advanced(), ..*old(self) }),
            final(self).wf(),
    {
        self.envelope.advance();
    }

    /// Amplitude of channel `i`, in ten-thousandths.
    pub fn channel_output(&self, i: usize) -> (a: u16)
        requires
            self.wf(),
            i < 3,
        ensures
            a == self.amplitude(i as int),
    {
        let r7: u8 = self.regs[7];
        let tone_dis = (r7 >> i) & 1 == 1;
        let noise_dis = (r7 >> (i + 3)) & 1 == 1;
        let tone = tone_dis || self.channels[i].level != 0;
        let noise = noise_dis || self.noise.lfsr & 1 != 0;
        if !(tone && noise) {
            return 0;
        }
        let vol_reg: u8 = self.regs[8 + i];
        proof {
            crate::bits::lemma_byte_fields(vol_reg);
        }
        if (vol_reg & 0x10) != 0 {
            S5B_ENV_LIN[self.envelope.step as usize]
        } else {
            LIN_AY_VOL[(vol_reg & 0x0F) as usize]
        }
    }

    /// Sum of the three channel amplitudes, in ten-thousandths; the analog
    /// output is a third of it.
    pub fn output(&self) -> (sum: u32)
        requires
            self.wf(),
        ensures
            sum == self.amplitude(0) + self.amplitude(1) + self.amplitude(2),
    {
        self.channel_output(0) as u32 + self.channel_output(1) as u32 + self.channel_output(2)
            as u32
    }

    /// Whole intervals are consumed and the remainder is carried, so the
    /// chip clock is exact for every batch.
    proof fn lemma_ticked_by_intervals(self, n: nat)
        requires
            self.clock_rem < 16,
        ensures
            ({
                let total = self.clock_rem as nat + n;
                self.ticked(n) == (Sunsoft5b {
                    clock_rem: (total % 16) as u32,
                    ..self
                }).intervals(total / 16)
            }),
        decreases n,
    {
        if n == 0 {
        } else {
            self.lemma_ticked_by_intervals((n - 1) as nat);
            let total = self.clock_rem as nat + n;
            let before = (total - 1) as nat;
            let s = Sunsoft5b { clock_rem: (before % 16) as u32, ..self };
            let t = Sunsoft5b { clock_rem: (total % 16) as u32, ..self };
            s.lemma_intervals_keep_remainder(t.clock_rem, before / 16);
        }
    }

    proof fn lemma_intervals_keep_remainder(self, rem: u32, n: nat)
        ensures
            self.intervals(n).clock_rem == self.clock_rem,
            (Sunsoft5b { clock_rem: rem, ..self }).intervals(n) == (Sunsoft5b {
                clock_rem: rem,
                ..self.intervals(n)
            }),
        decreases n,
    {
        if n > 0 {
            self.lemma_intervals_keep_remainder(rem, (n - 1) as nat);
        }
    }

    /// The state after a stretch of time does not depend on how the time is
    /// cut into batches.
    pub proof fn lemma_ticks_split(self, a: nat, b: nat)
        ensures
            self.ticked(a + b) == self.ticked(a).ticked(b),
        decreases b,
    {
        if b > 0 {
            self.lemma_ticks_split(a, (b - 1) as nat);
            assert((a + b - 1) as nat == a + (b - 1) as nat);
        }
    }

    /// Whether the fields are within their ranges.
    pub fn is_well_formed(&self) -> (r: bool)
        ensures
            r == self.wf(),
    {
        self.addr <= 15 && self.envelope.is_well_formed() && self.clock_rem < 16
    }
}

} // verus!
