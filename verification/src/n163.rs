//! Namco 163: up to eight wavetable channels over 128 bytes of sound RAM.
use vstd::prelude::*;
use crate::ratio::Ratio;

verus! {

/// The whole chip.
#[derive(Debug, PartialEq, Eq)]
pub struct N163 {
    pub enabled: bool,
    pub addr: u8,
    pub addr_inc: bool,
    pub ram: [u8; 0x80],
    /// Number of enabled channels, up to 8; they are the highest ones.
    pub channels_active: u8,
    /// CPU cycles towards the next channel update.
    pub cycle_accum: u32,
    /// Which of the enabled channels is updated next.
    pub next_chan_slot: u8,
    /// Sample of the last update, in 128ths.
    pub last_output: i32,
    /// Sample of the last update of each channel, in 128ths.
    pub chan_hold: [i32; 8],
    /// `$E000` bit 6.
    pub sound_disabled: bool,
}

/// One channel as its eight register bytes describe it.
#[derive(Clone, Copy, Debug, PartialEq, Eq, Structural)]
pub struct N163Channel {
    pub base: usize,
    pub freq: u32,
    pub phase: u32,
    pub wave_len: u32,
    pub wave_addr: u8,
    pub volume: u8,
}

/// Address of the register block of channel `ch`, 1 to 8.
pub open spec fn base_of(ch: int) -> int {
    0x40 + (ch - 1) * 8
}

/// The channel whose registers start at `base`.
pub open spec fn channel_at(ram: Seq<u8>, base: int) -> N163Channel {
    N163Channel {
        base: base as usize,
        freq: (ram[base] + 0x100 * ram[base + 2] + 0x10000 * (ram[base + 4] as int % 4)) as u32,
        phase: (ram[base + 1] + 0x100 * ram[base + 3] + 0x10000 * ram[base + 5]) as u32,
        wave_len: (256 - 4 * (ram[base + 4] as int / 4)) as u32,
        wave_addr: ram[base + 6],
        volume: (ram[base + 7] as int % 16) as u8,
    }
}

/// Phase after one update: the frequency is added, modulo the wave length in
/// 65536ths of a sample.
pub open spec fn phase_next(c: N163Channel) -> int {
    (c.phase + c.freq) % (c.wave_len * 0x10000)
}

/// The 4-bit sample at position `pos` modulo 256: even positions are low
/// nibbles.
pub open spec fn nibble_at(ram: Seq<u8>, pos: int) -> int {
    let i = pos % 256;
    if i % 2 == 0 {
        ram[i / 2] as int % 16
    } else {
        ram[i / 2] as int / 16
    }
}

/// Sound RAM with the three phase bytes at `base` replaced.
pub open spec fn with_phase(ram: [u8; 0x80], base: int, phase: int) -> [u8; 0x80] {
    let r1 = crate::bits::put(ram, base + 1, (phase % 256) as u8);
    let r2 = crate::bits::put(r1, base + 3, ((phase / 256) % 256) as u8);
    crate::bits::put(r2, base + 5, ((phase / 65536) % 256) as u8)
}

impl N163 {
    /// State after power-on.
    pub open spec fn power_on(self) -> bool {
        &&& !self.enabled
        &&& self.addr == 0 && !self.addr_inc
        &&& self.ram@ == Seq::new(0x80, |i: int| 0u8)
        &&& self.channels_active == 1
        &&& self.cycle_accum == 0 && self.next_chan_slot == 0
        &&& self.last_output == 0
        &&& self.chan_hold@ == Seq::new(8, |i: int| 0i32)
        &&& !self.sound_disabled
    }

    pub open spec fn wf(self) -> bool {
        &&& self.addr <= 0x7F
        &&& self.channels_active <= 8
        &&& self.channels_active > 0 ==> self.next_chan_slot < self.channels_active
        &&& self.cycle_accum < 15
        &&& forall|i: int| 0 <= i < 8 ==> -120 <= #[trigger] self.chan_hold[i] <= 105
    }

    /// The address pointer after an access to the data port.
    pub open spec fn addr_after_access(self) -> u8 {
        if self.addr_inc && self.addr < 0x7F { (self.addr + 1) as u8 } else { self.addr }
    }

    /// State after `value` arrives at the data port.
    pub open spec fn data_written(self, value: u8) -> Self {
        let s = N163 {
            ram: crate::bits::put(self.ram, self.addr as int, value),
            addr: self.addr_after_access(),
            ..self
        };
        if self.addr == 0x7F {
            let active = (((value >> 4) & 0x07) + 1) as u8;
            N163 {
                channels_active: active,
                next_chan_slot: if s.next_chan_slot >= active { 0 } else { s.next_chan_slot },
                ..s
            }
        } else {
            s
        }
    }

    /// State after the CPU writes `value` at `addr`.
    pub open spec fn written(self, addr: u16, value: u8) -> Self {
        if 0xE000 <= addr <= 0xE7FF {
            N163 { sound_disabled: value & 0x40 != 0, ..self }
        } else if 0xF800 <= addr {
            N163 { addr: value & 0x7F, addr_inc: value & 0x80 != 0, ..self }
        } else if 0x4800 <= addr <= 0x4FFF {
            self.data_written(value)
        } else {
            self
        }
    }

    /// Byte that the CPU reads at `addr`.
    pub open spec fn read_value(self, addr: u16) -> u8 {
        if 0x4800 <= addr <= 0x4FFF { self.ram[self.addr as int] } else { 0xFF }
    }

    /// State after the CPU reads `addr`.
    pub open spec fn after_read(self, addr: u16) -> Self {
        if 0x4800 <= addr <= 0x4FFF {
            N163 { addr: self.addr_after_access(), ..self }
        } else {
            self
        }
    }

    /// Number of the channel in slot `slot` of the enabled ones.
    pub open spec fn channel_in_slot(self, slot: int) -> int {
        9 - self.channels_active + slot
    }

    /// One channel update: the next enabled channel moves its phase, writes
    /// it back to sound RAM, and puts out the sample under it.
    pub open spec fn updated(self) -> Self {
        if self.channels_active == 0 {
            self
        } else {
            self.channel_updated()
        }
    }

    /// The update of the next enabled channel.
    pub open spec fn channel_updated(self) -> Self {
        let ch = self.channel_in_slot(self.next_chan_slot as int);
        let c = channel_at(self.ram@, base_of(ch));
        let phase = phase_next(c);
        let ram = with_phase(self.ram, base_of(ch), phase);
        let sample = ((nibble_at(ram@, phase / 0x10000 + c.wave_addr) - 8) * c.volume) as i32;
        N163 {
            ram,
            chan_hold: crate::bits::put(self.chan_hold, ch - 1, sample),
            last_output: sample,
            next_chan_slot: ((self.next_chan_slot + 1) % (self.channels_active as int)) as u8,
            ..self
        }
    }

    /// One CPU cycle: every fifteenth updates one channel.
    pub open spec fn cycle(self) -> Self {
        if !self.enabled || self.sound_disabled {
            self
        } else if self.cycle_accum >= 14 {
            (N163 { cycle_accum: 0, ..self }).updated()
        } else {
            N163 { cycle_accum: (self.cycle_accum + 1) as u32, ..self }
        }
    }

    /// State after `n` CPU cycles.
    pub open spec fn ticked(self, n: nat) -> Self
        decreases n,
    {
        if n == 0 {
            self
        } else {
            self.ticked((n - 1) as nat).cycle()
        }
    }

    /// Sum of the held samples of the channels from slot `slot` on.
    pub open spec fn held_sum(self, slot: int) -> int
        decreases self.channels_active - slot,
    {
        if slot >= self.channels_active {
            0
        } else {
            self.chan_hold[self.channel_in_slot(slot) - 1] + self.held_sum(slot + 1)
        }
    }

    pub fn new() -> (r: Self)
        ensures
            r.power_on(),
            r.wf(),
    {
        let r = N163 {
            enabled: false,
            addr: 0,
            addr_inc: false,
            ram: [0u8; 0x80],
            channels_active: 1,
            cycle_accum: 0,
            next_chan_slot: 0,
            last_output: 0,
            chan_hold: [0i32; 8],
            sound_disabled: false,
        };
        assert(r.ram@ =~= Seq::new(0x80, |i: int| 0u8));
        assert(r.chan_hold@ =~= Seq::new(8, |i: int| 0i32));
        r
    }

    /// Address of the register block of a channel.
    pub fn chan_base(idx_one_based: u8) -> (r: usize)
        requires
            1 <= idx_one_based <= 8,
        ensures
            r == base_of(idx_one_based as int),
    {
        0x40 + (idx_one_based as usize - 1) * 8
    }

    /// Number of the channel in a slot of the enabled ones.
    pub fn active_channel(&self, slot: u8) -> (r: u8)
        requires
            slot < self.channels_active <= 8,
        ensures
            r == self.channel_in_slot(slot as int),
    {
        9 - self.channels_active + slot
    }

    pub fn write(&mut self, addr: u16, value: u8)
        requires
            0x4800 <= addr <= 0x4FFF ==> old(self).addr <= 0x7F,
        ensures
            *final(self) == old(self).written(addr, value),
            old(self).wf() ==> final(self).wf(),
    {
        proof {
            crate::bits::lemma_byte_fields(value);
        }
        if 0xE000 <= addr && addr <= 0xE7FF {
            self.sound_disabled = value & 0x40 != 0;
        } else if 0xF800 <= addr {
            self.addr = value & 0x7F;
            self.addr_inc = value & 0x80 != 0;
        } else if 0x4800 <= addr && addr <= 0x4FFF {
            let target: usize = self.addr as usize;
            self.ram[target] = value;
            if self.addr_inc {
                if self.addr < 0x7F {
                    self.addr = self.addr + 1;
                }
            }
            if target == 0x7F {
                self.channels_active = ((value >> 4) & 0x07) + 1;
                if self.next_chan_slot >= self.channels_active {
                    self.next_chan_slot = 0;
                }
            }
        }
    }

    pub fn read(&mut self, addr: u16) -> (r: u8)
        requires
            0x4800 <= addr <= 0x4FFF ==> old(self).addr <= 0x7F,
        ensures
            r == old(self).read_value(addr),
            *final(self) == old(self).after_read(addr),
            old(self).wf() ==> final(self).wf(),
    {
        if 0x4800 <= addr && addr <= 0x4FFF {
            let value: u8 = self.ram[self.addr as usize];
            if self.addr_inc && self.addr < 0x7F {
                self.addr = self.addr + 1;
            }
            value
        } else {
            0xFF
        }
    }

    /// The register block of channel `ch`, decoded.
    pub fn decode_channel(&self, ch: u8) -> (c: N163Channel)
        requires
            1 <= ch <= 8,
        ensures
            c == channel_at(self.ram@, base_of(ch as int)),
            c.freq < 0x4_0000,
            c.phase < 0x100_0000,
            4 <= c.wave_len <= 256,
            c.volume <= 15,
            c.base == base_of(ch as int),
    {
        let base: usize = Self::chan_base(ch);
        let freq: u32 = self.ram[base] as u32 + 0x100 * self.ram[base + 2] as u32 + 0x10000 * (
        self.ram[base + 4] % 4) as u32;
        let phase: u32 = self.ram[base + 1] as u32 + 0x100 * self.ram[base + 3] as u32 + 0x10000
            * self.ram[base + 5] as u32;
        let wave_len: u32 = 256 - 4 * (self.ram[base + 4] / 4) as u32;
        let wave_addr: u8 = self.ram[base + 6];
        let volume: u8 = self.ram[base + 7] % 16;
        N163Channel { base, freq, phase, wave_len, wave_addr, volume }
    }

    /// The 4-bit sample at a position modulo 256.
    pub fn read_nibble(&self, pos: u32) -> (r: u8)
        ensures
            r == nibble_at(self.ram@, pos as int),
            r <= 15,
    {
        let i: usize = (pos % 256) as usize;
        let byte: u8 = self.ram[i / 2];
        if i % 2 == 0 {
            byte % 16
        } else {
            byte / 16
        }
    }

    /// Update the next enabled channel.
    pub fn tick_one_channel(&mut self)
        requires
            old(self).wf(),
        ensures
            *final(self) == old(self).updated(),
            final(self).wf(),
    {
        if self.channels_active == 0 {
            return ;
        }
        let slot: u8 = self.next_chan_slot;
        let ch: u8 = self.active_channel(slot);
        let dec = self.decode_channel(ch);
        let modulus: u32 = dec.wave_len * 0x10000;
        let new_phase: u32 = (dec.phase + dec.freq) % modulus;
        self.ram[dec.base + 1] = (new_phase % 256) as u8;
        self.ram[dec.base + 3] = ((new_phase / 256) % 256) as u8;
        self.ram[dec.base + 5] = ((new_phase / 65536) % 256) as u8;
        let pos: u32 = new_phase / 0x10000 + dec.wave_addr as u32;
        let nib: u8 = self.read_nibble(pos);
        let signed: i32 = nib as i32 - 8;
        let volume: i32 = dec.volume as i32;
        assert(-120 <= signed * volume <= 105) by (nonlinear_arith)
            requires
                -8 <= signed <= 7,
                0 <= volume <= 15,
        ;
        let sample: i32 = signed * volume;
        self.chan_hold[(ch - 1) as usize] = sample;
        self.last_output = sample;
        self.next_chan_slot = (slot + 1) % self.channels_active;
    }

    /// Advance the chip by `cycles` CPU cycles.
    pub fn tick(&mut self, cycles: u32)
        requires
            old(self).wf(),
        ensures
            *final(self) == old(self).ticked(cycles as nat),
            final(self).wf(),
    {
        if !self.enabled || self.sound_disabled {
            proof {
                self.lemma_stopped_chip_stands_still(cycles as nat);
            }
            return ;
        }
        let mut accum: u64 = self.cycle_accum as u64 + cycles as u64;
        let ghost mut done: nat = 0;
        while accum >= 15
            invariant
                self.wf(),
                self.enabled && !self.sound_disabled,
                done <= cycles,
                *self == old(self).ticked(done),
                accum == self.cycle_accum + (cycles - done),
            decreases accum,
        {
            let ghost before = *self;
            let ghost step: nat = (15 - self.cycle_accum) as nat;
            proof {
                before.lemma_next_update(step);
                old(self).lemma_ticks_split(done, step);
                done = done + step;
            }
            accum = accum - 15;
            self.cycle_accum = 0;
            self.tick_one_channel();
        }
        proof {
            self.lemma_next_update((cycles - done) as nat);
            old(self).lemma_ticks_split(done, (cycles - done) as nat);
        }
        self.cycle_accum = accum as u32;
    }

    /// Mixed output as a sum and a divisor: the sum of the held samples of
    /// the enabled channels, in 128ths, over their number. A stopped chip is
    /// silent.
    pub fn output(&self) -> (r: (i32, u8))
        requires
            self.channels_active <= 8,
            forall|i: int| 0 <= i < 8 ==> -0x0800_0000 <= #[trigger] self.chan_hold[i] <= 0x0800_0000,
        ensures
            self.channels_active == 0 || self.sound_disabled ==> r == (0i32, 1u8),
            !(self.channels_active == 0 || self.sound_disabled) ==> r.0 == self.held_sum(0) && r.1
                == self.channels_active,
    {
        if self.channels_active == 0 || self.sound_disabled {
            return (0, 1);
        }
        let mut sum: i32 = 0;
        let mut slot: u8 = self.channels_active;
        while slot > 0
            invariant
                slot <= self.channels_active <= 8,
                sum == self.held_sum(slot as int),
                -0x0800_0000 * (self.channels_active - slot) <= sum <= 0x0800_0000 * (
                self.channels_active - slot),
                forall|i: int| 0 <= i < 8 ==> -0x0800_0000 <= #[trigger] self.chan_hold[i] <= 0x0800_0000,
            decreases slot,
        {
            slot = slot - 1;
            let ch: u8 = self.active_channel(slot);
            sum = sum + self.chan_hold[(ch - 1) as usize];
        }
        (sum, self.channels_active)
    }

    /// Rate at which each enabled channel is updated: one update takes 15 CPU
    /// cycles, and the enabled channels take turns.
    pub fn update_rate_hz(&self, cpu_hz: u32) -> (r: Ratio)
        ensures
            r == if self.channels_active == 0 {
                Ratio::zero()
            } else {
                Ratio { num: cpu_hz as u64, den: (15 * self.channels_active) as u64 }
            },
    {
        if self.channels_active == 0 {
            return Ratio { num: 0, den: 1 };
        }
        Ratio { num: cpu_hz as u64, den: 15 * self.channels_active as u64 }
    }

    /// Frequency that channel `ch` plays: `n * p / (15 * 65536 * l * c)` for
    /// the CPU clock `n`, the frequency value `p`, the wave length `l` and `c`
    /// enabled channels; zero for a channel that does not exist, is not enabled
    /// or does not move. The channels that are enabled are the last ones.
    pub fn emitted_frequency_hz(&self, ch: u8, cpu_hz: u32) -> (r: Ratio)
        ensures
            ({
                let c = channel_at(self.ram@, base_of(ch as int));
                r == if !(1 <= ch <= 8) || ch < 9 - self.channels_active || c.freq == 0 {
                    Ratio::zero()
                } else {
                    Ratio {
                        num: (cpu_hz * c.freq) as u64,
                        den: (15 * 65536 * (c.wave_len * self.channels_active)) as u64,
                    }
                }
            }),
    {
        if ch < 1 || ch > 8 || (ch as u16) + (self.channels_active as u16) < 9 {
            return Ratio { num: 0, den: 1 };
        }
        let dec = self.decode_channel(ch);
        if dec.freq == 0 {
            return Ratio { num: 0, den: 1 };
        }
        let freq: u64 = dec.freq as u64;
        let hz: u64 = cpu_hz as u64;
        let len: u64 = dec.wave_len as u64;
        let count: u64 = self.channels_active as u64;
        assert(0 <= hz * freq <= 0x1_0000_0000 * 0x4_0000) by (nonlinear_arith)
            requires
                0 <= hz <= 0x1_0000_0000,
                0 <= freq <= 0x4_0000,
        ;
        assert(0 <= len * count <= 256 * 255) by (nonlinear_arith)
            requires
                0 <= len <= 256,
                0 <= count <= 255,
        ;
        Ratio { num: hz * freq, den: 15 * 65536 * (len * count) }
    }

    /// A chip that is disabled or has its sound switched off does not move.
    pub proof fn lemma_stopped_chip_stands_still(self, n: nat)
        requires
            !self.enabled || self.sound_disabled,
        ensures
            self.ticked(n) == self,
        decreases n,
    {
        if n > 0 {
            self.lemma_stopped_chip_stands_still((n - 1) as nat);
        }
    }

    /// Short of the fifteenth cycle only the count moves; the fifteenth is an
    /// update.
    proof fn lemma_next_update(self, n: nat)
        requires
            self.enabled && !self.sound_disabled,
            self.cycle_accum + n <= 15,
            self.cycle_accum < 15,
        ensures
            self.cycle_accum + n < 15 ==> self.ticked(n) == (N163 {
                cycle_accum: (self.cycle_accum + n) as u32,
                ..self
            }),
            self.cycle_accum + n == 15 ==> self.ticked(n) == (N163 {
                cycle_accum: 0,
                ..self
            }).updated(),
        decreases n,
    {
        if n > 0 {
            self.lemma_next_update((n - 1) as nat);
        }
    }

    /// The state after a stretch of time does not depend on how the time is
    /// cut into batches.
    pub proof fn lemma_ticks_split(self, a: nat, b: nat)
        ensures
            self.ticked(a + b) == self.ticked(a).ticked(b),
        decreases b,
    {
        if b > 0 {
            self.lemma_ticks_split(a, (b - 1) as nat);
            assert((a + b - 1) as nat == a + (b - 1) as nat);
        }
    }

    /// Whether the fields are within their ranges.
    pub fn is_well_formed(&self) -> (r: bool)
        ensures
            r == self.wf(),
    {
        if !(self.addr <= 0x7F && self.channels_active <= 8 && (self.channels_active == 0
            || self.next_chan_slot < self.channels_active) && self.cycle_accum < 15) {
            return false;
        }
        for i in 0..8usize
            invariant
                forall|k: int| 0 <= k < i ==> -120 <= #[trigger] self.chan_hold[k] <= 105,
        {
            if self.chan_hold[i] < -120 || self.chan_hold[i] > 105 {
                return false;
            }
        }
        true
    }
}

impl Default for N163 {
    fn default() -> (r: Self)
        ensures
            r.power_on(),
    {
        Self::new()
    }
}

} // verus!
