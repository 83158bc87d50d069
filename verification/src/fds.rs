//! Famicom Disk System sound: one 64-sample wavetable voice with a frequency
//! modulator and two envelope ramps.
use vstd::prelude::*;

verus! {

/// The whole sound unit.
#[derive(Debug, PartialEq, Eq)]
pub struct Fds {
    pub enabled: bool,
    pub wave: [u8; 64],
    pub mod_table: [u8; 32],
    pub volume: u8,
    pub master_volume_div: u8,
    pub freq: u16,
    pub mod_freq: u16,
    pub mod_disabled: bool,
    /// 6-bit mod gain.
    pub mod_gain: u8,
    /// Signed 7-bit mod counter.
    pub mod_counter: i8,
    /// 64-step pointer into the 32-entry mod table; each entry is used twice.
    pub mod_pos: u8,
    /// 12-bit mod accumulator.
    pub mod_acc: u16,
    pub wave_pos: u8,
    /// 24-bit wave accumulator; its top six bits are the wave position.
    pub wave_acc: u32,
    pub wave_write_enable: bool,
    /// CPU cycles towards the next 16-cycle unit tick.
    pub cycle_acc: u32,
    pub vol_env_speed: u8,
    pub vol_env_increase: bool,
    /// The volume gain is set directly and does not ramp.
    pub vol_env_disabled: bool,
    /// CPU cycles until the next volume envelope tick.
    pub vol_env_timer: u32,
    pub mod_env_speed: u8,
    pub mod_env_increase: bool,
    /// The mod gain is set directly and does not ramp.
    pub mod_env_disabled: bool,
    /// CPU cycles until the next mod envelope tick.
    pub mod_env_timer: u32,
    /// Master envelope speed; zero stops both envelopes.
    pub master_env_speed: u8,
    /// `$4083` bit 7: envelopes run four times faster, wave and mod units
    /// stand still.
    pub env_fast: bool,
    /// `$4083` bit 6: both envelopes stand still.
    pub env_halt: bool,
    /// Volume gain that waits for the wave position to be zero.
    pub vol_pending: Option<u8>,
    /// `$4023` bit 1.
    pub sound_enabled: bool,
}

/// The value in `-64..=63` that is congruent to `x` modulo 128.
#[verifier::opaque]
pub open spec fn wrap7(x: int) -> int {
    (x + 64) % 128 - 64
}

/// Change of the mod counter for a mod table entry; nothing for the entry
/// that resets it.
pub open spec fn increment_of(entry: u8) -> Option<i8> {
    match entry & 0x07 {
        0 => Some(0i8),
        1 => Some(1i8),
        2 => Some(2i8),
        3 => Some(4i8),
        4 => None,
        5 => Some(-4i8),
        6 => Some(-2i8),
        _ => Some(-1i8),
    }
}

/// The same increment as the 4-bit value that `$4095` shows.
pub open spec fn increment_display_of(entry: u8) -> u8 {
    match entry & 0x07 {
        0 => 0x0u8,
        1 => 0x1u8,
        2 => 0x2u8,
        3 => 0x4u8,
        4 => 0xCu8,
        5 => 0xCu8,
        6 => 0xEu8,
        _ => 0xFu8,
    }
}

/// CPU cycles per envelope tick: `8 * (e + 1) * (m + 1)`, a quarter of that
/// when fast, and zero (never) for a zero master speed.
#[verifier::opaque]
pub open spec fn envelope_period(e: u8, m: u8, fast: bool) -> int {
    if m == 0 {
        0
    } else if fast {
        2 * ((e + 1) * (m + 1))
    } else {
        8 * ((e + 1) * (m + 1))
    }
}

/// Modulated pitch for a counter, a gain and a 12-bit frequency.
///
/// The product of counter and gain is rounded up by 32 unless its low four
/// bits are clear or bit 11 is set, centred on 1024 and cut down to eight
/// bits; that times the frequency, modulo 2^20, is the pitch.
#[verifier::opaque]
pub open spec fn pitch_of(counter: int, gain: int, freq: int) -> int {
    let product = counter * gain;
    let rounded = if product % 16 != 0 && (product / 2048) % 2 == 0 {
        product + 0x20
    } else {
        product
    };
    (freq * (((rounded + 0x400) / 16) % 256)) % 0x10_0000
}

/// One step of a gain ramp: up to 32, or down to 0.
pub open spec fn ramped(gain: u8, increase: bool) -> u8 {
    if increase {
        if gain < 32 { (gain + 1) as u8 } else { gain }
    } else {
        if gain > 0 { (gain - 1) as u8 } else { gain }
    }
}

/// Whether an envelope timer runs out in this cycle. A timer at zero starts
/// over from the period.
pub open spec fn timer_fires(timer: u32, period: u32) -> bool {
    timer == 1 || (timer == 0 && period == 1)
}

/// Envelope timer after one cycle.
pub open spec fn timer_next(timer: u32, period: u32) -> u32 {
    if timer_fires(timer, period) {
        period
    } else if timer == 0 {
        (period - 1) as u32
    } else {
        (timer - 1) as u32
    }
}

/// Count an envelope timer down by one cycle.
fn step_timer(timer: u32, period: u32) -> (r: (u32, bool))
    requires
        period > 0,
    ensures
        r.0 == timer_next(timer, period),
        r.1 == timer_fires(timer, period),
{
    let t: u32 = if timer == 0 { period } else { timer };
    if t == 1 {
        (period, true)
    } else {
        (t - 1, false)
    }
}

/// A multiple of 4096 changes neither the low twelve bits nor what is cut out
/// of them.
proof fn lemma_offset_keeps_bits(p: int)
    ensures
        (p + 0x10000) % 16 == p % 16,
        ((p + 0x10000) / 2048) % 2 == (p / 2048) % 2,
        ((p + 0x10000) / 16) % 256 == (p / 16) % 256,
{
}

impl Fds {
    /// State after power-on. Sound is on and the master envelope speed is
    /// `$E8`, as the BIOS leaves them.
    pub open spec fn power_on(self) -> bool {
        &&& !self.enabled
        &&& self.wave@ == Seq::new(64, |i: int| 0u8)
        &&& self.mod_table@ == Seq::new(32, |i: int| 0u8)
        &&& self.volume == 0 && self.master_volume_div == 0
        &&& self.freq == 0 && self.mod_freq == 0
        &&& self.mod_disabled && self.mod_gain == 0 && self.mod_counter == 0
        &&& self.mod_pos == 0 && self.mod_acc == 0
        &&& self.wave_pos == 0 && self.wave_acc == 0 && !self.wave_write_enable
        &&& self.cycle_acc == 0
        &&& self.vol_env_speed == 0 && !self.vol_env_increase
        &&& self.vol_env_disabled && self.vol_env_timer == 0
        &&& self.mod_env_speed == 0 && !self.mod_env_increase
        &&& self.mod_env_disabled && self.mod_env_timer == 0
        &&& self.master_env_speed == 0xE8
        &&& !self.env_fast && !self.env_halt
        &&& self.vol_pending is None
        &&& self.sound_enabled
    }

    pub open spec fn wf(self) -> bool {
        &&& self.wave_pos < 64
        &&& self.cycle_acc < 16
    }

    pub open spec fn vol_period(self) -> int {
        envelope_period(self.vol_env_speed, self.master_env_speed, self.env_fast)
    }

    pub open spec fn mod_period(self) -> int {
        envelope_period(self.mod_env_speed, self.master_env_speed, self.env_fast)
    }

    /// A new volume gain: taken at once while the wave position is zero, else
    /// left pending.
    pub open spec fn with_gain(self, gain: u8) -> Self {
        if self.wave_pos == 0 {
            Fds { volume: gain, vol_pending: None, ..self }
        } else {
            Fds { vol_pending: Some(gain), ..self }
        }
    }

    /// A pending volume gain is taken when the wave position is zero.
    pub open spec fn committed(self) -> Self {
        match self.vol_pending {
            Some(g) if self.wave_pos == 0 => Fds { volume: g, vol_pending: None, ..self },
            _ => self,
        }
    }

    pub open spec fn written_4080(self, value: u8) -> Self {
        let s = Fds {
            vol_env_speed: value & 0x3F,
            vol_env_increase: value & 0x40 != 0,
            vol_env_disabled: value & 0x80 != 0,
            ..self
        };
        let g = if !s.vol_env_disabled {
            s
        } else if value & 0x3F == 0 {
            Fds { volume: 0, vol_pending: None, ..s }
        } else {
            s.with_gain(value & 0x3F)
        };
        Fds { vol_env_timer: g.vol_period() as u32, ..g }
    }

    pub open spec fn written_4083(self, value: u8) -> Self {
        let s = Fds {
            freq: (self.freq & 0x00FF) | (((value & 0x0F) as u16) << 8),
            env_halt: value & 0x40 != 0,
            env_fast: value & 0x80 != 0,
            ..self
        };
        let h = if s.env_halt {
            Fds { vol_env_timer: s.vol_period() as u32, mod_env_timer: s.mod_period() as u32, ..s }
        } else {
            s
        };
        if h.env_fast { Fds { wave_acc: 0, wave_pos: 0, ..h } } else { h }
    }

    pub open spec fn written_4084(self, value: u8) -> Self {
        let s = Fds {
            mod_env_speed: value & 0x3F,
            mod_env_increase: value & 0x40 != 0,
            mod_env_disabled: value & 0x80 != 0,
            mod_gain: if value & 0x80 != 0 { value & 0x3F } else { self.mod_gain },
            ..self
        };
        Fds { mod_env_timer: s.mod_period() as u32, ..s }
    }

    /// The mod unit is switched on or off; off also clears its accumulator.
    pub open spec fn written_4087(self, value: u8) -> Self {
        let off = value & 0x80 != 0;
        Fds {
            mod_freq: (self.mod_freq & 0x00FF) | (((value & 0x0F) as u16) << 8),
            mod_disabled: off,
            mod_acc: if off { 0 } else { self.mod_acc },
            ..self
        }
    }

    /// While the mod unit is off, the current table entry is replaced and the
    /// pointer moves to the next entry.
    pub open spec fn written_4088(self, value: u8) -> Self {
        if self.mod_disabled {
            Fds {
                mod_table: crate::bits::put(
                    self.mod_table,
                    (self.mod_pos as int / 2) % 32,
                    value & 0x07,
                ),
                mod_pos: ((self.mod_pos + 2) % 64) as u8,
                ..self
            }
        } else {
            self
        }
    }

    /// State after the CPU writes `value` at `addr`.
    pub open spec fn written(self, addr: u16, value: u8) -> Self {
        if addr == 0x4023 {
            if value & 0x02 != 0 {
                Fds { sound_enabled: true, ..self }
            } else {
                Fds { sound_enabled: false, wave_pos: 0, wave_acc: 0, ..self }
            }
        } else if 0x4040 <= addr <= 0x407F {
            if self.wave_write_enable {
                Fds {
                    wave: crate::bits::put(self.wave, addr - 0x4040, value & 0x3F),
                    ..self
                }
            } else {
                self
            }
        } else if addr == 0x4080 {
            self.written_4080(value)
        } else if addr == 0x4082 {
            Fds { freq: (self.freq & 0x0F00) | value as u16, ..self }
        } else if addr == 0x4083 {
            self.written_4083(value)
        } else if addr == 0x4084 {
            self.written_4084(value)
        } else if addr == 0x4085 {
            Fds { mod_counter: wrap7(value as int) as i8, ..self }
        } else if addr == 0x4086 {
            Fds { mod_freq: (self.mod_freq & 0x0F00) | value as u16, ..self }
        } else if addr == 0x4087 {
            self.written_4087(value)
        } else if addr == 0x4088 {
            self.written_4088(value)
        } else if addr == 0x4089 {
            Fds {
                master_volume_div: value & 0x03,
                wave_write_enable: value & 0x80 != 0,
                ..self
            }
        } else if addr == 0x408A {
            Fds { master_env_speed: value, ..self }
        } else {
            self
        }
    }

    /// Byte that the CPU reads at `addr`: the status window `$4090..=$4097`,
    /// and open bus elsewhere.
    pub open spec fn read_value(self, addr: u16) -> u8 {
        match addr {
            0x4090 => 0x40u8 | (self.volume & 0x3F),
            0x4091 => ((self.wave_acc as int / 4096) % 256) as u8,
            0x4092 => 0x40u8 | (self.mod_gain & 0x3F),
            0x4093 => ((self.mod_acc as int / 32) % 128) as u8,
            0x4094 => (((self.mod_counter * self.mod_gain) / 16) % 256) as u8,
            0x4095 => increment_display_of(self.mod_table[(self.mod_pos as int / 2) % 32]),
            0x4096 => 0x40u8 | (self.wave[self.wave_pos as int] & 0x3F),
            0x4097 => (self.mod_counter as int % 128) as u8,
            _ => 0xFF,
        }
    }

    /// The modulation unit over one unit tick: the frequency is added to the
    /// accumulator, and a carry out of bit 11 applies the current table entry
    /// and moves the pointer on.
    pub open spec fn mod_ticked(self) -> Self {
        if self.mod_disabled || self.mod_freq == 0 || self.env_fast {
            self
        } else {
            let sum = self.mod_acc + self.mod_freq;
            let s = Fds { mod_acc: (sum % 4096) as u16, ..self };
            if (sum / 4096) % 2 == 1 {
                Fds {
                    mod_counter: match increment_of(
                        self.mod_table[(self.mod_pos as int / 2) % 32],
                    ) {
                        None => 0i8,
                        Some(d) => wrap7(self.mod_counter + d) as i8,
                    },
                    mod_pos: ((self.mod_pos + 1) % 64) as u8,
                    ..s
                }
            } else {
                s
            }
        }
    }

    /// The wave unit over one unit tick: the modulated pitch is added to the
    /// accumulator, whose top six bits are the wave position.
    pub open spec fn wave_ticked(self) -> Self {
        if self.freq == 0 || self.env_fast {
            self
        } else {
            let pitch = pitch_of(
                self.mod_counter as int,
                self.mod_gain as int,
                self.freq as int,
            );
            let acc = (self.wave_acc + pitch) % 0x100_0000;
            Fds { wave_acc: acc as u32, wave_pos: ((acc / 0x4_0000) % 64) as u8, ..self }
        }
    }

    pub open spec fn unit_ticked(self) -> Self {
        self.mod_ticked().wave_ticked()
    }

    /// One ramp step of the volume envelope, from the pending gain if there
    /// is one.
    pub open spec fn vol_stepped(self) -> Self {
        let cur = match self.vol_pending {
            Some(g) => g,
            None => self.volume,
        };
        let next = ramped(cur, self.vol_env_increase);
        if next != cur { self.with_gain(next) } else { self }
    }

    /// The volume envelope over one CPU cycle.
    pub open spec fn vol_env_ticked(self) -> Self {
        let period = self.vol_period() as u32;
        if self.vol_env_disabled || period == 0 {
            self
        } else {
            let s = if timer_fires(self.vol_env_timer, period) {
                self.vol_stepped()
            } else {
                self
            };
            Fds { vol_env_timer: timer_next(self.vol_env_timer, period), ..s }
        }
    }

    /// The mod envelope over one CPU cycle.
    pub open spec fn mod_env_ticked(self) -> Self {
        let period = self.mod_period() as u32;
        if self.mod_env_disabled || period == 0 {
            self
        } else {
            Fds {
                mod_env_timer: timer_next(self.mod_env_timer, period),
                mod_gain: if timer_fires(self.mod_env_timer, period) {
                    ramped(self.mod_gain, self.mod_env_increase)
                } else {
                    self.mod_gain
                },
                ..self
            }
        }
    }

    /// Both envelopes over one CPU cycle.
    pub open spec fn env_ticked(self) -> Self {
        if self.env_halt || self.master_env_speed == 0 {
            self
        } else {
            self.vol_env_ticked().mod_env_ticked()
        }
    }

    /// One CPU cycle: the envelopes, and on every sixteenth the two units and
    /// the pending volume.
    #[verifier::opaque]
    pub open spec fn cycle(self) -> Self {
        if !self.sound_enabled {
            self
        } else {
            let s = self.env_ticked();
            if s.cycle_acc >= 15 {
                (Fds { cycle_acc: (s.cycle_acc - 15) as u32, ..s }).unit_ticked().committed()
            } else {
                Fds { cycle_acc: (s.cycle_acc + 1) as u32, ..s }
            }
        }
    }

    /// State after `n` CPU cycles.
    pub open spec fn ticked(self, n: nat) -> Self
        decreases n,
    {
        if n == 0 {
            self
        } else {
            self.ticked((n - 1) as nat).cycle()
        }
    }

    pub fn new() -> (r: Self)
        ensures
            r.power_on(),
            r.wf(),
    {
        let r = Fds {
            enabled: false,
            wave: [0u8; 64],
            mod_table: [0u8; 32],
            volume: 0,
            master_volume_div: 0,
            freq: 0,
            mod_freq: 0,
            mod_disabled: true,
            mod_gain: 0,
            mod_counter: 0,
            mod_pos: 0,
            mod_acc: 0,
            wave_pos: 0,
            wave_acc: 0,
            wave_write_enable: false,
            cycle_acc: 0,
            vol_env_speed: 0,
            vol_env_increase: false,
            vol_env_disabled: true,
            vol_env_timer: 0,
            mod_env_speed: 0,
            mod_env_increase: false,
            mod_env_disabled: true,
            mod_env_timer: 0,
            master_env_speed: 0xE8,
            env_fast: false,
            env_halt: false,
            vol_pending: None,
            sound_enabled: true,
        };
        assert(r.wave@ =~= Seq::new(64, |i: int| 0u8));
        assert(r.mod_table@ =~= Seq::new(32, |i: int| 0u8));
        r
    }

    fn write_4080(&mut self, value: u8)
        ensures
            *final(self) == old(self).written_4080(value),
    {
        self.vol_env_speed = value & 0x3F;
        self.vol_env_increase = value & 0x40 != 0;
        self.vol_env_disabled = value & 0x80 != 0;
        if self.vol_env_disabled {
            let g: u8 = value & 0x3F;
            if g == 0 {
                self.volume = 0;
                self.vol_pending = None;
            } else {
                self.set_volume_gain(g);
            }
        }
        self.vol_env_timer = self.vol_env_period();
    }

    fn write_4083(&mut self, value: u8)
        ensures
            *final(self) == old(self).written_4083(value),
    {
        self.freq = (self.freq & 0x00FF) | (((value & 0x0F) as u16) << 8);
        self.env_halt = value & 0x40 != 0;
        self.env_fast = value & 0x80 != 0;
        if self.env_halt {
            self.vol_env_timer = self.vol_env_period();
            self.mod_env_timer = self.mod_env_period();
        }
        if self.env_fast {
            self.wave_acc = 0;
            self.wave_pos = 0;
        }
    }

    fn write_4084(&mut self, value: u8)
        ensures
            *final(self) == old(self).written_4084(value),
    {
        self.mod_env_speed = value & 0x3F;
        self.mod_env_increase = value & 0x40 != 0;
        self.mod_env_disabled = value & 0x80 != 0;
        if self.mod_env_disabled {
            self.mod_gain = value & 0x3F;
        }
        self.mod_env_timer = self.mod_env_period();
    }

    fn write_4087(&mut self, value: u8)
        ensures
            *final(self) == old(self).written_4087(value),
    {
        self.mod_freq = (self.mod_freq & 0x00FF) | (((value & 0x0F) as u16) << 8);
        self.mod_disabled = value & 0x80 != 0;
        if self.mod_disabled {
            self.mod_acc = 0;
        }
    }

    fn write_4088(&mut self, value: u8)
        ensures
            *final(self) == old(self).written_4088(value),
    {
        if self.mod_disabled {
            let p: usize = ((self.mod_pos / 2) % 32) as usize;
            self.mod_table[p] = value & 0x07;
            self.mod_pos = ((self.mod_pos as u16 + 2) % 64) as u8;
        }
    }

    pub fn write(&mut self, addr: u16, value: u8)
        ensures
            *final(self) == old(self).written(addr, value),
            old(self).wf() ==> final(self).wf(),
    {
        if addr == 0x4023 {
            let now = value & 0x02 != 0;
            if !now {
                self.wave_pos = 0;
                self.wave_acc = 0;
            }
            self.sound_enabled = now;
        } else if 0x4040 <= addr && addr <= 0x407F {
            if self.wave_write_enable {
                self.wave[(addr - 0x4040) as usize] = value & 0x3F;
            }
        } else if addr == 0x4080 {
            self.write_4080(value);
        } else if addr == 0x4082 {
            self.freq = (self.freq & 0x0F00) | value as u16;
        } else if addr == 0x4083 {
            self.write_4083(value);
        } else if addr == 0x4084 {
            self.write_4084(value);
        } else if addr == 0x4085 {
            self.mod_counter = Self::to_signed7(value);
        } else if addr == 0x4086 {
            self.mod_freq = (self.mod_freq & 0x0F00) | value as u16;
        } else if addr == 0x4087 {
            self.write_4087(value);
        } else if addr == 0x4088 {
            self.write_4088(value);
        } else if addr == 0x4089 {
            self.master_volume_div = value & 0x03;
            self.wave_write_enable = value & 0x80 != 0;
        } else if addr == 0x408A {
            self.master_env_speed = value;
        }
    }

    /// CPU read of the status registers; open bus elsewhere.
    pub fn read(&self, addr: u16) -> (r: u8)
        requires
            addr == 0x4096 ==> self.wave_pos < 64,
        ensures
            r == self.read_value(addr),
    {
        match addr {
            0x4090 => 0x40 | (self.volume & 0x3F),
            0x4091 => ((self.wave_acc / 4096) % 256) as u8,
            0x4092 => 0x40 | (self.mod_gain & 0x3F),
            0x4093 => ((self.mod_acc / 32) % 128) as u8,
            0x4094 => {
                let product: i32 = self.counter_times_gain();
                (((product + 0x10000) as u32 / 16) % 256) as u8
            },
            0x4095 => {
                let entry: u8 = self.mod_table[((self.mod_pos / 2) % 32) as usize];
                Self::mod_increment_display(entry)
            },
            0x4096 => 0x40 | (self.wave[self.wave_pos as usize] & 0x3F),
            0x4097 => ((self.mod_counter as i16 + 128) as u16 % 128) as u8,
            _ => 0xFF,
        }
    }

    /// Display form of a mod table entry.
    pub fn mod_increment_display(entry: u8) -> (r: u8)
        ensures
            r == increment_display_of(entry),
    {
        match entry & 0x07 {
            0 => 0x0,
            1 => 0x1,
            2 => 0x2,
            3 => 0x4,
            4 => 0xC,
            5 => 0xC,
            6 => 0xE,
            _ => 0xF,
        }
    }

    /// CPU cycles per volume envelope tick.
    pub fn vol_env_period(&self) -> (r: u32)
        ensures
            r == self.vol_period(),
    {
        Self::env_period(self.vol_env_speed, self.master_env_speed, self.env_fast)
    }

    /// CPU cycles per mod envelope tick.
    pub fn mod_env_period(&self) -> (r: u32)
        ensures
            r == self.mod_period(),
    {
        Self::env_period(self.mod_env_speed, self.master_env_speed, self.env_fast)
    }

    /// CPU cycles per envelope tick for speed `e` and master speed `m`.
    pub fn env_period(e: u8, m: u8, fast: bool) -> (r: u32)
        ensures
            r == envelope_period(e, m, fast),
            r == 0 <==> m == 0,
    {
        reveal(envelope_period);
        if m == 0 {
            return 0;
        }
        assert(1 <= (e + 1) * (m + 1) <= 0x1_0000) by (nonlinear_arith)
            requires
                0 <= e <= 255,
                0 <= m <= 255,
        ;
        let product: u32 = (e as u32 + 1) * (m as u32 + 1);
        let c: u32 = 8 * product;
        if fast {
            c / 4
        } else {
            c
        }
    }

    /// Stage a volume gain change.
    pub fn set_volume_gain(&mut self, gain: u8)
        ensures
            *final(self) == old(self).with_gain(gain),
    {
        if self.wave_pos == 0 {
            self.volume = gain;
            self.vol_pending = None;
        } else {
            self.vol_pending = Some(gain);
        }
    }

    /// Take a staged volume gain if the wave position is zero.
    pub fn commit_pending_volume(&mut self)
        ensures
            *final(self) == old(self).committed(),
    {
        if self.wave_pos == 0 {
            if let Some(g) = self.vol_pending {
                self.volume = g;
                self.vol_pending = None;
            }
        }
    }

    /// Sign-extend the low seven bits.
    pub fn to_signed7(v: u8) -> (r: i8)
        ensures
            r == wrap7(v as int),
    {
        reveal(wrap7);
        let w: u8 = v % 128;
        if w >= 64 {
            (w as i16 - 128) as i8
        } else {
            w as i8
        }
    }

    /// Mod counter increment of a table entry.
    pub fn mod_increment(entry: u8) -> (r: Option<i8>)
        ensures
            r == increment_of(entry),
    {
        match entry & 0x07 {
            0 => Some(0),
            1 => Some(1),
            2 => Some(2),
            3 => Some(4),
            4 => None,
            5 => Some(-4),
            6 => Some(-2),
            _ => Some(-1),
        }
    }

    fn counter_times_gain(&self) -> (r: i32)
        ensures
            r == self.mod_counter * self.mod_gain,
            -0x8000 <= r <= 0x8000,
    {
        let counter: i32 = self.mod_counter as i32;
        let gain: i32 = self.mod_gain as i32;
        assert(-0x8000 <= counter * gain <= 0x8000) by (nonlinear_arith)
            requires
                -128 <= counter <= 127,
                0 <= gain <= 255,
        ;
        counter * gain
    }

    /// Modulated pitch of the wave unit.
    pub fn wave_pitch(&self) -> (r: u32)
        ensures
            r == pitch_of(self.mod_counter as int, self.mod_gain as int, self.freq as int),
    {
        reveal(pitch_of);
        let product: i32 = self.counter_times_gain();
        // A multiple of 4096 keeps the low twelve bits and makes the sum
        // positive.
        let mut temp: u32 = (product + 0x10000) as u32;
        proof {
            lemma_offset_keeps_bits(product as int);
            lemma_offset_keeps_bits(product + 0x400);
            lemma_offset_keeps_bits(product + 0x420);
        }
        if temp % 16 != 0 && (temp / 2048) % 2 == 0 {
            temp = temp + 0x20;
        }
        temp = ((temp + 0x400) / 16) % 256;
        let freq: u32 = self.freq as u32;
        assert(0 <= freq * temp <= 0xFF_FFFF) by (nonlinear_arith)
            requires
                0 <= freq <= 0xFFFF,
                0 <= temp <= 255,
        ;
        (freq * temp) % 0x10_0000
    }

    /// Advance the modulation and wave units by one 16-cycle tick.
    pub fn unit_tick(&mut self)
        requires
            old(self).wf(),
        ensures
            *final(self) == old(self).unit_ticked(),
            final(self).wf(),
    {
        self.mod_tick();
        self.wave_tick();
    }

    fn mod_tick(&mut self)
        ensures
            *final(self) == old(self).mod_ticked(),
    {
        if self.mod_disabled || self.mod_freq == 0 || self.env_fast {
            return ;
        }
        let sum: u32 = self.mod_acc as u32 + self.mod_freq as u32;
        self.mod_acc = (sum % 4096) as u16;
        if (sum / 4096) % 2 == 1 {
            let entry: u8 = self.mod_table[((self.mod_pos / 2) % 32) as usize];
            match Self::mod_increment(entry) {
                None => {
                    self.mod_counter = 0;
                },
                Some(d) => {
                    self.mod_counter = Self::add_signed7(self.mod_counter, d);
                },
            }
            self.mod_pos = ((self.mod_pos as u16 + 1) % 64) as u8;
        }
    }

    /// Sum of a counter and an increment, wrapped to seven bits.
    fn add_signed7(counter: i8, d: i8) -> (r: i8)
        ensures
            r == wrap7(counter + d),
    {
        reveal(wrap7);
        let next: u16 = (counter as i16 + d as i16 + 256) as u16;
        Self::to_signed7((next % 128) as u8)
    }

    fn wave_tick(&mut self)
        requires
            old(self).wf(),
        ensures
            *final(self) == old(self).wave_ticked(),
            final(self).wf(),
    {
        if self.freq != 0 && !self.env_fast {
            let pitch: u32 = self.wave_pitch();
            self.wave_acc = self.wave_acc.wrapping_add(pitch) % 0x100_0000;
            self.wave_pos = ((self.wave_acc / 0x4_0000) % 64) as u8;
        }
    }

    /// Step both envelopes by one CPU cycle.
    pub fn env_tick_one(&mut self)
        ensures
            *final(self) == old(self).env_ticked(),
            final(self).wave_pos == old(self).wave_pos,
            final(self).cycle_acc == old(self).cycle_acc,
    {
        if self.env_halt || self.master_env_speed == 0 {
            return ;
        }
        self.tick_volume_env();
        self.tick_mod_env();
    }

    fn tick_volume_env(&mut self)
        ensures
            *final(self) == old(self).vol_env_ticked(),
            final(self).wave_pos == old(self).wave_pos,
            final(self).cycle_acc == old(self).cycle_acc,
    {
        if self.vol_env_disabled {
            return ;
        }
        let period: u32 = self.vol_env_period();
        if period != 0 {
            let (timer, fires) = step_timer(self.vol_env_timer, period);
            if fires {
                self.step_volume_env();
            }
            self.vol_env_timer = timer;
        }
    }

    fn tick_mod_env(&mut self)
        ensures
            *final(self) == old(self).mod_env_ticked(),
            final(self).wave_pos == old(self).wave_pos,
            final(self).cycle_acc == old(self).cycle_acc,
    {
        if self.mod_env_disabled {
            return ;
        }
        let period: u32 = self.mod_env_period();
        if period != 0 {
            let (timer, fires) = step_timer(self.mod_env_timer, period);
            if fires {
                self.step_mod_env();
            }
            self.mod_env_timer = timer;
        }
    }

    /// One ramp step of the volume envelope.
    pub fn step_volume_env(&mut self)
        ensures
            *final(self) == old(self).vol_stepped(),
    {
        let cur: u8 = match self.vol_pending {
            Some(g) => g,
            None => self.volume,
        };
        let next: u8 = if self.vol_env_increase {
            if cur < 32 {
                cur + 1
            } else {
                cur
            }
        } else if cur > 0 {
            cur - 1
        } else {
            cur
        };
        if next != cur {
            self.set_volume_gain(next);
        }
    }

    /// One ramp step of the mod envelope.
    pub fn step_mod_env(&mut self)
        ensures
            *final(self) == (Fds {
                mod_gain: ramped(old(self).mod_gain, old(self).mod_env_increase),
                ..*old(self)
            }),
    {
        if self.mod_env_increase {
            if self.mod_gain < 32 {
                self.mod_gain = self.mod_gain + 1;
            }
        } else if self.mod_gain > 0 {
            self.mod_gain = self.mod_gain - 1;
        }
    }

    /// Advance the unit by `cycles` CPU cycles.
    pub fn tick(&mut self, cycles: u32)
        requires
            old(self).wf(),
        ensures
            *final(self) == old(self).ticked(cycles as nat),
            final(self).wf(),
    {
        if !self.sound_enabled {
            proof {
                self.lemma_disabled_sound_stands_still(cycles as nat);
            }
            return ;
        }
        for i in 0..cycles
            invariant
                *self == old(self).ticked(i as nat),
                self.wf(),
                self.sound_enabled,
        {
            self.tick_one();
        }
    }

    /// Advance the unit by one CPU cycle.
    fn tick_one(&mut self)
        requires
            old(self).wf(),
            old(self).sound_enabled,
        ensures
            *final(self) == old(self).cycle(),
            final(self).wf(),
            final(self).sound_enabled,
    {
        reveal(Fds::cycle);
        self.env_tick_one();
        self.cycle_acc = self.cycle_acc + 1;
        if self.cycle_acc >= 16 {
            self.cycle_acc = self.cycle_acc - 16;
            self.unit_tick();
            self.commit_pending_volume();
        }
    }

    /// The three numbers that make up the output: the signed sample under the
    /// wave position, the volume gain up to 32, and the master divisor.
    pub fn output(&self) -> (r: (i32, u8, u8))
        requires
            self.wf(),
        ensures
            r.0 == self.wave[self.wave_pos as int] - 32,
            r.1 == (if self.volume < 32 { self.volume } else { 32 }),
            r.2 == (if self.master_volume_div < 3 { self.master_volume_div + 1 } else { 4 }),
    {
        let s: i32 = self.wave[self.wave_pos as usize] as i32 - 32;
        let div: u8 = match self.master_volume_div {
            0 => 1,
            1 => 2,
            2 => 3,
            _ => 4,
        };
        let v: u8 = if self.volume < 32 { self.volume } else { 32 };
        (s, v, div)
    }

    /// With the master sound bit clear nothing moves.
    pub proof fn lemma_disabled_sound_stands_still(self, n: nat)
        requires
            !self.sound_enabled,
        ensures
            self.ticked(n) == self,
        decreases n,
    {
        reveal(Fds::cycle);
        if n > 0 {
            self.lemma_disabled_sound_stands_still((n - 1) as nat);
        }
    }

    /// The state after a stretch of time does not depend on how the time is
    /// cut into batches.
    pub proof fn lemma_ticks_split(self, a: nat, b: nat)
        ensures
            self.ticked(a + b) == self.ticked(a).ticked(b),
        decreases b,
    {
        if b > 0 {
            self.lemma_ticks_split(a, (b - 1) as nat);
            assert((a + b - 1) as nat == a + (b - 1) as nat);
        }
    }

    /// Whether the fields are within their ranges.
    pub fn is_well_formed(&self) -> (r: bool)
        ensures
            r == self.wf(),
    {
        self.wave_pos < 64 && self.cycle_acc < 16
    }
}

impl Default for Fds {
    fn default() -> (r: Self)
        ensures
            r.power_on(),
    {
        Self::new()
    }
}

} // verus!
