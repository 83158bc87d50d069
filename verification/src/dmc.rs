//! The APU delta modulation channel: a one-bit sample stream, fetched byte by
//! byte over the CPU bus, that moves a 7-bit level.
use vstd::prelude::*;

verus! {

/// CPU cycles that the first fetch of a sample steals when it is not delayed.
pub const DMC_DMA_LOAD_STALL_CYCLES: u32 = 3;

/// CPU cycles that every later fetch steals when it is not delayed.
pub const DMC_DMA_RELOAD_STALL_CYCLES: u32 = 4;

/// A flat estimate of the cycles per fetch, kept for callers that do not tell
/// the two kinds apart.
pub const DMC_DMA_STALL_CYCLES: u32 = 4;

/// CPU cycles per output bit, NTSC.
pub const DMC_RATE_NTSC: [u16; 16] = [
    428, 380, 340, 320, 286, 254, 226, 214, 190, 160, 142, 128, 106, 84, 72, 54,
];

/// CPU cycles per output bit, PAL.
pub const DMC_RATE_PAL: [u16; 16] = [
    398, 354, 316, 298, 276, 236, 210, 198, 176, 148, 132, 118, 98, 78, 66, 50,
];

#[derive(Clone, Copy, Debug, PartialEq, Eq, Structural)]
pub struct DmcChannel {
    pub enabled: bool,
    pub irq_enable: bool,
    pub loop_flag: bool,
    pub rate_index: u8,
    /// 7-bit output level.
    pub dac: u8,
    pub sample_addr_seed: u16,
    pub sample_len_seed: u16,
    pub current_addr: u16,
    pub bytes_remaining: u16,
    pub sample_buffer: u8,
    pub sample_buffer_filled: bool,
    pub output_shift: u8,
    pub output_bits: u8,
    pub output_silence: bool,
    pub timer: u16,
    pub timer_period: u16,
    /// A fetch is needed and nobody has taken it up yet.
    pub pending_fetch: bool,
    pub pending_fetch_addr: u16,
    /// A fetch has been taken up and its byte has not arrived yet.
    pub fetch_in_flight: bool,
    pub last_fetch_addr: u16,
    /// The last byte of the sample has just moved into the shift register.
    pub implicit_stop_event: bool,
    /// The next fetch is the first of a sample.
    pub next_fetch_is_load: bool,
    pub pending_fetch_is_load: bool,
    pub irq_flag: bool,
}

/// CPU cycles per output bit for a selector.
pub open spec fn rate_of(rate_index: u8, pal: bool) -> u16 {
    if pal {
        DMC_RATE_PAL[(rate_index & 0x0F) as int]
    } else {
        DMC_RATE_NTSC[(rate_index & 0x0F) as int]
    }
}

impl DmcChannel {
    /// The output unit starts silent, at the beginning of an output cycle.
    pub open spec fn power_on() -> Self {
        DmcChannel {
            enabled: false,
            irq_enable: false,
            loop_flag: false,
            rate_index: 0,
            dac: 0,
            sample_addr_seed: 0,
            sample_len_seed: 0,
            current_addr: 0,
            bytes_remaining: 0,
            sample_buffer: 0,
            sample_buffer_filled: false,
            output_shift: 0,
            output_bits: 8,
            output_silence: true,
            timer: 0,
            timer_period: 0,
            pending_fetch: false,
            pending_fetch_addr: 0,
            fetch_in_flight: false,
            last_fetch_addr: 0,
            implicit_stop_event: false,
            next_fetch_is_load: false,
            pending_fetch_is_load: false,
            irq_flag: false,
        }
    }

    pub open spec fn with_control(self, value: u8, pal: bool) -> Self {
        DmcChannel {
            irq_enable: value & 0x80 != 0,
            loop_flag: value & 0x40 != 0,
            rate_index: value & 0x0F,
            timer_period: rate_of(value & 0x0F, pal),
            irq_flag: self.irq_flag && value & 0x80 != 0,
            ..self
        }
    }

    /// The sample counters back at the start of the sample.
    pub open spec fn restarted(self) -> Self {
        DmcChannel {
            current_addr: self.sample_addr_seed,
            bytes_remaining: self.sample_len_seed,
            ..self
        }
    }

    /// Effect of the enable bit: off drops the rest of the sample and a fetch
    /// that nobody has taken up; on starts the sample over if it is finished,
    /// and a fetch into an empty buffer is then the first of a sample.
    pub open spec fn with_enabled(self, on: bool) -> Self {
        let s = DmcChannel { enabled: on, ..self };
        if !on {
            DmcChannel {
                bytes_remaining: 0,
                next_fetch_is_load: false,
                pending_fetch: false,
                ..s
            }
        } else if self.bytes_remaining == 0 {
            DmcChannel {
                next_fetch_is_load: self.next_fetch_is_load || (!self.sample_buffer_filled
                    && !self.pending_fetch),
                ..s.restarted()
            }
        } else {
            s
        }
    }

    /// Level after one output bit: two up for a one and two down for a zero,
    /// staying within 0 to 127; no change while silent.
    pub open spec fn dac_next(self) -> u8 {
        if self.output_silence {
            self.dac
        } else if self.output_shift & 0x01 != 0 {
            if self.dac <= 125 { (self.dac + 2) as u8 } else { self.dac }
        } else {
            if self.dac >= 2 { (self.dac - 2) as u8 } else { self.dac }
        }
    }

    /// The buffer moves into the shift register; an empty buffer makes the
    /// output unit silent.
    pub open spec fn output_cycle_started(self) -> Self {
        if !self.sample_buffer_filled {
            DmcChannel { output_silence: true, ..self }
        } else {
            DmcChannel {
                output_silence: false,
                output_shift: self.sample_buffer,
                sample_buffer_filled: false,
                implicit_stop_event: self.implicit_stop_event || (self.bytes_remaining == 0
                    && self.enabled),
                ..self
            }
        }
    }

    /// State after one output bit. An output cycle has eight bits.
    pub open spec fn bit_shifted(self) -> Self {
        let s = DmcChannel { dac: self.dac_next(), output_shift: self.output_shift >> 1, ..self };
        if self.output_bits > 1 {
            DmcChannel { output_bits: (self.output_bits - 1) as u8, ..s }
        } else {
            (DmcChannel { output_bits: 8, ..s }).output_cycle_started()
        }
    }

    /// A fetch is armed when the buffer is empty, bytes remain and no fetch is
    /// under way.
    pub open spec fn fetch_armed(self) -> Self {
        if !self.sample_buffer_filled && self.bytes_remaining > 0 && !self.pending_fetch
            && !self.fetch_in_flight {
            DmcChannel {
                pending_fetch: true,
                pending_fetch_addr: self.current_addr,
                pending_fetch_is_load: self.next_fetch_is_load,
                next_fetch_is_load: false,
                ..self
            }
        } else {
            self
        }
    }

    /// State after one CPU cycle.
    pub open spec fn cycle(self) -> Self {
        let s = if self.timer == 0 {
            (DmcChannel { timer: self.timer_period.saturating_sub(1), ..self }).bit_shifted()
        } else {
            DmcChannel { timer: (self.timer - 1) as u16, ..self }
        };
        s.fetch_armed()
    }

    /// State after `n` CPU cycles.
    pub open spec fn ticked(self, n: nat) -> Self
        decreases n,
    {
        if n == 0 {
            self
        } else {
            self.ticked((n - 1) as nat).cycle()
        }
    }

    /// State after a fetched byte arrives: the address moves on, from the top
    /// of memory to `$8000`; after the last byte the sample loops or raises
    /// the interrupt, as far as either is on.
    pub open spec fn supplied(self, byte: u8) -> Self {
        let left = if self.bytes_remaining > 0 { (self.bytes_remaining - 1) as u16 } else { 0 };
        let s = DmcChannel {
            pending_fetch: false,
            fetch_in_flight: false,
            sample_buffer: byte,
            sample_buffer_filled: true,
            current_addr: if self.current_addr == 0xFFFF {
                0x8000
            } else {
                (self.current_addr + 1) as u16
            },
            bytes_remaining: left,
            ..self
        };
        if left > 0 {
            s
        } else if self.loop_flag {
            s.restarted()
        } else {
            DmcChannel { irq_flag: self.irq_flag || self.irq_enable, ..s }
        }
    }

    /// The fetch that waits to be taken up: its address and the cycles that it
    /// steals when not delayed.
    pub open spec fn fetch_wanted(self) -> Option<(u16, u32)> {
        if self.pending_fetch {
            Some(
                (
                    self.pending_fetch_addr,
                    if self.pending_fetch_is_load {
                        DMC_DMA_LOAD_STALL_CYCLES
                    } else {
                        DMC_DMA_RELOAD_STALL_CYCLES
                    },
                ),
            )
        } else {
            None
        }
    }

    /// The fetch that waits is taken up.
    pub open spec fn fetch_taken(self) -> Self {
        if self.pending_fetch {
            DmcChannel {
                pending_fetch: false,
                fetch_in_flight: true,
                last_fetch_addr: self.pending_fetch_addr,
                ..self
            }
        } else {
            self
        }
    }

    pub fn new() -> (r: Self)
        ensures
            r == Self::power_on(),
    {
        DmcChannel {
            enabled: false,
            irq_enable: false,
            loop_flag: false,
            rate_index: 0,
            dac: 0,
            sample_addr_seed: 0,
            sample_len_seed: 0,
            current_addr: 0,
            bytes_remaining: 0,
            sample_buffer: 0,
            sample_buffer_filled: false,
            output_shift: 0,
            output_bits: 8,
            output_silence: true,
            timer: 0,
            timer_period: 0,
            pending_fetch: false,
            pending_fetch_addr: 0,
            fetch_in_flight: false,
            last_fetch_addr: 0,
            implicit_stop_event: false,
            next_fetch_is_load: false,
            pending_fetch_is_load: false,
            irq_flag: false,
        }
    }

    /// CPU cycles per output bit for a selector.
    pub fn rate_for(rate_index: u8, pal: bool) -> (r: u16)
        ensures
            r == rate_of(rate_index, pal),
    {
        proof {
            crate::bits::lemma_byte_fields(rate_index);
        }
        let idx: usize = (rate_index & 0x0F) as usize;
        if pal {
            DMC_RATE_PAL[idx]
        } else {
            DMC_RATE_NTSC[idx]
        }
    }

    pub fn write_control(&mut self, value: u8, pal: bool)
        ensures
            *final(self) == old(self).with_control(value, pal),
    {
        self.irq_enable = value & 0x80 != 0;
        self.loop_flag = value & 0x40 != 0;
        self.rate_index = value & 0x0F;
        self.timer_period = Self::rate_for(self.rate_index, pal);
        if !self.irq_enable {
            self.irq_flag = false;
        }
    }

    pub fn write_dac(&mut self, value: u8)
        ensures
            *final(self) == (DmcChannel { dac: value & 0x7F, ..*old(self) }),
    {
        self.dac = value & 0x7F;
    }

    /// Samples start at `$C000` plus 64 times the value.
    pub fn write_addr(&mut self, value: u8)
        ensures
            *final(self) == (DmcChannel {
                sample_addr_seed: (0xC000 + 64 * value) as u16,
                ..*old(self)
            }),
    {
        self.sample_addr_seed = 0xC000 + 64 * value as u16;
    }

    /// Samples are 16 times the value plus one bytes long.
    pub fn write_len(&mut self, value: u8)
        ensures
            *final(self) == (DmcChannel {
                sample_len_seed: (16 * value + 1) as u16,
                ..*old(self)
            }),
    {
        self.sample_len_seed = 16 * value as u16 + 1;
    }

    pub fn restart_sample(&mut self)
        ensures
            *final(self) == old(self).restarted(),
    {
        self.current_addr = self.sample_addr_seed;
        self.bytes_remaining = self.sample_len_seed;
    }

    pub fn enable(&mut self, enable: bool)
        ensures
            *final(self) == old(self).with_enabled(enable),
    {
        self.enabled = enable;
        if !enable {
            self.bytes_remaining = 0;
            self.next_fetch_is_load = false;
            self.pending_fetch = false;
        } else if self.bytes_remaining == 0 {
            self.restart_sample();
            if !self.sample_buffer_filled && !self.pending_fetch {
                self.next_fetch_is_load = true;
            }
        }
    }

    /// Advance the channel by one CPU cycle.
    pub fn tick_one(&mut self)
        ensures
            *final(self) == old(self).cycle(),
    {
        if self.timer == 0 {
            self.timer = self.timer_period.saturating_sub(1);
            self.shift_one_bit();
        } else {
            self.timer = self.timer - 1;
        }
        if !self.sample_buffer_filled && self.bytes_remaining > 0 && !self.pending_fetch
            && !self.fetch_in_flight {
            self.pending_fetch = true;
            self.pending_fetch_addr = self.current_addr;
            self.pending_fetch_is_load = self.next_fetch_is_load;
            self.next_fetch_is_load = false;
        }
    }

    /// Put out one bit.
    pub fn shift_one_bit(&mut self)
        ensures
            *final(self) == old(self).bit_shifted(),
    {
        self.dac = self.next_level();
        self.output_shift = self.output_shift >> 1;
        if self.output_bits > 1 {
            self.output_bits = self.output_bits - 1;
        } else {
            self.output_bits = 8;
            self.start_output_cycle();
        }
    }

    /// The level after the next output bit.
    fn next_level(&self) -> (r: u8)
        ensures
            r == self.dac_next(),
    {
        if self.output_silence {
            return self.dac;
        }
        let bit_set = self.output_shift & 0x01 != 0;
        if bit_set && self.dac <= 125 {
            self.dac + 2
        } else if !bit_set && self.dac >= 2 {
            self.dac - 2
        } else {
            self.dac
        }
    }

    /// Move the buffer into the shift register, or fall silent.
    fn start_output_cycle(&mut self)
        ensures
            *final(self) == old(self).output_cycle_started(),
    {
        if !self.sample_buffer_filled {
            self.output_silence = true;
        } else {
            self.output_silence = false;
            self.output_shift = self.sample_buffer;
            self.sample_buffer_filled = false;
            if self.bytes_remaining == 0 && self.enabled {
                self.implicit_stop_event = true;
            }
        }
    }

    /// The fetch that waits to be taken up, if any.
    pub fn pending_fetch(&self) -> (r: Option<(u16, u32)>)
        ensures
            r == self.fetch_wanted(),
    {
        if self.pending_fetch {
            let stall: u32 = if self.pending_fetch_is_load {
                DMC_DMA_LOAD_STALL_CYCLES
            } else {
                DMC_DMA_RELOAD_STALL_CYCLES
            };
            Some((self.pending_fetch_addr, stall))
        } else {
            None
        }
    }

    /// Take up the fetch that waits: its address, and whether it is the first
    /// of a sample.
    pub fn take_fetch(&mut self) -> (r: Option<(u16, bool)>)
        ensures
            *final(self) == old(self).fetch_taken(),
            r == (if old(self).pending_fetch {
                Some((old(self).pending_fetch_addr, old(self).pending_fetch_is_load))
            } else {
                None
            }),
    {
        if self.pending_fetch {
            self.pending_fetch = false;
            self.fetch_in_flight = true;
            self.last_fetch_addr = self.pending_fetch_addr;
            Some((self.pending_fetch_addr, self.pending_fetch_is_load))
        } else {
            None
        }
    }

    /// Take the mark that the sample has just ended.
    pub fn take_implicit_stop(&mut self) -> (r: bool)
        ensures
            r == old(self).implicit_stop_event,
            *final(self) == (DmcChannel { implicit_stop_event: false, ..*old(self) }),
    {
        let r = self.implicit_stop_event;
        self.implicit_stop_event = false;
        r
    }

    /// Drop the fetch that is under way.
    pub fn cancel_fetch(&mut self)
        ensures
            *final(self) == (DmcChannel {
                fetch_in_flight: false,
                pending_fetch: false,
                ..*old(self)
            }),
    {
        self.fetch_in_flight = false;
        self.pending_fetch = false;
    }

    /// Fill the buffer with a byte that nobody asked for.
    pub fn fill_buffer(&mut self, byte: u8)
        ensures
            *final(self) == (DmcChannel {
                sample_buffer: byte,
                sample_buffer_filled: true,
                ..*old(self)
            }),
    {
        self.sample_buffer = byte;
        self.sample_buffer_filled = true;
    }

    /// Acknowledge the interrupt.
    pub fn clear_irq(&mut self)
        ensures
            *final(self) == (DmcChannel { irq_flag: false, ..*old(self) }),
    {
        self.irq_flag = false;
    }

    /// Take the rate of the other region.
    pub fn set_pal(&mut self, pal: bool)
        ensures
            *final(self) == (DmcChannel {
                timer_period: rate_of(old(self).rate_index, pal),
                ..*old(self)
            }),
    {
        self.timer_period = Self::rate_for(self.rate_index, pal);
    }

    /// Deliver a fetched byte.
    pub fn supply_byte(&mut self, byte: u8)
        ensures
            *final(self) == old(self).supplied(byte),
    {
        self.pending_fetch = false;
        self.fetch_in_flight = false;
        self.sample_buffer = byte;
        self.sample_buffer_filled = true;
        self.current_addr = if self.current_addr == 0xFFFF {
            0x8000
        } else {
            self.current_addr + 1
        };
        if self.bytes_remaining > 0 {
            self.bytes_remaining = self.bytes_remaining - 1;
        }
        if self.bytes_remaining == 0 {
            if self.loop_flag {
                self.restart_sample();
            } else if self.irq_enable {
                self.irq_flag = true;
            }
        }
    }

    /// The level stays within seven bits.
    pub proof fn lemma_level_stays_in_range(self, n: nat)
        requires
            self.dac <= 127,
        ensures
            self.ticked(n).dac <= 127,
        decreases n,
    {
        if n > 0 {
            self.lemma_level_stays_in_range((n - 1) as nat);
        }
    }

    /// An idle channel never moves the level: with a silent output unit, an
    /// empty buffer and no bytes left, only the counters go round.
    pub proof fn lemma_silent_channel_keeps_level(self, n: nat)
        requires
            self.output_silence,
            !self.sample_buffer_filled,
            self.bytes_remaining == 0,
        ensures
            self.ticked(n).dac == self.dac,
            self.ticked(n).output_silence,
            !self.ticked(n).sample_buffer_filled,
            self.ticked(n).bytes_remaining == 0,
        decreases n,
    {
        if n > 0 {
            self.lemma_silent_channel_keeps_level((n - 1) as nat);
        }
    }

    /// The state does not depend on how the time is cut into batches.
    pub proof fn lemma_ticks_split(self, a: nat, b: nat)
        ensures
            self.ticked(a + b) == self.ticked(a).ticked(b),
        decreases b,
    {
        if b > 0 {
            self.lemma_ticks_split(a, (b - 1) as nat);
            assert((a + b - 1) as nat == a + (b - 1) as nat);
        }
    }
}

impl Default for DmcChannel {
    fn default() -> (r: Self)
        ensures
            r == DmcChannel::power_on(),
    {
        Self::new()
    }
}

} // verus!
