//! The 2A03 APU: five channels, the frame counter, the status register and
//! the expansion chips.
use vstd::prelude::*;
pub use crate::dmc::{
    DmcChannel, DMC_DMA_LOAD_STALL_CYCLES, DMC_DMA_RELOAD_STALL_CYCLES, DMC_DMA_STALL_CYCLES,
};
pub use crate::mixe_device;
use crate::expansion::Expansion;
use crate::header::ExpansionChips;
pub use crate::noise::NoiseChannel;
use crate::nsfe::NsfeMixerEntry;
pub use crate::pulse::PulseChannel;
pub use crate::triangle::TriangleChannel;

verus! {

pub const NTSC_CPU_HZ: u32 = 1_789_773;

/// Number of devices that the NSFe `mixe` chunk knows.
pub const MIXE_DEVICE_COUNT: usize = 8;

/// Mixing levels of the devices that a tune does not set, in hundredths of a
/// decibel relative to the APU squares.
pub const MIXE_DEFAULT_MILLIBELS: [i16; 8] = [0, -20, 0, 1100, 700, 0, 1100, -130];

/// CPU cycles from the start of the frame sequence to each of its events.
pub const NTSC_4: [u32; 6] = [7457, 14913, 22371, 29828, 29829, 29830];
pub const PAL_4: [u32; 6] = [8313, 16627, 24939, 33252, 33253, 33254];
pub const NTSC_5: [u32; 5] = [7457, 14913, 22371, 37281, 37282];
pub const PAL_5: [u32; 5] = [8313, 16627, 24939, 41565, 41566];

/// The longest frame sequence.
pub const MAX_FRAME: u32 = 41566;

/// One event of the frame sequence.
#[derive(Clone, Copy, Debug, PartialEq, Eq, Structural)]
pub struct FrameEvent {
    pub offset: u32,
    /// Clocks the envelopes and the linear counter.
    pub quarter: bool,
    /// Clocks the length counters and the sweep units.
    pub half: bool,
    /// Sets the frame interrupt flag.
    pub irq: bool,
}

/// The numbers that the analog mixer combines.
#[derive(Clone, Copy, Debug, PartialEq, Eq, Structural)]
pub struct ApuLevels {
    /// Sum of the two pulse levels, up to 30.
    pub pulses: u8,
    /// Triangle level in half steps, up to 30.
    pub triangle_halfsteps: u8,
    /// Noise level, up to 15.
    pub noise: u8,
    /// DMC level, up to 127.
    pub dmc: u8,
}

#[derive(Debug, PartialEq, Eq)]
pub struct Apu2A03 {
    pub cpu_hz: u32,
    pub pulse1: PulseChannel,
    pub pulse2: PulseChannel,
    pub triangle: TriangleChannel,
    pub noise: NoiseChannel,
    pub dmc: DmcChannel,
    /// `$4017` bit 7.
    pub five_step: bool,
    /// `$4017` bit 6.
    pub frame_irq_inhibit: bool,
    pub frame_irq_flag: bool,
    /// CPU cycles since the frame sequence started.
    pub frame_acc: u32,
    /// Next event of the frame sequence.
    pub frame_step: u8,
    pub pal: bool,
    /// CPU cycles since power-on; the low bit tells the halves of an APU cycle
    /// apart.
    pub total_cycles: u64,
    /// CPU cycles until a `$4017` write restarts the frame sequence.
    pub frame_reset_delay: Option<u32>,
    /// Odd CPU cycle left over by the divide-by-two prescaler of the pulses.
    pub pulse_prescaler_carry: u32,
    /// Mixing level of each device, in hundredths of a decibel.
    pub device_millibel: [i16; 8],
    pub expansion: Expansion,
}

/// Number of events in the frame sequence.
pub open spec fn events_len(five_step: bool) -> int {
    if five_step { 5 } else { 6 }
}

/// Event `i` of the frame sequence. Quarter frames come three times, the
/// second with a half frame, and once more with a half frame at the end. The
/// 4-step sequence sets the interrupt flag in its last three cycles; the last
/// event of either ends the sequence.
pub open spec fn event_at(five_step: bool, pal: bool, i: int) -> FrameEvent {
    let last_clock = if five_step { 3int } else { 4int };
    FrameEvent {
        offset: if five_step {
            if pal { PAL_5[i] } else { NTSC_5[i] }
        } else {
            if pal { PAL_4[i] } else { NTSC_4[i] }
        },
        quarter: i <= 2 || i == last_clock,
        half: i == 1 || i == last_clock,
        irq: !five_step && i >= 3,
    }
}

/// Every event comes after the start of the sequence and within its longest
/// form.
pub proof fn lemma_event_offsets(five_step: bool, pal: bool, i: int)
    requires
        0 <= i < events_len(five_step),
    ensures
        0 < event_at(five_step, pal, i).offset <= MAX_FRAME,
{
}

/// The cycle count `n` cycles on; it wraps.
pub open spec fn cycles_later(total: u64, n: nat) -> u64 {
    ((total + n) % 0x1_0000_0000_0000_0000) as u64
}

/// Mixing levels after the first `n` entries.
pub open spec fn levels_set(table: [i16; 8], entries: Seq<NsfeMixerEntry>, n: nat) -> [i16; 8]
    decreases n,
{
    if n == 0 {
        table
    } else {
        let t = levels_set(table, entries, (n - 1) as nat);
        let e = entries[n - 1];
        if e.device < 8 { crate::bits::put(t, e.device as int, e.millibel) } else { t }
    }
}

/// A write to one of the four registers of a pulse channel.
pub open spec fn pulse_written(c: PulseChannel, reg: int, value: u8) -> PulseChannel {
    if reg == 0 {
        c.with_main(value)
    } else if reg == 1 {
        c.with_sweep(value)
    } else if reg == 2 {
        c.with_period_lo(value)
    } else {
        c.with_period_hi(value)
    }
}

/// A write to one of the four registers of the triangle channel; the second
/// is unused.
pub open spec fn triangle_written(c: TriangleChannel, reg: int, value: u8) -> TriangleChannel {
    if reg == 0 {
        c.with_linear(value)
    } else if reg == 1 {
        c
    } else if reg == 2 {
        c.with_period_lo(value)
    } else {
        c.with_period_hi(value)
    }
}

/// A write to one of the four registers of the noise channel; the second is
/// unused.
pub open spec fn noise_written(c: NoiseChannel, reg: int, value: u8) -> NoiseChannel {
    if reg == 0 {
        c.with_main(value)
    } else if reg == 1 {
        c
    } else if reg == 2 {
        c.with_period(value)
    } else {
        c.with_length(value)
    }
}

/// A write to one of the four registers of the DMC.
pub open spec fn dmc_written(c: DmcChannel, reg: int, value: u8, pal: bool) -> DmcChannel {
    if reg == 0 {
        c.with_control(value, pal)
    } else if reg == 1 {
        DmcChannel { dac: value & 0x7F, ..c }
    } else if reg == 2 {
        DmcChannel { sample_addr_seed: (0xC000 + 64 * value) as u16, ..c }
    } else {
        DmcChannel { sample_len_seed: (16 * value + 1) as u16, ..c }
    }
}

fn write_pulse(c: &mut PulseChannel, reg: u16, value: u8)
    ensures
        *final(c) == pulse_written(*old(c), reg as int, value),
        old(c).wf() ==> final(c).wf(),
{
    match reg {
        0 => c.write_main(value),
        1 => c.write_sweep(value),
        2 => c.write_period_lo(value),
        _ => c.write_period_hi(value),
    }
}

fn write_triangle(c: &mut TriangleChannel, reg: u16, value: u8)
    ensures
        *final(c) == triangle_written(*old(c), reg as int, value),
        old(c).wf() ==> final(c).wf(),
{
    match reg {
        0 => c.write_linear(value),
        1 => {},
        2 => c.write_period_lo(value),
        _ => c.write_period_hi(value),
    }
}

fn write_noise(c: &mut NoiseChannel, reg: u16, value: u8)
    ensures
        *final(c) == noise_written(*old(c), reg as int, value),
        old(c).wf() ==> final(c).wf(),
{
    match reg {
        0 => c.write_main(value),
        1 => {},
        2 => c.write_period(value),
        _ => c.write_length(value),
    }
}

fn write_dmc(c: &mut DmcChannel, reg: u16, value: u8, pal: bool)
    ensures
        *final(c) == dmc_written(*old(c), reg as int, value, pal),
{
    match reg {
        0 => c.write_control(value, pal),
        1 => c.write_dac(value),
        2 => c.write_addr(value),
        _ => c.write_len(value),
    }
}

impl Apu2A03 {
    /// State after power-on.
    pub open spec fn power_on(self) -> bool {
        &&& self.cpu_hz == NTSC_CPU_HZ
        &&& self.pulse1 == PulseChannel::power_on(false)
        &&& self.pulse2 == PulseChannel::power_on(true)
        &&& self.triangle == TriangleChannel::power_on()
        &&& self.noise == NoiseChannel::power_on()
        &&& self.dmc == DmcChannel::power_on()
        &&& !self.five_step && !self.frame_irq_inhibit && !self.frame_irq_flag
        &&& self.frame_acc == 0 && self.frame_step == 0
        &&& !self.pal
        &&& self.total_cycles == 0
        &&& self.frame_reset_delay is None
        &&& self.pulse_prescaler_carry == 0
        &&& self.device_millibel == MIXE_DEFAULT_MILLIBELS
        &&& self.expansion.power_on()
    }

    #[verifier::opaque]
    pub open spec fn wf(self) -> bool {
        &&& self.pulse1.wf()
        &&& self.pulse2.wf()
        &&& self.triangle.wf()
        &&& self.noise.wf()
        &&& self.frame_acc < MAX_FRAME
        &&& self.pulse_prescaler_carry <= 1
        &&& self.expansion.wf()
    }

    #[verifier::opaque]
    pub open spec fn with_cpu_hz(self, hz: u32) -> Self {
        let pal = hz < 1_700_000;
        Apu2A03 {
            cpu_hz: hz,
            pal,
            dmc: DmcChannel {
                timer_period: crate::dmc::rate_of(self.dmc.rate_index, pal),
                ..self.dmc
            },
            noise: self.noise.with_pal(pal),
            ..self
        }
    }

    /// State after a write to one of the channel registers.
    #[verifier::opaque]
    pub open spec fn register_written(self, addr: u16, value: u8) -> Self {
        if 0x4000 <= addr < 0x4004 {
            Apu2A03 { pulse1: pulse_written(self.pulse1, addr - 0x4000, value), ..self }
        } else if 0x4004 <= addr < 0x4008 {
            Apu2A03 { pulse2: pulse_written(self.pulse2, addr - 0x4004, value), ..self }
        } else if 0x4008 <= addr < 0x400C {
            Apu2A03 { triangle: triangle_written(self.triangle, addr - 0x4008, value), ..self }
        } else if 0x400C <= addr < 0x4010 {
            Apu2A03 { noise: noise_written(self.noise, addr - 0x400C, value), ..self }
        } else if 0x4010 <= addr < 0x4014 {
            Apu2A03 { dmc: dmc_written(self.dmc, addr - 0x4010, value, self.pal), ..self }
        } else {
            self
        }
    }

    /// State after a `$4015` write as far as everything but the DMC enable
    /// goes: the DMC interrupt flag is cleared and a disabled channel loses
    /// its length count. The frame interrupt flag stays.
    #[verifier::opaque]
    pub open spec fn status_written_except_dmc(self, value: u8) -> Self {
        Apu2A03 {
            dmc: DmcChannel { irq_flag: false, ..self.dmc },
            pulse1: self.pulse1.with_enabled(value & 0x01 != 0),
            pulse2: self.pulse2.with_enabled(value & 0x02 != 0),
            triangle: self.triangle.with_enabled(value & 0x04 != 0),
            noise: self.noise.with_enabled(value & 0x08 != 0),
            ..self
        }
    }

    #[verifier::opaque]
    pub open spec fn with_dmc_enabled(self, on: bool) -> Self {
        Apu2A03 { dmc: self.dmc.with_enabled(on), ..self }
    }

    /// State after a `$4015` write.
    pub open spec fn status_written(self, value: u8) -> Self {
        self.status_written_except_dmc(value).with_dmc_enabled(value & 0x10 != 0)
    }

    /// Byte that a `$4015` read returns.
    #[verifier::opaque]
    pub open spec fn status_value(self) -> u8 {
        status_bits(
            self.pulse1.length.running(),
            self.pulse2.length.running(),
            self.triangle.length.running(),
            self.noise.length.running(),
            self.dmc.bytes_remaining > 0,
            self.frame_irq_flag,
            self.dmc.irq_flag,
        )
    }

    /// State after a `$4015` read.
    #[verifier::opaque]
    pub open spec fn status_read(self) -> Self {
        Apu2A03 { frame_irq_flag: false, ..self }
    }

    /// The expansion chips switched on and off.
    #[verifier::opaque]
    pub open spec fn expansion_set(self, flags: ExpansionChips) -> Self {
        Apu2A03 { expansion: self.expansion.with_flags(flags), ..self }
    }

    /// State after a write to the expansion chips.
    #[verifier::opaque]
    pub open spec fn expansion_written(self, addr: u16, value: u8) -> Self {
        Apu2A03 { expansion: self.expansion.written(addr, value), ..self }
    }

    /// State after a read from the expansion chips.
    #[verifier::opaque]
    pub open spec fn expansion_read(self, addr: u16) -> Self {
        Apu2A03 { expansion: self.expansion.after_read(addr), ..self }
    }

    /// State after the CPU has read program memory.
    #[verifier::opaque]
    pub open spec fn prg_observed(self, addr: u16, byte: u8) -> Self {
        Apu2A03 { expansion: self.expansion.observed(addr, byte), ..self }
    }

    /// A fetched byte arrives.
    #[verifier::opaque]
    pub open spec fn byte_supplied(self, byte: u8) -> Self {
        Apu2A03 { dmc: self.dmc.supplied(byte), ..self }
    }

    /// A byte arrives that the DMC did not ask for.
    #[verifier::opaque]
    pub open spec fn unexpected_byte_supplied(self, byte: u8) -> Self {
        Apu2A03 {
            dmc: DmcChannel { sample_buffer: byte, sample_buffer_filled: true, ..self.dmc },
            ..self
        }
    }

    /// The fetch that is under way is dropped.
    #[verifier::opaque]
    pub open spec fn fetch_cancelled(self) -> Self {
        Apu2A03 {
            dmc: DmcChannel { fetch_in_flight: false, pending_fetch: false, ..self.dmc },
            ..self
        }
    }

    /// The mark that a sample has ended is taken.
    #[verifier::opaque]
    pub open spec fn stop_taken(self) -> Self {
        Apu2A03 { dmc: DmcChannel { implicit_stop_event: false, ..self.dmc }, ..self }
    }

    /// Whether any source asserts the interrupt line.
    #[verifier::opaque]
    pub open spec fn irq_asserted(self) -> bool {
        self.frame_irq_flag || self.dmc.irq_flag || self.expansion.irq_asserted()
    }

    /// State after a `$4017` write: the mode and the inhibit bit apply at
    /// once, the restart of the sequence follows 3 cycles after a write on the
    /// second half of an APU cycle and 4 after one on the first half.
    #[verifier::opaque]
    pub open spec fn frame_written(self, value: u8) -> Self {
        Apu2A03 {
            five_step: value & 0x80 != 0,
            frame_irq_inhibit: value & 0x40 != 0,
            frame_irq_flag: self.frame_irq_flag && value & 0x40 == 0,
            frame_reset_delay: Some(if self.total_cycles % 2 == 1 { 3 } else { 4 }),
            ..self
        }
    }

    /// Whether a DMC fetch is under way or can still come.
    pub open spec fn dmc_busy(self) -> bool {
        self.dmc.pending_fetch || self.dmc.fetch_in_flight || (self.dmc.enabled && (
        self.dmc.bytes_remaining > 0 || self.dmc.sample_buffer_filled))
    }

    /// The fetch that waits is taken up.
    #[verifier::opaque]
    pub open spec fn fetch_taken(self) -> Self {
        Apu2A03 { dmc: self.dmc.fetch_taken(), ..self }
    }

    /// Envelopes and linear counter.
    pub open spec fn quarter_clocked(self) -> Self {
        Apu2A03 {
            pulse1: PulseChannel { envelope: self.pulse1.envelope.clocked(), ..self.pulse1 },
            pulse2: PulseChannel { envelope: self.pulse2.envelope.clocked(), ..self.pulse2 },
            noise: NoiseChannel { envelope: self.noise.envelope.clocked(), ..self.noise },
            triangle: self.triangle.linear_clocked(),
            ..self
        }
    }

    /// Length counters and sweep units.
    pub open spec fn half_clocked(self) -> Self {
        Apu2A03 {
            pulse1: (PulseChannel {
                length: self.pulse1.length.clocked(),
                ..self.pulse1
            }).sweep_clocked(),
            pulse2: (PulseChannel {
                length: self.pulse2.length.clocked(),
                ..self.pulse2
            }).sweep_clocked(),
            triangle: TriangleChannel {
                length: self.triangle.length.clocked(),
                ..self.triangle
            },
            noise: NoiseChannel { length: self.noise.length.clocked(), ..self.noise },
            ..self
        }
    }

    /// The clocks and the interrupt flag of one event.
    #[verifier::opaque]
    pub open spec fn event_applied(self, e: FrameEvent) -> Self {
        let q = if e.quarter { self.quarter_clocked() } else { self };
        let h = if e.half { q.half_clocked() } else { q };
        Apu2A03 {
            frame_irq_flag: self.frame_irq_flag || (e.irq && !self.frame_irq_inhibit),
            ..h
        }
    }

    /// One event of the sequence, and the move to the next one; the last event
    /// starts the sequence over.
    pub open spec fn event_done(self) -> Self {
        let e = event_at(self.five_step, self.pal, self.frame_step as int);
        let s = self.event_applied(e);
        if self.frame_step == events_len(self.five_step) - 1 {
            Apu2A03 { frame_acc: (self.frame_acc - e.offset) as u32, frame_step: 0, ..s }
        } else {
            Apu2A03 { frame_acc: self.frame_acc, frame_step: (self.frame_step + 1) as u8, ..s }
        }
    }

    /// All events that are due. A position behind the end of the sequence,
    /// which a change of mode can leave, starts the sequence over.
    #[verifier::opaque]
    pub open spec fn events_fired(self) -> Self
        decreases self.frame_acc, 6 - self.frame_step,
    {
        if self.frame_step >= events_len(self.five_step) {
            Apu2A03 { frame_acc: 0, frame_step: 0, ..self }
        } else if self.frame_acc < event_at(
            self.five_step,
            self.pal,
            self.frame_step as int,
        ).offset {
            self
        } else {
            proof {
                lemma_event_offsets(self.five_step, self.pal, self.frame_step as int);
            }
            self.event_done().events_fired()
        }
    }

    /// The channel timers and the expansion chips over one CPU cycle.
    #[verifier::opaque]
    pub open spec fn timers_cycle(self) -> Self {
        let fed = self.pulse_prescaler_carry == 1;
        Apu2A03 {
            pulse_prescaler_carry: if fed { 0 } else { 1 },
            pulse1: if fed { self.pulse1.timer_clocked() } else { self.pulse1 },
            pulse2: if fed { self.pulse2.timer_clocked() } else { self.pulse2 },
            noise: self.noise.timer_clocked(),
            triangle: self.triangle.timer_clocked(),
            dmc: self.dmc.cycle(),
            expansion: self.expansion.ticked(1),
            ..self
        }
    }

    /// The channel timers and the expansion chips over `n` CPU cycles.
    pub open spec fn timers_run(self, n: nat) -> Self
        decreases n,
    {
        if n == 0 {
            self
        } else {
            self.timers_run((n - 1) as nat).timers_cycle()
        }
    }

    /// The frame sequence starts over; the 5-step mode clocks everything once.
    #[verifier::opaque]
    pub open spec fn sequence_restarted(self) -> Self {
        let s = Apu2A03 { frame_reset_delay: None, frame_acc: 0, frame_step: 0, ..self };
        if self.five_step { s.quarter_clocked().half_clocked() } else { s }
    }

    /// The same state at another point of the frame sequence.
    #[verifier::opaque]
    pub open spec fn at_frame(self, acc: u32, total: u64, delay: Option<u32>) -> Self {
        Apu2A03 { frame_acc: acc, total_cycles: total, frame_reset_delay: delay, ..self }
    }

    /// The restart that a `$4017` write asked for, `n` cycles on: it happens
    /// when it is due.
    pub open spec fn reset_counted(self, n: nat) -> Self {
        match self.frame_reset_delay {
            None => self,
            Some(d) => if d <= n {
                self.sequence_restarted()
            } else {
                self.at_frame(self.frame_acc, self.total_cycles, Some((d - n) as u32))
            },
        }
    }

    /// Time moved on by `n` cycles.
    pub open spec fn time_passed(self, n: nat) -> Self {
        self.at_frame(
            (self.frame_acc + n) as u32,
            cycles_later(self.total_cycles, n),
            self.frame_reset_delay,
        )
    }

    /// One CPU cycle: the timers, then the frame sequence.
    pub open spec fn cycle(self) -> Self {
        self.timers_cycle().time_passed(1).reset_counted(1).events_fired()
    }

    /// State after `n` CPU cycles.
    pub open spec fn ticked(self, n: nat) -> Self
        decreases n,
    {
        if n == 0 {
            self
        } else {
            self.ticked((n - 1) as nat).cycle()
        }
    }

    pub fn new() -> (r: Self)
        ensures
            r.power_on(),
            r.wf(),
    {
        reveal(Apu2A03::wf);
        Apu2A03 {
            cpu_hz: NTSC_CPU_HZ,
            pulse1: PulseChannel::new(false),
            pulse2: PulseChannel::new(true),
            triangle: TriangleChannel::new(),
            noise: NoiseChannel::new(),
            dmc: DmcChannel::new(),
            five_step: false,
            frame_irq_inhibit: false,
            frame_irq_flag: false,
            frame_acc: 0,
            frame_step: 0,
            pal: false,
            total_cycles: 0,
            frame_reset_delay: None,
            pulse_prescaler_carry: 0,
            device_millibel: MIXE_DEFAULT_MILLIBELS,
            expansion: Expansion::new(),
        }
    }

    /// Mixing levels of the devices that a tune does not set, in hundredths of
    /// a decibel.
    pub fn default_device_gains() -> (r: [i16; 8])
        ensures
            r == MIXE_DEFAULT_MILLIBELS,
    {
        MIXE_DEFAULT_MILLIBELS
    }

    /// Set the mixing levels that a tune names, in order; unknown devices are
    /// passed over.
    pub fn apply_mixe_overrides(&mut self, entries: &[NsfeMixerEntry])
        ensures
            *final(self) == (Apu2A03 {
                device_millibel: levels_set(
                    old(self).device_millibel,
                    entries@,
                    entries@.len(),
                ),
                ..*old(self)
            }),
            old(self).wf() ==> final(self).wf(),
    {
        reveal(Apu2A03::wf);
        for i in 0..entries.len()
            invariant
                *self == (Apu2A03 {
                    device_millibel: levels_set(old(self).device_millibel, entries@, i as nat),
                    ..*old(self)
                }),
        {
            let e = entries[i];
            if (e.device as usize) < MIXE_DEVICE_COUNT {
                self.device_millibel[e.device as usize] = e.millibel;
            }
        }
    }

    /// Current mixing levels, in hundredths of a decibel.
    pub fn device_gains(&self) -> (r: [i16; 8])
        ensures
            r == self.device_millibel,
    {
        self.device_millibel
    }

    /// Set the CPU clock; below 1.7 MHz the PAL tables apply.
    pub fn set_cpu_hz(&mut self, hz: u32)
        ensures
            *final(self) == old(self).with_cpu_hz(hz),
            old(self).wf() ==> final(self).wf(),
    {
        reveal(Apu2A03::wf);
        reveal(Apu2A03::with_cpu_hz);
        self.cpu_hz = hz;
        self.pal = hz < 1_700_000;
        self.dmc.set_pal(self.pal);
        self.noise.set_pal(self.pal);
    }

    pub fn set_expansion(&mut self, flags: ExpansionChips)
        ensures
            *final(self) == old(self).expansion_set(flags),
            old(self).wf() ==> final(self).wf(),
    {
        reveal(Apu2A03::expansion_set);
        reveal(Apu2A03::wf);
        self.expansion.set_flags(flags);
    }

    pub fn write_expansion(&mut self, addr: u16, value: u8)
        requires
            old(self).expansion.takes_write(addr),
        ensures
            *final(self) == old(self).expansion_written(addr, value),
            old(self).wf() ==> final(self).wf(),
    {
        reveal(Apu2A03::wf);
        reveal(Apu2A03::expansion_written);
        self.expansion.write(addr, value);
    }

    pub fn read_expansion(&mut self, addr: u16) -> (r: u8)
        requires
            old(self).expansion.takes_read(addr),
        ensures
            r == old(self).expansion.read_value(addr),
            *final(self) == old(self).expansion_read(addr),
            old(self).wf() ==> final(self).wf(),
    {
        reveal(Apu2A03::wf);
        reveal(Apu2A03::expansion_read);
        self.expansion.read(addr)
    }

    /// Hook for CPU reads of program memory.
    pub fn observe_prg_read(&mut self, addr: u16, byte: u8)
        ensures
            *final(self) == old(self).prg_observed(addr, byte),
            old(self).wf() ==> final(self).wf(),
    {
        reveal(Apu2A03::wf);
        reveal(Apu2A03::prg_observed);
        self.expansion.observe_prg_read(addr, byte);
    }

    /// The DMC fetch that waits to be taken up, if any.
    pub fn dmc_pending_fetch(&self) -> (r: Option<(u16, u32)>)
        ensures
            r == self.dmc.fetch_wanted(),
    {
        self.dmc.pending_fetch()
    }

    /// Deliver a fetched byte to the DMC.
    pub fn dmc_supply_byte(&mut self, byte: u8)
        ensures
            *final(self) == old(self).byte_supplied(byte),
            old(self).wf() ==> final(self).wf(),
    {
        reveal(Apu2A03::wf);
        reveal(Apu2A03::byte_supplied);
        self.dmc.supply_byte(byte);
    }

    /// Take up the DMC fetch that waits: its address, and whether it is the
    /// first of a sample.
    pub fn dmc_take_fetch(&mut self) -> (r: Option<(u16, bool)>)
        ensures
            *final(self) == old(self).fetch_taken(),
            !old(self).dmc.pending_fetch ==> *final(self) == *old(self),
            r == (if old(self).dmc.pending_fetch {
                Some((old(self).dmc.pending_fetch_addr, old(self).dmc.pending_fetch_is_load))
            } else {
                None
            }),
            old(self).wf() ==> final(self).wf(),
    {
        reveal(Apu2A03::wf);
        reveal(Apu2A03::fetch_taken);
        self.dmc.take_fetch()
    }

    /// Take the mark that a sample has just ended by itself.
    pub fn dmc_take_implicit_stop(&mut self) -> (r: bool)
        ensures
            r == old(self).dmc.implicit_stop_event,
            *final(self) == old(self).stop_taken(),
            old(self).wf() ==> final(self).wf(),
    {
        reveal(Apu2A03::wf);
        reveal(Apu2A03::stop_taken);
        self.dmc.take_implicit_stop()
    }

    /// Address of the last DMC fetch that was taken up.
    pub fn dmc_last_fetch_addr(&self) -> (r: u16)
        ensures
            r == self.dmc.last_fetch_addr,
    {
        self.dmc.last_fetch_addr
    }

    /// Drop a DMC fetch that will not be carried out.
    pub fn dmc_cancel_in_flight(&mut self)
        ensures
            *final(self) == old(self).fetch_cancelled(),
            old(self).wf() ==> final(self).wf(),
    {
        reveal(Apu2A03::wf);
        reveal(Apu2A03::fetch_cancelled);
        self.dmc.cancel_fetch();
    }

    /// Deliver a byte that the DMC did not ask for: it only fills the buffer.
    pub fn dmc_supply_unexpected_byte(&mut self, byte: u8)
        ensures
            *final(self) == old(self).unexpected_byte_supplied(byte),
            old(self).wf() ==> final(self).wf(),
    {
        reveal(Apu2A03::wf);
        reveal(Apu2A03::unexpected_byte_supplied);
        self.dmc.fill_buffer(byte);
    }

    /// Whether a DMC fetch is under way or can still come.
    pub fn dmc_activity_possible(&self) -> (r: bool)
        ensures
            r == self.dmc_busy(),
    {
        self.dmc.pending_fetch || self.dmc.fetch_in_flight || (self.dmc.enabled && (
        self.dmc.bytes_remaining > 0 || self.dmc.sample_buffer_filled))
    }

    pub fn is_pal(&self) -> (r: bool)
        ensures
            r == self.pal,
    {
        self.pal
    }

    pub fn cpu_hz(&self) -> (r: u32)
        ensures
            r == self.cpu_hz,
    {
        self.cpu_hz
    }

    /// Write to one of the channel registers.
    pub fn write_register(&mut self, addr: u16, value: u8)
        ensures
            *final(self) == old(self).register_written(addr, value),
            old(self).wf() ==> final(self).wf(),
    {
        reveal(Apu2A03::wf);
        reveal(Apu2A03::register_written);
        if addr < 0x4000 {
        } else if addr < 0x4004 {
            write_pulse(&mut self.pulse1, addr - 0x4000, value);
        } else if addr < 0x4008 {
            write_pulse(&mut self.pulse2, addr - 0x4004, value);
        } else if addr < 0x400C {
            write_triangle(&mut self.triangle, addr - 0x4008, value);
        } else if addr < 0x4010 {
            write_noise(&mut self.noise, addr - 0x400C, value);
        } else if addr < 0x4014 {
            write_dmc(&mut self.dmc, addr - 0x4010, value, self.pal);
        }
    }

    /// `$4015` write.
    pub fn write_status(&mut self, value: u8)
        ensures
            *final(self) == old(self).status_written(value),
            old(self).wf() ==> final(self).wf(),
    {
        reveal(Apu2A03::wf);
        self.write_status_except_dmc_enable(value);
        self.dmc_set_enabled(value & 0x10 != 0);
    }

    /// `$4015` write without the DMC enable.
    pub fn write_status_except_dmc_enable(&mut self, value: u8)
        ensures
            *final(self) == old(self).status_written_except_dmc(value),
            old(self).wf() ==> final(self).wf(),
    {
        reveal(Apu2A03::wf);
        reveal(Apu2A03::status_written_except_dmc);
        self.dmc.clear_irq();
        self.pulse1.set_enabled(value & 0x01 != 0);
        self.pulse2.set_enabled(value & 0x02 != 0);
        self.triangle.set_enabled(value & 0x04 != 0);
        self.noise.set_enabled(value & 0x08 != 0);
    }

    /// The DMC enable of a `$4015` write.
    pub fn dmc_set_enabled(&mut self, on: bool)
        ensures
            *final(self) == old(self).with_dmc_enabled(on),
            old(self).wf() ==> final(self).wf(),
    {
        reveal(Apu2A03::wf);
        reveal(Apu2A03::with_dmc_enabled);
        self.dmc.enable(on);
    }

    /// `$4015` read. It clears the frame interrupt flag, not that of the DMC.
    pub fn read_status(&mut self) -> (r: u8)
        ensures
            r == old(self).status_value(),
            *final(self) == old(self).status_read(),
            old(self).wf() ==> final(self).wf(),
    {
        reveal(Apu2A03::wf);
        reveal(Apu2A03::status_read);
        reveal(Apu2A03::status_value);
        let b0: u8 = if self.pulse1.length.active() { 0x01 } else { 0 };
        let b1: u8 = if self.pulse2.length.active() { 0x02 } else { 0 };
        let b2: u8 = if self.triangle.length.active() { 0x04 } else { 0 };
        let b3: u8 = if self.noise.length.active() { 0x08 } else { 0 };
        let b4: u8 = if self.dmc.bytes_remaining > 0 { 0x10 } else { 0 };
        let b6: u8 = if self.frame_irq_flag { 0x40 } else { 0 };
        let b7: u8 = if self.dmc.irq_flag { 0x80 } else { 0 };
        self.frame_irq_flag = false;
        b0 | b1 | b2 | b3 | b4 | b6 | b7
    }

    /// Whether the APU asserts the CPU interrupt line.
    pub fn irq_line(&self) -> (r: bool)
        ensures
            r == self.irq_asserted(),
    {
        reveal(Apu2A03::irq_asserted);
        self.frame_irq_flag || self.dmc.irq_flag || self.expansion.irq_line()
    }

    /// `$4017` write.
    pub fn write_frame_counter(&mut self, value: u8)
        ensures
            *final(self) == old(self).frame_written(value),
            old(self).wf() ==> final(self).wf(),
    {
        reveal(Apu2A03::wf);
        reveal(Apu2A03::frame_written);
        self.five_step = value & 0x80 != 0;
        self.frame_irq_inhibit = value & 0x40 != 0;
        if self.frame_irq_inhibit {
            self.frame_irq_flag = false;
        }
        self.frame_reset_delay = Some(if self.total_cycles % 2 == 1 { 3 } else { 4 });
    }

    /// Advance the APU by `cycles` CPU cycles.
    pub fn tick_cpu_cycles(&mut self, cycles: u32)
        requires
            old(self).wf(),
        ensures
            *final(self) == old(self).ticked(cycles as nat),
            final(self).wf(),
    {
        reveal(Apu2A03::wf);
        let mut remaining: u32 = cycles;
        while remaining > 0
            invariant
                remaining <= cycles,
                self.wf(),
                *self == old(self).ticked((cycles - remaining) as nat),
            decreases remaining,
        {
            let n: u32 = self.tick_to_next_event(remaining);
            proof {
                old(self).lemma_ticks_split((cycles - remaining) as nat, n as nat);
            }
            remaining = remaining - n;
        }
    }

    /// Advance the APU up to the next event of the frame sequence or restart,
    /// by `limit` cycles at the most; returns the cycles that passed.
    fn tick_to_next_event(&mut self, limit: u32) -> (n: u32)
        requires
            old(self).wf(),
            limit > 0,
        ensures
            1 <= n <= limit,
            *final(self) == old(self).ticked(n as nat),
            final(self).wf(),
    {
        reveal(Apu2A03::wf);
        let until: u32 = self.cycles_until_next_frame_event();
        let mut n: u32 = if until < limit { until } else { limit };
        if let Some(delay) = self.frame_reset_delay {
            if delay <= 1 {
                n = 1;
            } else if delay < n {
                n = delay;
            }
        }
        proof {
            self.lemma_batch(n as nat);
        }
        self.tick_batch(n);
        n
    }

    /// Advance the APU by `n` cycles, of which only the last may hold an event
    /// of the frame sequence.
    fn tick_batch(&mut self, n: u32)
        requires
            old(self).wf(),
            old(self).frame_acc + n <= MAX_FRAME,
        ensures
            *final(self) == old(self).timers_run(n as nat).time_passed(n as nat).reset_counted(
                n as nat,
            ).events_fired(),
            final(self).wf(),
    {
        reveal(Apu2A03::wf);
        proof {
            self.lemma_timers_keep_frame(n as nat);
        }
        self.advance_channel_timers(n);
        self.total_cycles = self.total_cycles.wrapping_add(n as u64);
        self.frame_acc = self.frame_acc + n;
        proof {
            reveal(Apu2A03::at_frame);
        }
        assert(*self == old(self).timers_run(n as nat).time_passed(n as nat));
        self.count_reset(n);
        self.process_due_frame_events();
    }

    fn count_reset(&mut self, n: u32)
        requires
            old(self).pulse1.wf(),
            old(self).pulse2.wf(),
            old(self).triangle.wf(),
            old(self).noise.wf(),
            old(self).expansion.wf(),
            old(self).pulse_prescaler_carry <= 1,
            old(self).frame_acc <= MAX_FRAME,
        ensures
            *final(self) == old(self).reset_counted(n as nat),
            final(self).pulse1.wf(),
            final(self).pulse2.wf(),
            final(self).triangle.wf(),
            final(self).noise.wf(),
            final(self).expansion.wf(),
            final(self).pulse_prescaler_carry <= 1,
            final(self).frame_acc <= MAX_FRAME,
    {
        reveal(Apu2A03::wf);
        reveal(Apu2A03::sequence_restarted);
        reveal(Apu2A03::at_frame);
        if let Some(delay) = self.frame_reset_delay {
            if delay <= n {
                self.frame_reset_delay = None;
                self.frame_acc = 0;
                self.frame_step = 0;
                if self.five_step {
                    self.tick_quarter_frame();
                    self.tick_half_frame();
                }
            } else {
                self.frame_reset_delay = Some(delay - n);
            }
        }
    }

    /// Run the channel timers and the expansion chips for `cycles` CPU cycles.
    pub fn advance_channel_timers(&mut self, cycles: u32)
        requires
            old(self).wf(),
            cycles < u32::MAX,
        ensures
            *final(self) == old(self).timers_run(cycles as nat),
            final(self).wf(),
    {
        reveal(Apu2A03::wf);
        let total: u32 = cycles + self.pulse_prescaler_carry;
        let pulse_cycles: u32 = total / 2;
        self.pulse_prescaler_carry = total % 2;
        self.pulse1.tick_timer(pulse_cycles);
        self.pulse2.tick_timer(pulse_cycles);
        self.noise.tick_timer(cycles);
        self.triangle.tick_timer(cycles);
        self.tick_dmc(cycles);
        self.expansion.tick(cycles);
        proof {
            old(self).lemma_timers_run(cycles as nat);
        }
    }

    fn tick_dmc(&mut self, cycles: u32)
        ensures
            *final(self) == (Apu2A03 { dmc: old(self).dmc.ticked(cycles as nat), ..*old(self) }),
    {
        for i in 0..cycles
            invariant
                *self == (Apu2A03 { dmc: old(self).dmc.ticked(i as nat), ..*old(self) }),
        {
            self.dmc.tick_one();
        }
    }

    /// CPU cycles until the next event of the frame sequence, at least 1.
    pub fn cycles_until_next_frame_event(&self) -> (r: u32)
        requires
            self.frame_acc < MAX_FRAME,
        ensures
            1 <= r,
            self.frame_acc + r <= MAX_FRAME,
            r > 1 ==> self.frame_step < events_len(self.five_step) && self.frame_acc + r
                == event_at(self.five_step, self.pal, self.frame_step as int).offset,
            r == 1 ==> self.frame_step >= events_len(self.five_step) || self.frame_acc + 1
                >= event_at(self.five_step, self.pal, self.frame_step as int).offset,
    {
        if self.frame_step as usize >= self.frame_event_count() {
            return 1;
        }
        let e = self.frame_event(self.frame_step);
        if e.offset > self.frame_acc + 1 {
            e.offset - self.frame_acc
        } else {
            1
        }
    }

    /// Fire every event of the frame sequence that is due.
    pub fn process_due_frame_events(&mut self)
        requires
            old(self).pulse1.wf(),
            old(self).pulse2.wf(),
            old(self).triangle.wf(),
            old(self).noise.wf(),
            old(self).expansion.wf(),
            old(self).pulse_prescaler_carry <= 1,
            old(self).frame_acc <= MAX_FRAME,
        ensures
            *final(self) == old(self).events_fired(),
            final(self).wf(),
            final(self).frame_step < events_len(final(self).five_step),
            final(self).frame_acc < event_at(
                final(self).five_step,
                final(self).pal,
                final(self).frame_step as int,
            ).offset,
    {
        reveal(Apu2A03::wf);
        reveal_with_fuel(Apu2A03::events_fired, 2);
        if self.frame_step as usize >= self.frame_event_count() {
            self.frame_step = 0;
            self.frame_acc = 0;
            proof {
                lemma_event_offsets(self.five_step, self.pal, 0);
            }
            return ;
        }
        loop
            invariant
                self.pulse1.wf(),
                self.pulse2.wf(),
                self.triangle.wf(),
                self.noise.wf(),
                self.expansion.wf(),
                self.pulse_prescaler_carry <= 1,
                self.frame_acc <= MAX_FRAME,
                self.frame_step < events_len(self.five_step),
                self.events_fired() == old(self).events_fired(),
            decreases self.frame_acc, 6 - self.frame_step,
        {
            reveal_with_fuel(Apu2A03::events_fired, 2);
            reveal(Apu2A03::wf);
            let e = self.frame_event(self.frame_step);
            if self.frame_acc < e.offset {
                return ;
            }
            self.finish_event(e);
        }
    }

    /// Fire one event that is due and move on to the next.
    fn finish_event(&mut self, e: FrameEvent)
        requires
            old(self).pulse1.wf(),
            old(self).pulse2.wf(),
            old(self).triangle.wf(),
            old(self).noise.wf(),
            old(self).frame_step < events_len(old(self).five_step),
            e == event_at(old(self).five_step, old(self).pal, old(self).frame_step as int),
            e.offset <= old(self).frame_acc,
        ensures
            *final(self) == old(self).event_done(),
            final(self).pulse1.wf(),
            final(self).pulse2.wf(),
            final(self).triangle.wf(),
            final(self).noise.wf(),
            final(self).expansion == old(self).expansion,
            final(self).pulse_prescaler_carry == old(self).pulse_prescaler_carry,
            final(self).five_step == old(self).five_step,
            final(self).pal == old(self).pal,
            final(self).frame_step < events_len(final(self).five_step),
            final(self).frame_acc <= old(self).frame_acc,
            final(self).frame_acc < old(self).frame_acc || (final(self).frame_acc == old(
                self,
            ).frame_acc && final(self).frame_step > old(self).frame_step),
    {
        reveal(Apu2A03::wf);
        reveal(Apu2A03::event_applied);
        proof {
            lemma_event_offsets(self.five_step, self.pal, self.frame_step as int);
        }
        if e.quarter {
            self.tick_quarter_frame();
        }
        if e.half {
            self.tick_half_frame();
        }
        if e.irq && !self.frame_irq_inhibit {
            self.frame_irq_flag = true;
        }
        if self.frame_step as usize == self.frame_event_count() - 1 {
            self.frame_acc = self.frame_acc - e.offset;
            self.frame_step = 0;
        } else {
            self.frame_step = self.frame_step + 1;
        }
    }

    /// Number of events in the frame sequence.
    pub fn frame_event_count(&self) -> (r: usize)
        ensures
            r == events_len(self.five_step),
    {
        if self.five_step {
            5
        } else {
            6
        }
    }

    /// Event `step` of the frame sequence of the current mode and region.
    pub fn frame_event(&self, step: u8) -> (e: FrameEvent)
        requires
            step < events_len(self.five_step),
        ensures
            e == event_at(self.five_step, self.pal, step as int),
            0 < e.offset <= MAX_FRAME,
    {
        proof {
            lemma_event_offsets(self.five_step, self.pal, step as int);
        }
        let i: usize = step as usize;
        let offset: u32 = match (self.five_step, self.pal) {
            (false, false) => NTSC_4[i],
            (false, true) => PAL_4[i],
            (true, false) => NTSC_5[i],
            (true, true) => PAL_5[i],
        };
        let last_clock: usize = if self.five_step { 3 } else { 4 };
        FrameEvent {
            offset,
            quarter: i <= 2 || i == last_clock,
            half: i == 1 || i == last_clock,
            irq: !self.five_step && i >= 3,
        }
    }

    fn tick_quarter_frame(&mut self)
        ensures
            *final(self) == old(self).quarter_clocked(),
            old(self).pulse1.wf() ==> final(self).pulse1.wf(),
            old(self).pulse2.wf() ==> final(self).pulse2.wf(),
            old(self).triangle.wf() ==> final(self).triangle.wf(),
            old(self).noise.wf() ==> final(self).noise.wf(),
    {
        reveal(Apu2A03::wf);
        self.pulse1.clock_envelope();
        self.pulse2.clock_envelope();
        self.noise.clock_envelope();
        self.triangle.clock_linear();
    }

    fn tick_half_frame(&mut self)
        requires
            old(self).pulse1.wf(),
            old(self).pulse2.wf(),
        ensures
            *final(self) == old(self).half_clocked(),
            final(self).pulse1.wf(),
            final(self).pulse2.wf(),
            old(self).triangle.wf() ==> final(self).triangle.wf(),
            old(self).noise.wf() ==> final(self).noise.wf(),
    {
        reveal(Apu2A03::wf);
        self.pulse1.clock_length();
        self.pulse1.clock_sweep();
        self.pulse2.clock_length();
        self.pulse2.clock_sweep();
        self.triangle.clock_length();
        self.noise.clock_length();
    }

    /// The numbers that the analog mixer combines.
    pub fn output_sample(&self) -> (r: ApuLevels)
        requires
            self.wf(),
        ensures
            r.pulses == self.pulse1.level() + self.pulse2.level(),
            r.triangle_halfsteps == self.triangle.level_halfsteps(),
            r.noise == self.noise.level(),
            r.dmc == self.dmc.dac,
    {
        reveal(Apu2A03::wf);
        ApuLevels {
            pulses: self.pulse1.output() + self.pulse2.output(),
            triangle_halfsteps: self.triangle.output_halfsteps(),
            noise: self.noise.output(),
            dmc: self.dmc.dac,
        }
    }

    /// Each timer on its own: the prescaler feeds half of the cycles to the
    /// pulses and keeps an odd one.
    pub proof fn lemma_timers_run(self, n: nat)
        requires
            self.pulse_prescaler_carry <= 1,
        ensures
            ({
                let total = n + self.pulse_prescaler_carry as nat;
                self.timers_run(n) == (Apu2A03 {
                    pulse_prescaler_carry: (total % 2) as u32,
                    pulse1: self.pulse1.timer_run(total / 2),
                    pulse2: self.pulse2.timer_run(total / 2),
                    noise: self.noise.timer_run(n),
                    triangle: self.triangle.timer_run(n),
                    dmc: self.dmc.ticked(n),
                    expansion: self.expansion.ticked(n),
                    ..self
                })
            }),
        decreases n,
    {
        if n == 0 {
            self.expansion.lemma_no_time();
        } else {
            let k = (n - 1) as nat;
            self.lemma_timers_run(k);
            reveal(Apu2A03::timers_cycle);
            self.expansion.lemma_ticks_split(k, 1);
            assert(k + 1 == n);
            let before = k + self.pulse_prescaler_carry as nat;
            let total = n + self.pulse_prescaler_carry as nat;
            if before % 2 == 1 {
                assert(total / 2 == before / 2 + 1);
                assert(self.pulse1.timer_run(total / 2) == self.pulse1.timer_run(
                    before / 2,
                ).timer_clocked());
                assert(self.pulse2.timer_run(total / 2) == self.pulse2.timer_run(
                    before / 2,
                ).timer_clocked());
            } else {
                assert(total / 2 == before / 2);
            }
        }
    }

    pub proof fn lemma_expansion_wf(self)
        ensures
            self.wf() ==> self.expansion.wf(),
    {
        reveal(Apu2A03::wf);
    }

    /// The state after a stretch of time does not depend on how the time is
    /// cut into batches.
    pub proof fn lemma_ticks_split(self, a: nat, b: nat)
        ensures
            self.ticked(a + b) == self.ticked(a).ticked(b),
        decreases b,
    {
        if b > 0 {
            self.lemma_ticks_split(a, (b - 1) as nat);
            assert((a + b - 1) as nat == a + (b - 1) as nat);
        }
    }

    /// What the bits of a `$4015` read say, and that a second read repeats the
    /// first but for the frame interrupt, which the first one acknowledged.
    pub proof fn lemma_status_read_again(self)
        ensures
            self.status_read().status_value() == self.status_value() & 0xBF,
            self.status_read().status_read() == self.status_read(),
            !self.status_read().frame_irq_flag,
            self.status_read().dmc == self.dmc,
            self.status_value() & 0x01 != 0 <==> self.pulse1.length.running(),
            self.status_value() & 0x02 != 0 <==> self.pulse2.length.running(),
            self.status_value() & 0x04 != 0 <==> self.triangle.length.running(),
            self.status_value() & 0x08 != 0 <==> self.noise.length.running(),
            self.status_value() & 0x10 != 0 <==> self.dmc.bytes_remaining > 0,
            self.status_value() & 0x20 == 0,
            self.status_value() & 0x40 != 0 <==> self.frame_irq_flag,
            self.status_value() & 0x80 != 0 <==> self.dmc.irq_flag,
    {
        reveal(Apu2A03::status_read);
        reveal(Apu2A03::status_value);
        lemma_status_bits(
            self.pulse1.length.running(),
            self.pulse2.length.running(),
            self.triangle.length.running(),
            self.noise.length.running(),
            self.dmc.bytes_remaining > 0,
            self.frame_irq_flag,
            self.dmc.irq_flag,
        );
    }

    /// Whether the fields are within their ranges.
    pub fn is_well_formed(&self) -> (r: bool)
        ensures
            r == self.wf(),
    {
        reveal(Apu2A03::wf);
        self.pulse1.is_well_formed() && self.pulse2.is_well_formed()
            && self.triangle.is_well_formed() && self.noise.is_well_formed()
            && self.frame_acc < MAX_FRAME && self.pulse_prescaler_carry <= 1
            && self.expansion.is_well_formed()
    }
}

impl Default for Apu2A03 {
    fn default() -> (r: Self)
        ensures
            r.power_on(),
    {
        Self::new()
    }
}

/// The bits of the status byte, made of seven flags.
pub open spec fn status_bits(
    p1: bool,
    p2: bool,
    tri: bool,
    noise: bool,
    dmc: bool,
    frame_irq: bool,
    dmc_irq: bool,
) -> u8 {
    (if p1 { 0x01u8 } else { 0u8 }) | (if p2 { 0x02u8 } else { 0u8 }) | (if tri {
        0x04u8
    } else {
        0u8
    }) | (if noise { 0x08u8 } else { 0u8 }) | (if dmc { 0x10u8 } else { 0u8 }) | (if frame_irq {
        0x40u8
    } else {
        0u8
    }) | (if dmc_irq { 0x80u8 } else { 0u8 })
}

proof fn lemma_status_bits(
    p1: bool,
    p2: bool,
    tri: bool,
    noise: bool,
    dmc: bool,
    frame_irq: bool,
    dmc_irq: bool,
)
    by (bit_vector)
    ensures
        status_bits(p1, p2, tri, noise, dmc, false, dmc_irq) == status_bits(
            p1,
            p2,
            tri,
            noise,
            dmc,
            frame_irq,
            dmc_irq,
        ) & 0xBF,
        (status_bits(p1, p2, tri, noise, dmc, frame_irq, dmc_irq) & 0x01 != 0) == p1,
        (status_bits(p1, p2, tri, noise, dmc, frame_irq, dmc_irq) & 0x02 != 0) == p2,
        (status_bits(p1, p2, tri, noise, dmc, frame_irq, dmc_irq) & 0x04 != 0) == tri,
        (status_bits(p1, p2, tri, noise, dmc, frame_irq, dmc_irq) & 0x08 != 0) == noise,
        (status_bits(p1, p2, tri, noise, dmc, frame_irq, dmc_irq) & 0x10 != 0) == dmc,
        status_bits(p1, p2, tri, noise, dmc, frame_irq, dmc_irq) & 0x20 == 0,
        (status_bits(p1, p2, tri, noise, dmc, frame_irq, dmc_irq) & 0x40 != 0) == frame_irq,
        (status_bits(p1, p2, tri, noise, dmc, frame_irq, dmc_irq) & 0x80 != 0) == dmc_irq,
{
}

} // verus!
