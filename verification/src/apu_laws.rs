//! What the registers of the APU do, stated on their addresses and bits, and
//! how the DMC plays a sample.
use vstd::prelude::*;
use crate::apu::{Apu2A03, FrameEvent};
use crate::dmc::DmcChannel;
use crate::envelope::Envelope;
use crate::length::LengthCounter;
use crate::noise::NoiseChannel;
use crate::pulse::PulseChannel;
use crate::triangle::TriangleChannel;

verus! {

/// What the four registers of a pulse channel make of it: duty, loop and halt,
/// constant volume, volume; the sweep; the period, low byte first; and the
/// length.
pub open spec fn pulse_set(
    old_channel: PulseChannel,
    c: PulseChannel,
    main: u8,
    sweep: u8,
    lo: u8,
    hi: u8,
) -> bool {
    c == (PulseChannel {
        duty: main / 64,
        duty_step: 0,
        timer_period: (lo + 0x100 * (hi % 8)) as u16,
        envelope: Envelope {
            start: true,
            loop_flag: main / 32 % 2 == 1,
            constant: main / 16 % 2 == 1,
            volume: main % 16,
            ..old_channel.envelope
        },
        length: LengthCounter {
            halt: main / 32 % 2 == 1,
            counter: if old_channel.enabled {
                crate::length::length_of(hi)
            } else {
                old_channel.length.counter
            },
        },
        sweep_enabled: sweep >= 128,
        sweep_period: sweep / 16 % 8,
        sweep_negate: sweep / 8 % 2 == 1,
        sweep_shift: sweep % 8,
        sweep_reload: true,
        ..old_channel
    })
}

proof fn lemma_pulse_set(c: PulseChannel, main: u8, sweep: u8, lo: u8, hi: u8)
    ensures
        pulse_set(
            c,
            c.with_main(main).with_sweep(sweep).with_period_lo(lo).with_period_hi(hi),
            main,
            sweep,
            lo,
            hi,
        ),
{
    crate::bits::lemma_byte_bits(main);
    crate::bits::lemma_byte_bits(sweep);
    crate::bits::lemma_word_bits(c.timer_period, lo, hi);
}

impl Apu2A03 {
    /// Four register writes in order.
    pub open spec fn four_written(self, at: u16, b0: u8, b1: u8, b2: u8, b3: u8) -> Self {
        self.register_written(at, b0).register_written((at + 1) as u16, b1).register_written(
            (at + 2) as u16,
            b2,
        ).register_written((at + 3) as u16, b3)
    }

    /// Registers `$4000..=$4003` set the first pulse channel and
    /// `$4004..=$4007` the second, and nothing else.
    #[verifier::spinoff_prover]
    pub proof fn lemma_pulse_registers(self, main: u8, sweep: u8, lo: u8, hi: u8)
        ensures
            ({
                let s = self.four_written(0x4000, main, sweep, lo, hi);
                &&& pulse_set(self.pulse1, s.pulse1, main, sweep, lo, hi)
                &&& s == (Apu2A03 { pulse1: s.pulse1, ..self })
            }),
            ({
                let s = self.four_written(0x4004, main, sweep, lo, hi);
                &&& pulse_set(self.pulse2, s.pulse2, main, sweep, lo, hi)
                &&& s == (Apu2A03 { pulse2: s.pulse2, ..self })
            }),
    {
        reveal(Apu2A03::register_written);
        lemma_pulse_set(self.pulse1, main, sweep, lo, hi);
        lemma_pulse_set(self.pulse2, main, sweep, lo, hi);
    }

    /// Registers `$4008..=$400B` set the triangle channel: the control and halt
    /// flag with the linear counter, the period, low byte first, and the length.
    #[verifier::spinoff_prover]
    pub proof fn lemma_triangle_registers(self, linear: u8, unused: u8, lo: u8, hi: u8)
        ensures
            self.four_written(0x4008, linear, unused, lo, hi) == (Apu2A03 {
                triangle: TriangleChannel {
                    control_flag: linear >= 128,
                    linear_reload_value: linear % 128,
                    linear_reload: true,
                    timer_period: (lo + 0x100 * (hi % 8)) as u16,
                    length: LengthCounter {
                        halt: linear >= 128,
                        counter: if self.triangle.enabled {
                            crate::length::length_of(hi)
                        } else {
                            self.triangle.length.counter
                        },
                    },
                    ..self.triangle
                },
                ..self
            }),
    {
        reveal(Apu2A03::register_written);
        crate::bits::lemma_byte_bits(linear);
        crate::bits::lemma_word_bits(self.triangle.timer_period, lo, hi);
    }

    /// Registers `$400C..=$400F` set the noise channel.
    #[verifier::spinoff_prover]
    pub proof fn lemma_noise_registers(self, main: u8, unused: u8, period: u8, length: u8)
        ensures
            self.four_written(0x400C, main, unused, period, length) == (Apu2A03 {
                noise: NoiseChannel {
                    envelope: Envelope {
                        start: true,
                        loop_flag: main / 32 % 2 == 1,
                        constant: main / 16 % 2 == 1,
                        volume: main % 16,
                        ..self.noise.envelope
                    },
                    length: LengthCounter {
                        halt: main / 32 % 2 == 1,
                        counter: if self.noise.enabled {
                            crate::length::length_of(length)
                        } else {
                            self.noise.length.counter
                        },
                    },
                    ..self.noise.with_period(period)
                },
                ..self
            }),
    {
        reveal(Apu2A03::register_written);
        crate::bits::lemma_byte_bits(main);
    }

    /// Registers `$4010..=$4013` set the DMC: interrupt and loop flags and the
    /// rate; the level; where the sample starts, from `$C000` on in steps of
    /// 64; and how long it is, from one byte on in steps of 16.
    #[verifier::spinoff_prover]
    pub proof fn lemma_dmc_registers(self, control: u8, level: u8, address: u8, length: u8)
        ensures
            ({
                let s = self.four_written(0x4010, control, level, address, length);
                let ntsc = seq![
                    428int, 380, 340, 320, 286, 254, 226, 214, 190, 160, 142, 128, 106, 84, 72, 54,
                ];
                let pal = seq![
                    398int, 354, 316, 298, 276, 236, 210, 198, 176, 148, 132, 118, 98, 78, 66, 50,
                ];
                &&& s == (Apu2A03 { dmc: s.dmc, ..self })
                &&& s.dmc == (DmcChannel {
                    irq_enable: control >= 128,
                    loop_flag: control / 64 % 2 == 1,
                    rate_index: control % 16,
                    timer_period: s.dmc.timer_period,
                    irq_flag: self.dmc.irq_flag && control >= 128,
                    dac: level % 128,
                    sample_addr_seed: s.dmc.sample_addr_seed,
                    sample_len_seed: s.dmc.sample_len_seed,
                    ..self.dmc
                })
                &&& s.dmc.timer_period == (if self.pal { pal } else { ntsc })[control as int % 16]
                &&& s.dmc.sample_addr_seed == 0xC000 + 64 * address
                &&& s.dmc.sample_len_seed == 1 + 16 * length
            }),
    {
        reveal(Apu2A03::register_written);
        crate::bits::lemma_byte_bits(control);
        crate::bits::lemma_byte_bits(control % 16);
        crate::bits::lemma_byte_bits(level);
    }

    /// A write to `$4015` switches the channels by its five low bits: pulses,
    /// triangle, noise, DMC. A channel that is off has no length; one that is
    /// on keeps it. The DMC interrupt is acknowledged.
    #[verifier::spinoff_prover]
    pub proof fn lemma_status_write(self, value: u8)
        ensures
            ({
                let s = self.status_written(value);
                &&& s.pulse1 == (PulseChannel {
                    enabled: value % 2 == 1,
                    length: LengthCounter {
                        counter: if value % 2 == 1 { self.pulse1.length.counter } else { 0 },
                        ..self.pulse1.length
                    },
                    ..self.pulse1
                })
                &&& s.pulse2 == (PulseChannel {
                    enabled: value / 2 % 2 == 1,
                    length: LengthCounter {
                        counter: if value / 2 % 2 == 1 { self.pulse2.length.counter } else { 0 },
                        ..self.pulse2.length
                    },
                    ..self.pulse2
                })
                &&& s.triangle == (TriangleChannel {
                    enabled: value / 4 % 2 == 1,
                    length: LengthCounter {
                        counter: if value / 4 % 2 == 1 { self.triangle.length.counter } else { 0 },
                        ..self.triangle.length
                    },
                    ..self.triangle
                })
                &&& s.noise == (NoiseChannel {
                    enabled: value / 8 % 2 == 1,
                    length: LengthCounter {
                        counter: if value / 8 % 2 == 1 { self.noise.length.counter } else { 0 },
                        ..self.noise.length
                    },
                    ..self.noise
                })
                &&& s.dmc.enabled == (value / 16 % 2 == 1)
                &&& !s.dmc.irq_flag
                &&& value / 16 % 2 == 0 ==> s.dmc.bytes_remaining == 0
                &&& value / 16 % 2 == 1 && self.dmc.bytes_remaining > 0 ==> s.dmc.bytes_remaining
                    == self.dmc.bytes_remaining && s.dmc.current_addr == self.dmc.current_addr
                &&& value / 16 % 2 == 1 && self.dmc.bytes_remaining == 0 ==> s.dmc.bytes_remaining
                    == self.dmc.sample_len_seed && s.dmc.current_addr == self.dmc.sample_addr_seed
                &&& s.dmc.dac == self.dmc.dac
                &&& s.frame_irq_flag == self.frame_irq_flag
            }),
    {
        reveal(Apu2A03::status_written_except_dmc);
        reveal(Apu2A03::with_dmc_enabled);
        crate::bits::lemma_byte_bits(value);
    }

    /// A write to `$4017`: the top bit selects the 5-step sequence, the next
    /// one switches the frame interrupt off and acknowledges it. The sequence
    /// starts over three or four cycles later.
    #[verifier::spinoff_prover]
    pub proof fn lemma_frame_write(self, value: u8)
        ensures
            ({
                let s = self.frame_written(value);
                let off = value / 64 % 2 == 1;
                &&& s.five_step == (value >= 128)
                &&& s.frame_irq_inhibit == off
                &&& s.frame_irq_flag == (self.frame_irq_flag && !off)
                &&& s.frame_reset_delay == Some(if self.total_cycles % 2 == 0 { 4u32 } else { 3u32 })
                &&& s.pulse1 == self.pulse1 && s.frame_acc == self.frame_acc
            }),
    {
        reveal(Apu2A03::frame_written);
        crate::bits::lemma_byte_bits(value);
    }

    /// A quarter frame clocks the three envelopes and the linear counter; a
    /// half frame the four length counters and the two sweep units; the frame
    /// interrupt comes unless it is switched off.
    #[verifier::spinoff_prover]
    pub proof fn lemma_frame_clocks(self, e: FrameEvent)
        ensures
            ({
                let s = self.event_applied(e);
                &&& s.pulse1.envelope == (if e.quarter {
                    self.pulse1.envelope.clocked()
                } else {
                    self.pulse1.envelope
                })
                &&& s.pulse2.envelope == (if e.quarter {
                    self.pulse2.envelope.clocked()
                } else {
                    self.pulse2.envelope
                })
                &&& s.noise.envelope == (if e.quarter {
                    self.noise.envelope.clocked()
                } else {
                    self.noise.envelope
                })
                &&& s.triangle.linear_counter == (if e.quarter {
                    self.triangle.linear_clocked().linear_counter
                } else {
                    self.triangle.linear_counter
                })
                &&& s.pulse1.length == (if e.half {
                    self.pulse1.length.clocked()
                } else {
                    self.pulse1.length
                })
                &&& s.pulse2.length == (if e.half {
                    self.pulse2.length.clocked()
                } else {
                    self.pulse2.length
                })
                &&& s.triangle.length == (if e.half {
                    self.triangle.length.clocked()
                } else {
                    self.triangle.length
                })
                &&& s.noise.length == (if e.half {
                    self.noise.length.clocked()
                } else {
                    self.noise.length
                })
                &&& !e.half ==> s.pulse1.timer_period == self.pulse1.timer_period
                    && s.pulse2.timer_period == self.pulse2.timer_period
                &&& e.half ==> s.pulse1.timer_period == self.pulse1.sweep_clocked().timer_period
                    && s.pulse2.timer_period == self.pulse2.sweep_clocked().timer_period
                &&& s.frame_irq_flag == (self.frame_irq_flag || e.irq && !self.frame_irq_inhibit)
            }),
    {
        reveal(Apu2A03::event_applied);
    }
}

/// The frame sequence, in CPU cycles from its start, on NTSC and PAL machines:
/// three quarter frames, with a half frame at the second, and a fourth with a
/// half frame. It comes at 29829 in the 4-step mode and at 37281 in the other,
/// which has no interrupt.
#[verifier::spinoff_prover]
pub proof fn lemma_frame_events(five_step: bool)
    ensures
        crate::apu::event_at(five_step, false, 0) == (FrameEvent {
            offset: 7457,
            quarter: true,
            half: false,
            irq: false,
        }),
        crate::apu::event_at(five_step, false, 1) == (FrameEvent {
            offset: 14913,
            quarter: true,
            half: true,
            irq: false,
        }),
        crate::apu::event_at(five_step, false, 2) == (FrameEvent {
            offset: 22371,
            quarter: true,
            half: false,
            irq: false,
        }),
        crate::apu::event_at(false, false, 3) == (FrameEvent {
            offset: 29828,
            quarter: false,
            half: false,
            irq: true,
        }),
        crate::apu::event_at(false, false, 4) == (FrameEvent {
            offset: 29829,
            quarter: true,
            half: true,
            irq: true,
        }),
        crate::apu::event_at(true, false, 3) == (FrameEvent {
            offset: 37281,
            quarter: true,
            half: true,
            irq: false,
        }),
        crate::apu::event_at(five_step, true, 0).offset == 8313,
        crate::apu::event_at(five_step, true, 1).offset == 16627,
        crate::apu::event_at(five_step, true, 2).offset == 24939,
        crate::apu::event_at(false, true, 4).offset == 33253,
        crate::apu::event_at(true, true, 3).offset == 41565,
        forall|i: int|
            0 <= i < 6 ==> {
                let n = #[trigger] crate::apu::event_at(five_step, false, i);
                let p = crate::apu::event_at(five_step, true, i);
                n.quarter == p.quarter && n.half == p.half && n.irq == p.irq
            },
{
}

proof fn lemma_shift_byte(v: u8)
    ensures
        v >> 1 == v / 2,
        (v & 0x01 != 0) == (v % 2 == 1),
{
    crate::bits::lemma_byte_bits(v);
}

impl DmcChannel {
    /// One bit of a sample: the lowest bit comes first; a one raises the level
    /// by two and a zero lowers it by two, unless that would leave 0 to 127. A
    /// silent output unit keeps the level.
    #[verifier::spinoff_prover]
    pub proof fn lemma_one_bit(self)
        requires
            self.dac <= 127,
        ensures
            ({
                let s = self.bit_shifted();
                let up = self.output_shift % 2 == 1;
                &&& self.output_silence ==> s.dac == self.dac
                &&& !self.output_silence && up && self.dac + 2 <= 127 ==> s.dac == self.dac + 2
                &&& !self.output_silence && up && self.dac + 2 > 127 ==> s.dac == self.dac
                &&& !self.output_silence && !up && self.dac >= 2 ==> s.dac == self.dac - 2
                &&& !self.output_silence && !up && self.dac < 2 ==> s.dac == self.dac
                &&& self.output_bits > 1 ==> s.output_bits == self.output_bits - 1
                    && s.output_shift == self.output_shift / 2 && s.output_silence
                    == self.output_silence && s.sample_buffer_filled == self.sample_buffer_filled
                &&& self.output_bits <= 1 ==> s.output_bits == 8
                &&& self.output_bits <= 1 && self.sample_buffer_filled ==> s.output_shift
                    == self.sample_buffer && !s.output_silence && !s.sample_buffer_filled
                &&& self.output_bits <= 1 && !self.sample_buffer_filled ==> s.output_silence
            }),
    {
        lemma_shift_byte(self.output_shift);
    }

    /// A bit comes every `timer_period` CPU cycles.
    #[verifier::spinoff_prover]
    pub proof fn lemma_bit_rate(self, n: nat)
        requires
            self.timer == 0,
            1 <= n <= self.timer_period,
        ensures
            self.ticked(n).timer == self.timer_period - n,
            self.ticked(n).timer_period == self.timer_period,
            self.ticked(n).dac == self.bit_shifted().dac,
            self.ticked(n).output_bits == self.bit_shifted().output_bits,
        decreases n,
    {
        if n > 1 {
            self.lemma_bit_rate((n - 1) as nat);
        } else {
            reveal_with_fuel(DmcChannel::ticked, 2);
        }
    }

    /// A fetched byte fills the buffer and moves the address on, from the top
    /// of memory to `$8000`. The last byte of a sample starts it over if it
    /// loops; else it raises the interrupt if that is on.
    #[verifier::spinoff_prover]
    pub proof fn lemma_byte_arrives(self, byte: u8)
        requires
            self.bytes_remaining > 0,
        ensures
            ({
                let s = self.supplied(byte);
                let next = if self.current_addr == 0xFFFF { 0x8000int } else {
                    self.current_addr + 1
                };
                &&& s.sample_buffer == byte && s.sample_buffer_filled
                &&& self.bytes_remaining > 1 ==> s.bytes_remaining == self.bytes_remaining - 1
                    && s.current_addr == next && s.irq_flag == self.irq_flag
                &&& self.bytes_remaining == 1 && self.loop_flag ==> s.bytes_remaining
                    == self.sample_len_seed && s.current_addr == self.sample_addr_seed && s.irq_flag
                    == self.irq_flag
                &&& self.bytes_remaining == 1 && !self.loop_flag ==> s.bytes_remaining == 0
                    && s.irq_flag == (self.irq_flag || self.irq_enable)
                &&& s.dac == self.dac
            }),
    {
    }

    /// A fetch is asked for as soon as the buffer is empty and bytes remain; it
    /// is from the current address.
    #[verifier::spinoff_prover]
    pub proof fn lemma_asks_for_bytes(self)
        requires
            !self.sample_buffer_filled,
            self.bytes_remaining > 0,
            !self.pending_fetch && !self.fetch_in_flight,
            self.timer > 0,
        ensures
            self.cycle().pending_fetch,
            self.cycle().pending_fetch_addr == self.current_addr,
    {
    }
}

} // verus!
