//! What the devices of the machine do to each other: the clocks that the APU
//! hands on, its status byte, the bytes that the DMC asks for, the banks of the
//! cartridge, and the state after power-on.
use vstd::prelude::*;
use crate::apu::Apu2A03;
use crate::bus::{BusView, Machine, Memory};
use crate::cpu::Cpu6502;
use crate::dma::{DmcDmaKind, ScheduledDmcDma};
use crate::dmc::DmcChannel;
use crate::expansion::Expansion;
use crate::fds::Fds;
use crate::header::HeaderView;

verus! {

proof fn lemma_seven_bits(
    v: u8,
    p1: bool,
    p2: bool,
    tri: bool,
    noise: bool,
    dmc: bool,
    frame_irq: bool,
    dmc_irq: bool,
)
    by (bit_vector)
    requires
        v == crate::apu::status_bits(p1, p2, tri, noise, dmc, frame_irq, dmc_irq),
    ensures
        (v % 2u8 == 1u8) == p1,
        (v / 2u8 % 2u8 == 1u8) == p2,
        (v / 4u8 % 2u8 == 1u8) == tri,
        (v / 8u8 % 2u8 == 1u8) == noise,
        (v / 16u8 % 2u8 == 1u8) == dmc,
        v / 32u8 % 2u8 == 0u8,
        (v / 64u8 % 2u8 == 1u8) == frame_irq,
        (v / 128u8 == 1u8) == dmc_irq,
{
}

impl Apu2A03 {
    /// Over any two cycles each pulse timer is clocked once, on the second of
    /// a pair; the noise and the triangle are clocked on both.
    #[verifier::spinoff_prover]
    pub proof fn lemma_two_cycles(self)
        requires
            self.pulse_prescaler_carry <= 1,
        ensures
            ({
                let s = self.timers_run(2);
                &&& s.pulse1 == self.pulse1.timer_clocked()
                &&& s.pulse2 == self.pulse2.timer_clocked()
                &&& s.noise == self.noise.timer_clocked().timer_clocked()
                &&& s.triangle == self.triangle.timer_clocked().timer_clocked()
                &&& s.dmc == self.dmc.cycle().cycle()
                &&& s.pulse_prescaler_carry == self.pulse_prescaler_carry
                &&& self.pulse_prescaler_carry == 0 ==> self.timers_run(1).pulse1 == self.pulse1
                    && self.timers_run(1).pulse2 == self.pulse2
            }),
    {
        reveal_with_fuel(Apu2A03::timers_run, 3);
        reveal(Apu2A03::timers_cycle);
    }

    /// A `$4015` read takes the interrupt of the frame sequence away and
    /// leaves that of the DMC. Its byte has a bit for each channel whose
    /// length runs, for a sample that plays and for each interrupt.
    #[verifier::spinoff_prover]
    pub proof fn lemma_status_read(self)
        ensures
            self.status_read() == (Apu2A03 { frame_irq_flag: false, ..self }),
            ({
                let v = self.status_value() as int;
                &&& (v % 2 == 1) == (self.pulse1.length.counter > 0)
                &&& (v / 2 % 2 == 1) == (self.pulse2.length.counter > 0)
                &&& (v / 4 % 2 == 1) == (self.triangle.length.counter > 0)
                &&& (v / 8 % 2 == 1) == (self.noise.length.counter > 0)
                &&& (v / 16 % 2 == 1) == (self.dmc.bytes_remaining > 0)
                &&& v / 32 % 2 == 0
                &&& (v / 64 % 2 == 1) == self.frame_irq_flag
                &&& (v / 128 == 1) == self.dmc.irq_flag
            }),
    {
        reveal(Apu2A03::status_read);
        reveal(Apu2A03::status_value);
        lemma_seven_bits(
            self.status_value(),
            self.pulse1.length.running(),
            self.pulse2.length.running(),
            self.triangle.length.running(),
            self.noise.length.running(),
            self.dmc.bytes_remaining > 0,
            self.frame_irq_flag,
            self.dmc.irq_flag,
        );
    }

    /// A byte that was not asked for fills the buffer and moves nothing else;
    /// one that was moves the sample on.
    #[verifier::spinoff_prover]
    pub proof fn lemma_bytes_that_arrive(self, byte: u8)
        ensures
            ({
                let odd = self.unexpected_byte_supplied(byte).dmc;
                &&& odd.sample_buffer == byte && odd.sample_buffer_filled
                &&& odd.current_addr == self.dmc.current_addr
                &&& odd.bytes_remaining == self.dmc.bytes_remaining
                &&& odd.pending_fetch == self.dmc.pending_fetch
            }),
            ({
                let d = self.byte_supplied(byte).dmc;
                &&& d.sample_buffer == byte && d.sample_buffer_filled
                &&& !d.pending_fetch && !d.fetch_in_flight
                &&& self.dmc.bytes_remaining > 1 ==> d.bytes_remaining
                    == self.dmc.bytes_remaining - 1
            }),
            !self.fetch_cancelled().dmc.pending_fetch,
            !self.fetch_cancelled().dmc.fetch_in_flight,
            !self.stop_taken().dmc.implicit_stop_event,
    {
        reveal(Apu2A03::unexpected_byte_supplied);
        reveal(Apu2A03::byte_supplied);
        reveal(Apu2A03::fetch_cancelled);
        reveal(Apu2A03::stop_taken);
    }
}

impl DmcChannel {
    /// A fetch that waits is offered with its address, and is under way once
    /// taken; where none waits, nothing is offered and nothing changes.
    #[verifier::spinoff_prover]
    pub proof fn lemma_fetches(self)
        ensures
            self.pending_fetch ==> (self.fetch_wanted() matches Some(w) && w.0
                == self.pending_fetch_addr && w.1 == (if self.pending_fetch_is_load {
                3u32
            } else {
                4u32
            })),
            self.pending_fetch ==> self.fetch_taken() == (DmcChannel {
                pending_fetch: false,
                fetch_in_flight: true,
                last_fetch_addr: self.pending_fetch_addr,
                ..self
            }),
            !self.pending_fetch ==> self.fetch_wanted() is None && self.fetch_taken() == self,
    {
    }

    /// The last byte of a sample going into the shift register is noted, and
    /// only that: not while bytes remain, nor while the channel is off. The
    /// note stays until it is taken.
    #[verifier::spinoff_prover]
    pub proof fn lemma_sample_ends(self)
        requires
            !self.implicit_stop_event,
            self.output_bits == 1,
        ensures
            self.bit_shifted().implicit_stop_event <==> self.sample_buffer_filled
                && self.bytes_remaining == 0 && self.enabled,
            (DmcChannel { implicit_stop_event: true, ..self }).bit_shifted().implicit_stop_event,
            !(DmcChannel { output_bits: 2, ..self }).bit_shifted().implicit_stop_event,
    {
    }
}

impl Machine {
    /// A sample that has ended on an even cycle leaves an unexpected DMA of the
    /// byte it fetched last, from the next cycle on; one that has ended on an
    /// odd cycle leaves an aborted DMA, two cycles on. On PAL machines, or where
    /// a DMA is scheduled, it leaves none.
    #[verifier::spinoff_prover]
    pub proof fn lemma_ended_sample(self, e: u64)
        requires
            e < 0xFFFF_FFFF_FFFF_FFF0,
        ensures
            ({
                let s = self.stop_noticed(e);
                let leaves = self.apu.0.dmc.implicit_stop_event && !self.apu.0.pal
                    && self.dma is None;
                &&& !s.apu.0.dmc.implicit_stop_event
                &&& !leaves ==> s.dma == self.dma
                &&& leaves ==> s.dma is Some
                &&& leaves && e % 2 == 0 ==> s.dma->0.kind == DmcDmaKind::Unexpected
                    && s.dma->0.addr == self.apu.0.dmc.last_fetch_addr
                    && s.dma->0.halt_from == e + 1
                &&& leaves && e % 2 == 1 ==> s.dma->0.kind == DmcDmaKind::Aborted
                    && s.dma->0.halt_from == e + 2
            }),
    {
        reveal(Machine::stop_noticed);
        reveal(crate::dma::later);
        reveal(Apu2A03::stop_taken);
    }

    /// What the DMC asked for is picked up once: the fetch is scheduled for
    /// its own address and is under way.
    #[verifier::spinoff_prover]
    pub proof fn lemma_fetch_is_scheduled(self, e: u64)
        requires
            self.apu.0.dmc.pending_fetch,
        ensures
            ({
                let s = self.fetch_scheduled(e);
                let load = self.apu.0.dmc.pending_fetch_is_load;
                &&& !s.apu.0.dmc.pending_fetch && s.apu.0.dmc.fetch_in_flight
                &&& s.dma is Some && s.dma->0.addr == self.apu.0.dmc.pending_fetch_addr
                &&& s.dma->0.kind != DmcDmaKind::Aborted
                &&& load ==> s.load_from is None
                &&& !load ==> s.load_from == self.load_from
            }),
    {
        reveal(Machine::fetch_scheduled);
        reveal(Apu2A03::fetch_taken);
    }
}

impl Machine {
    /// `$4015` switches the DMC on, and a load then waits for an even cycle,
    /// three or four on; or off, and then no load waits. A DMA that this drops
    /// takes its fetch along; without one the fetch stays as it is.
    #[verifier::spinoff_prover]
    pub proof fn lemma_dmc_switched(self)
        requires
            self.cycles < 0xFFFF_FFFF_FFFF_FFF0,
        ensures
            ({
                let s = self.dmc_switched(true);
                let from = s.load_from->0;
                &&& s.load_from is Some && from % 2 == 0
                &&& from == self.cycles + 3 || from == self.cycles + 4
                &&& s.apu.0.dmc == self.apu.0.dmc.with_enabled(true) && s.dma == self.dma
            }),
            ({
                let s = self.dmc_switched(false);
                &&& s.load_from is None
                &&& self.dma is None ==> s.dma is None && s.apu.0.dmc
                    == self.apu.0.dmc.with_enabled(false)
                &&& self.dma is Some && self.dma->0.kind == DmcDmaKind::Load ==> s.dma is None
                    && !s.apu.0.dmc.pending_fetch && !s.apu.0.dmc.fetch_in_flight
                &&& s.dma is Some ==> s.apu.0.dmc == self.apu.0.dmc.with_enabled(false)
            }),
    {
        reveal(crate::dma::later);
        reveal(Apu2A03::with_dmc_enabled);
        reveal(Apu2A03::fetch_cancelled);
    }

    /// What the DMC did is dated by the cycle that has just passed.
    pub proof fn lemma_observed_cycle(self)
        requires
            self.cycles > 0,
        ensures
            self.observed() == self.fetch_scheduled((self.cycles - 1) as u64).stop_noticed(
                (self.cycles - 1) as u64,
            ),
    {
        reveal(crate::dma::later);
        reveal(Machine::observed);
    }
}

impl BusView {
    /// The byte that a DMA reads is the one at its address.
    #[verifier::spinoff_prover]
    pub proof fn lemma_byte_of_dma(self, s: ScheduledDmcDma)
        ensures
            ({
                let d = self.byte_fetched(s).mach().apu.0.dmc;
                let before = self.after_read(s.addr).mach().apu.0.dmc;
                &&& d.sample_buffer == self.read_value(s.addr) && d.sample_buffer_filled
                &&& s.kind == DmcDmaKind::Unexpected ==> d.bytes_remaining
                    == before.bytes_remaining && d.current_addr == before.current_addr
                &&& s.kind != DmcDmaKind::Unexpected && before.bytes_remaining > 1
                    ==> d.bytes_remaining == before.bytes_remaining - 1
            }),
    {
        reveal(BusView::byte_fetched);
        let read = self.after_read(s.addr);
        read.mach().apu.0.lemma_bytes_that_arrive(self.read_value(s.addr));
    }

    /// Inside an OAM DMA a DMC DMA starts on odd cycles from its halt on, and
    /// an aborted one never does.
    pub proof fn lemma_dma_in_oam(self, s: ScheduledDmcDma)
        requires
            self.mach().dma == Some(s),
        ensures
            self.dma_in_oam() is Some <==> s.kind != DmcDmaKind::Aborted && s.halt_from
                <= self.mach().cycles && self.mach().cycles % 2 == 1,
            self.dma_in_oam() is Some ==> self.dma_in_oam()->0 == s,
    {
    }

    /// An OAM DMA waits for the cycle from which it may halt, and for a read
    /// cycle.
    pub proof fn lemma_oam_waits(self, read_cycle: bool)
        requires
            self.oam_from is None || !read_cycle || self.mach().cycles < self.oam_from->0,
        ensures
            self.oam_serviced(read_cycle) == self,
    {
        reveal(BusView::oam_serviced);
    }

    /// An instruction begins with no write counted and none waiting; from then
    /// on the writes to the sound registers wait.
    #[verifier::spinoff_prover]
    pub proof fn lemma_instruction_begins(self, addr: u16, value: u8)
        requires
            0x4000 <= addr <= 0x4013,
        ensures
            ({
                let s = self.instruction_begun();
                &&& s.in_instruction && s.calls == 0 && s.deferred.len() == 0
                &&& s.oam_call is None
                &&& s.mem == self.mem && s.machine == self.machine
                &&& s.written(addr, value).deferred == seq![(0u32, addr, value)]
                &&& s.written(addr, value).machine == self.machine
                &&& s.written(0x4014, value).oam_call == Some(0u32)
            }),
    {
        reveal(BusView::instruction_begun);
        reveal(BusView::written);
    }

    /// After power-on the memory is zero and nothing is scheduled.
    pub proof fn lemma_power_on(self, i: int)
        requires
            self.power_on(),
        ensures
            0 <= i < 0x0800 ==> self.mem.ram[i] == 0,
            0 <= i < 0x2000 ==> self.mem.cart_ram[i] == 0,
            0 <= i < 0x8000 ==> self.mem.prg[i] == 0,
            self.mem.ram.len() == 0x0800 && self.mem.cart_ram.len() == 0x2000 && self.mem.prg.len()
                == 0x8000,
            !self.mem.bankswitched && !self.mem.fds_enabled && !self.mem.overlay_active,
            self.mach().cycles == 0 && self.mach().stall == 0 && self.mach().dma is None,
            !self.nmi_pending,
    {
    }

    /// Before a tune starts every byte of RAM is zero, and no NMI waits.
    pub proof fn lemma_ram_before_a_tune(self, h: HeaderView, i: int)
        requires
            0 <= i < 0x0800,
        ensures
            self.tune_reset(h).mem.ram.len() == 0x0800,
            self.tune_reset(h).mem.ram[i] == 0,
            !self.tune_reset(h).nmi_pending,
    {
        self.lemma_reset_clears_ram(h);
    }
}

impl Memory {
    /// A bank shown in a half of the cartridge RAM, or in a window of the
    /// program RAM, is there byte for byte, and nowhere else.
    #[verifier::spinoff_prover]
    pub proof fn lemma_shown_banks(self, place: int, sel: u8, i: int)
        requires
            sel < self.bank_pool.len(),
            self.bank_pool[sel as int].len() == 0x1000,
        ensures
            0 <= i < self.cart_ram.len() ==> self.cart_bank_shown(place, sel).cart_ram[i] == (
            if 0x1000 * place <= i < 0x1000 * place + 0x1000 {
                self.bank_pool[sel as int][i - 0x1000 * place]
            } else {
                self.cart_ram[i]
            }),
            self.fds_enabled && 0 <= i < self.fds_ram.len() ==> self.fds_bank_shown(
                place,
                sel,
            ).fds_ram[i] == (if 0x1000 * place <= i < 0x1000 * place + 0x1000 {
                self.bank_pool[sel as int][i - 0x1000 * place]
            } else {
                self.fds_ram[i]
            }),
            !self.fds_enabled ==> self.fds_bank_shown(place, sel) == self,
    {
    }

    /// The eight windows of the program RAM each show the bank that their own
    /// select register names.
    #[verifier::spinoff_prover]
    pub proof fn lemma_all_windows(self, n: nat, i: int)
        requires
            n <= 8,
            self.fds_enabled,
            self.fds_ram.len() == 0x8000,
            self.bank_select.len() == 8,
            forall|k: int|
                0 <= k < self.bank_pool.len() ==> (#[trigger] self.bank_pool[k]).len() == 0x1000,
            0 <= i < 0x8000,
        ensures
            ({
                let s = self.fds_banks_shown(n);
                let sel = self.bank_select[i / 0x1000] as int;
                &&& s.fds_enabled && s.bank_pool == self.bank_pool && s.bank_select
                    == self.bank_select
                &&& s.fds_ram.len() == 0x8000
                &&& s.fds_ram[i] == (if i < 0x1000 * n && sel < self.bank_pool.len() {
                    self.bank_pool[sel][i % 0x1000]
                } else {
                    self.fds_ram[i]
                })
            }),
        decreases n,
    {
        if n > 0 {
            let before = self.fds_banks_shown((n - 1) as nat);
            self.lemma_all_windows((n - 1) as nat, i);
            let sel = self.bank_select[n - 1];
            if sel < self.bank_pool.len() {
                before.lemma_shown_banks(n - 1, sel, i);
            }
        }
    }
}

impl Expansion {
    /// The MMC5 listens to reads of `$8000..=$BFFF` and to no others, and only
    /// in its read mode: a byte other than zero is then its PCM level, and
    /// zero trips its interrupt.
    #[verifier::spinoff_prover]
    pub proof fn lemma_listens(self, addr: u16, byte: u8)
        ensures
            ({
                let hears = 0x8000 <= addr < 0xC000 && self.mmc5.enabled
                    && self.mmc5.pcm_read_mode;
                let s = self.observed(addr, byte);
                &&& !hears ==> s == self
                &&& hears && byte != 0 ==> s.mmc5.pcm == byte && !s.mmc5.irq_trip
                &&& hears && byte == 0 ==> s.mmc5.pcm == self.mmc5.pcm && s.mmc5.irq_trip
            }),
    {
    }
}

impl Fds {
    /// The volume envelope moves the gain by one, up to 32 and down to zero.
    #[verifier::spinoff_prover]
    pub proof fn lemma_volume_step(self)
        requires
            self.vol_pending is None,
        ensures
            ({
                let s = self.vol_stepped();
                let now = match s.vol_pending {
                    Some(g) => g,
                    None => s.volume,
                };
                &&& self.vol_env_increase && self.volume < 32 ==> now == self.volume + 1
                &&& self.vol_env_increase && self.volume >= 32 ==> s == self
                &&& !self.vol_env_increase && self.volume > 0 ==> now == self.volume - 1
                &&& !self.vol_env_increase && self.volume == 0 ==> s == self
            }),
    {
    }

    /// A volume gain counts at once at the start of the wave, and otherwise
    /// waits until the wave is there again.
    #[verifier::spinoff_prover]
    pub proof fn lemma_gain_waits(self, gain: u8)
        ensures
            self.wave_pos == 0 ==> self.with_gain(gain).volume == gain,
            self.wave_pos != 0 ==> self.with_gain(gain).volume == self.volume,
            (Fds { wave_pos: 0, ..self.with_gain(gain) }).committed().volume == gain,
            (Fds { wave_pos: 0, ..self.with_gain(gain) }).committed().vol_pending is None,
            self.wave_pos != 0 ==> self.committed() == self,
            self.vol_pending is None ==> self.committed() == self,
    {
    }

    /// The envelopes stand still while they are halted or their master speed
    /// is zero, and each while it is switched off.
    #[verifier::spinoff_prover]
    pub proof fn lemma_envelopes_stand_still(self)
        ensures
            self.env_halt || self.master_env_speed == 0 ==> self.env_ticked() == self,
            self.vol_env_disabled ==> self.env_ticked().volume == self.volume
                && self.env_ticked().vol_env_timer == self.vol_env_timer,
            self.mod_env_disabled ==> self.env_ticked().mod_gain == self.mod_gain
                && self.env_ticked().mod_env_timer == self.mod_env_timer,
            !self.sound_enabled ==> self.cycle() == self,
    {
        reveal(Fds::cycle);
    }
}

/// Voices that do not overflow add up: one more adds its level, and one that
/// does not sound adds nothing.
pub proof fn lemma_voices_add_up(voices: Seq<Option<i32>>, n: nat)
    requires
        n < voices.len(),
    ensures
        crate::vrc7::voice_sum(voices, 0) == 0,
        voices[n as int] is None ==> crate::vrc7::voice_sum(voices, n + 1)
            == crate::vrc7::voice_sum(voices, n),
        voices[n as int] matches Some(v) ==> {
            let sum = crate::vrc7::voice_sum(voices, n) + v;
            let next = crate::vrc7::voice_sum(voices, n + 1) as int;
            &&& -0x8000_0000 <= sum <= 0x7FFF_FFFF ==> next == sum
            &&& sum > 0x7FFF_FFFF ==> next == 0x7FFF_FFFF
            &&& sum < -0x8000_0000 ==> next == -0x8000_0000
        },
{
}

/// The CPU after power-on: registers zero, the stack pointer at `$FD`,
/// interrupts off, not jammed.
pub proof fn lemma_cpu_power_on()
    ensures
        ({
            let c = Cpu6502::power_on();
            &&& c.a == 0 && c.x == 0 && c.y == 0 && c.sp == 0xFD && c.pc == 0
            &&& c.p == 0x24 && !c.halted
        }),
{
    assert(0x04u8 | 0x20u8 == 0x24u8) by (bit_vector);
}

} // verus!
