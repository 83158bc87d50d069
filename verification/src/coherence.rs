//! The DMC and the DMAs that serve it keep in step, whatever the CPU does: the
//! invariant holds after power-on, and time, reads, writes, tunes and the steps
//! of the CPU keep it.
use vstd::prelude::*;
use crate::apu::Apu2A03;
use crate::bus::{BusView, Machine, Memory, Whole};
use crate::cpu::{Cpu6502, System, FLAG_B, FLAG_I, FLAG_U, INTERRUPT_WRITE_MASK};
use crate::dma::ScheduledDmcDma;
use crate::dmc::DmcChannel;
use crate::header::{ExpansionChips, HeaderView};
use crate::opcodes::{Mode, Op};

verus! {

/// Whether a DMA brings a byte that the DMC has asked for.
pub open spec fn is_asked_for(s: ScheduledDmcDma) -> bool {
    s.kind is Load || s.kind is Reload
}

impl DmcChannel {
    /// A channel that is switched off has no bytes left and asks for none.
    pub open spec fn coherent(self) -> bool {
        self.settled() && (self.pending_fetch ==> self.enabled)
    }

    #[verifier::spinoff_prover]
    proof fn lemma_coherent_ticks(self, n: nat)
        requires
            self.coherent(),
        ensures
            self.ticked(n).coherent(),
        decreases n,
    {
        if n > 0 {
            self.lemma_coherent_ticks((n - 1) as nat);
        }
    }

    #[verifier::spinoff_prover]
    proof fn lemma_ticks_keep_switch(self, n: nat)
        ensures
            self.ticked(n).enabled == self.enabled,
        decreases n,
    {
        if n > 0 {
            self.lemma_ticks_keep_switch((n - 1) as nat);
        }
    }
}

impl Machine {
    /// The DMC is coherent, and a DMA that brings it a byte it has asked for
    /// is scheduled only while it is on.
    #[verifier::opaque]
    pub open spec fn coherent(self) -> bool {
        &&& self.apu.0.dmc.coherent()
        &&& self.dma matches Some(s) ==> is_asked_for(s) ==> self.apu.0.dmc.enabled
    }

    #[verifier::spinoff_prover]
    proof fn lemma_coherent_advance(self, n: nat)
        requires
            self.coherent(),
        ensures
            self.advanced(n).coherent(),
    {
        reveal(Machine::coherent);
        reveal(Machine::advanced);
        self.apu.0.lemma_dmc_runs_alone(n);
        self.apu.0.dmc.lemma_coherent_ticks(n);
        self.apu.0.dmc.lemma_ticks_keep_switch(n);
    }

    #[verifier::spinoff_prover]
    proof fn lemma_coherent_observation(self)
        requires
            self.coherent(),
        ensures
            self.observed().coherent(),
    {
        reveal(Machine::coherent);
        reveal(Machine::observed);
        reveal(Machine::fetch_scheduled);
        reveal(Machine::stop_noticed);
        reveal(Apu2A03::fetch_taken);
        reveal(Apu2A03::stop_taken);
    }

    #[verifier::spinoff_prover]
    proof fn lemma_coherent_ticks(self, n: nat)
        requires
            self.coherent(),
        ensures
            self.ticked(n).coherent(),
        decreases n,
    {
        if n > 0 {
            if self.apu.0.dmc_busy() {
                self.lemma_coherent_advance(1);
                self.advanced(1).lemma_coherent_observation();
                self.advanced(1).observed().lemma_coherent_ticks((n - 1) as nat);
            } else {
                let k: nat = if n < 8 { n } else { 8 };
                self.lemma_coherent_advance(k);
                self.advanced(k).lemma_coherent_ticks((n - k) as nat);
            }
        }
    }

    #[verifier::spinoff_prover]
    proof fn lemma_coherent_switch(self, on: bool)
        requires
            self.coherent(),
        ensures
            self.dmc_switched(on).coherent(),
    {
        reveal(Machine::coherent);
        reveal(Apu2A03::with_dmc_enabled);
        reveal(Apu2A03::fetch_cancelled);
    }

    #[verifier::spinoff_prover]
    #[verifier::rlimit(60)]
    proof fn lemma_coherent_write(self, addr: u16, value: u8, fds: bool, overlay: bool)
        requires
            self.coherent(),
        ensures
            self.written(addr, value, fds, overlay).coherent(),
    {
        reveal(Machine::coherent);
        if 0x4000 <= addr <= 0x4013 {
            self.apu.0.lemma_registers_and_dmc(addr, value);
        } else if addr == 0x4015 {
            self.apu.0.lemma_status_and_dmc(value);
            (Machine {
                apu: Whole(self.apu.0.status_written_except_dmc(value)),
                ..self
            }).lemma_coherent_switch(value & 0x10 != 0);
        } else {
            self.apu.0.lemma_other_writes_and_dmc(addr, value);
        }
    }

    #[verifier::spinoff_prover]
    proof fn lemma_coherent_parts(self, stall: u32)
        requires
            self.coherent(),
        ensures
            (Machine { stall, ..self }).coherent(),
            self.dma matches Some(s) ==> is_asked_for(s) ==> self.apu.0.dmc.enabled,
    {
        reveal(Machine::coherent);
    }

    #[verifier::spinoff_prover]
    proof fn lemma_read_and_dmc(self, addr: u16)
        ensures
            self.after_read(addr).apu.0.dmc == self.apu.0.dmc,
            self.after_read(addr).dma == self.dma,
    {
        self.apu.0.lemma_reads_and_dmc(addr, 0);
    }

    #[verifier::spinoff_prover]
    proof fn lemma_ticks_keep_switch(self, n: nat)
        ensures
            self.ticked(n).apu.0.dmc.enabled == self.apu.0.dmc.enabled,
        decreases n,
    {
        if n > 0 {
            if self.apu.0.dmc_busy() {
                self.lemma_step_keeps_switch(1);
                self.advanced(1).observed().lemma_ticks_keep_switch((n - 1) as nat);
            } else {
                let k: nat = if n < 8 { n } else { 8 };
                self.lemma_step_keeps_switch(k);
                self.advanced(k).lemma_ticks_keep_switch((n - k) as nat);
            }
        }
    }

    #[verifier::spinoff_prover]
    proof fn lemma_step_keeps_switch(self, n: nat)
        ensures
            self.advanced(n).apu.0.dmc.enabled == self.apu.0.dmc.enabled,
            self.advanced(n).observed().apu.0.dmc.enabled == self.apu.0.dmc.enabled,
    {
        reveal(Machine::advanced);
        reveal(Machine::observed);
        reveal(Machine::fetch_scheduled);
        reveal(Machine::stop_noticed);
        reveal(Apu2A03::fetch_taken);
        reveal(Apu2A03::stop_taken);
        self.apu.0.lemma_dmc_runs_alone(n);
        self.apu.0.dmc.lemma_ticks_keep_switch(n);
    }
}

impl Apu2A03 {
    #[verifier::spinoff_prover]
    proof fn lemma_registers_and_dmc(self, addr: u16, value: u8)
        ensures
            self.dmc.coherent() ==> self.register_written(addr, value).dmc.coherent(),
            self.register_written(addr, value).dmc.enabled == self.dmc.enabled,
    {
        reveal(Apu2A03::register_written);
    }

    #[verifier::spinoff_prover]
    proof fn lemma_status_and_dmc(self, value: u8)
        ensures
            self.dmc.coherent() ==> self.status_written_except_dmc(value).dmc.coherent(),
            self.status_written_except_dmc(value).dmc.enabled == self.dmc.enabled,
    {
        reveal(Apu2A03::status_written_except_dmc);
    }

    #[verifier::spinoff_prover]
    proof fn lemma_reads_and_dmc(self, addr: u16, byte: u8)
        ensures
            self.status_read().dmc == self.dmc,
            self.expansion_read(addr).dmc == self.dmc,
            self.prg_observed(addr, byte).dmc == self.dmc,
    {
        reveal(Apu2A03::status_read);
        reveal(Apu2A03::expansion_read);
        reveal(Apu2A03::prg_observed);
    }

    #[verifier::spinoff_prover]
    proof fn lemma_chips_and_dmc(self, chips: ExpansionChips)
        ensures
            self.expansion_set(chips).dmc == self.dmc,
    {
        reveal(Apu2A03::expansion_set);
    }

    #[verifier::spinoff_prover]
    proof fn lemma_other_writes_and_dmc(self, addr: u16, value: u8)
        ensures
            self.frame_written(value).dmc == self.dmc,
            self.expansion_written(addr, value).dmc == self.dmc,
    {
        reveal(Apu2A03::frame_written);
        reveal(Apu2A03::expansion_written);
    }
}

impl BusView {
    #[verifier::spinoff_prover]
    proof fn lemma_read_and_dmc(self, addr: u16)
        ensures
            self.after_read(addr).mach().apu.0.dmc == self.mach().apu.0.dmc,
            self.after_read(addr).mach().dma == self.mach().dma,
    {
        reveal(BusView::after_read);
        self.mach().lemma_read_and_dmc(addr);
        self.mach().apu.0.lemma_reads_and_dmc(addr, self.mem.program_byte(addr));
    }

    #[verifier::spinoff_prover]
    #[verifier::rlimit(60)]
    proof fn lemma_coherent_fetch(self, s: ScheduledDmcDma)
        requires
            self.mach().coherent(),
            is_asked_for(s) ==> self.mach().apu.0.dmc.enabled,
            !(s.kind is Aborted),
        ensures
            self.byte_fetched(s).mach().coherent(),
    {
        reveal(Machine::coherent);
        reveal(BusView::byte_fetched);
        reveal(Apu2A03::unexpected_byte_supplied);
        reveal(Apu2A03::byte_supplied);
        self.lemma_read_and_dmc(s.addr);
    }

    /// Time keeps the DMC coherent.
    #[verifier::spinoff_prover]
    pub proof fn lemma_time_keeps_coherence(self, n: nat)
        requires
            self.mach().coherent(),
        ensures
            self.ticked(n).mach().coherent(),
            self.ticked(n).mach().apu.0.dmc.enabled == self.mach().apu.0.dmc.enabled,
            self.stalled(n).mach().coherent(),
            self.stalled(n).mach().apu.0.dmc.enabled == self.mach().apu.0.dmc.enabled,
    {
        self.mach().lemma_coherent_ticks(n);
        self.mach().lemma_ticks_keep_switch(n);
        let m = Machine {
            stall: crate::bus::stall_sum(self.mach().stall, n),
            ..self.mach()
        };
        self.mach().lemma_coherent_parts(m.stall);
        m.lemma_coherent_ticks(n);
        m.lemma_ticks_keep_switch(n);
    }

    #[verifier::spinoff_prover]
    proof fn lemma_cancel_keeps_coherence(self)
        requires
            self.mach().coherent(),
        ensures
            self.fetch_cancelled().mach().coherent(),
            self.without_dma().mach().coherent(),
    {
        reveal(Machine::coherent);
        reveal(Apu2A03::fetch_cancelled);
    }

    #[verifier::spinoff_prover]
    #[verifier::rlimit(60)]
    proof fn lemma_service_keeps_coherence(self, read_cycle: bool)
        requires
            self.mach().coherent(),
        ensures
            self.dmc_serviced(read_cycle).mach().coherent(),
    {
        reveal(BusView::dmc_serviced);
        if let Some(s) = self.mach().dma {
            let w = self.without_dma();
            self.mach().lemma_coherent_parts(0);
            self.lemma_cancel_keeps_coherence();
            if s.kind is Aborted {
                w.lemma_cancel_keeps_coherence();
                w.lemma_time_keeps_coherence(1);
                w.stalled(1).lemma_cancel_keeps_coherence();
            } else {
                w.lemma_time_keeps_coherence(3);
                w.lemma_time_keeps_coherence(4);
                w.stalled(3).lemma_coherent_fetch(s);
                w.stalled(4).lemma_coherent_fetch(s);
            }
        }
    }

    #[verifier::spinoff_prover]
    #[verifier::rlimit(60)]
    proof fn lemma_fetch_in_oam_keeps_coherence(self, s: ScheduledDmcDma)
        requires
            self.mach().coherent(),
            is_asked_for(s) ==> self.mach().apu.0.dmc.enabled,
            !(s.kind is Aborted),
        ensures
            self.fetched_in_oam(s).mach().coherent(),
    {
        reveal(BusView::fetched_in_oam);
        self.lemma_cancel_keeps_coherence();
        let a = self.without_dma();
        a.lemma_time_keeps_coherence(1);
        let b = a.ticked(1);
        b.lemma_time_keeps_coherence(1);
        let c = b.ticked(1);
        c.lemma_time_keeps_coherence(1);
        let d = c.ticked(1);
        d.lemma_coherent_fetch(s);
        d.byte_fetched(s).lemma_time_keeps_coherence(1);
    }

    #[verifier::spinoff_prover]
    #[verifier::rlimit(60)]
    proof fn lemma_oam_copy_keeps_coherence(self, remaining: nat)
        requires
            self.mach().coherent(),
        ensures
            self.oam_copied(remaining).mach().coherent(),
        decreases remaining,
    {
        if remaining > 0 {
            match self.dma_in_oam() {
                None => {
                    self.lemma_time_keeps_coherence(1);
                    self.ticked(1).lemma_oam_copy_keeps_coherence((remaining - 1) as nat);
                },
                Some(s) => {
                    self.mach().lemma_coherent_parts(0);
                    self.lemma_fetch_in_oam_keeps_coherence(s);
                    if remaining > 3 {
                        let f = self.fetched_in_oam(s);
                        f.lemma_time_keeps_coherence(1);
                        f.ticked(1).lemma_oam_copy_keeps_coherence((remaining - 3) as nat);
                    }
                },
            }
        }
    }

    #[verifier::spinoff_prover]
    #[verifier::rlimit(60)]
    proof fn lemma_oam_keeps_coherence(self)
        requires
            self.mach().coherent(),
        ensures
            self.oam_done().mach().coherent(),
    {
        reveal(BusView::oam_done);
        self.lemma_time_keeps_coherence(1);
        let halted = self.ticked(1);
        halted.lemma_time_keeps_coherence(1);
        let ready = if self.mach().cycles % 2 == 0 { halted.ticked(1) } else { halted };
        ready.lemma_oam_copy_keeps_coherence(512);
        let r = ready.oam_copied(512);
        let total = crate::dma::later(r.mach().cycles, -self.mach().cycles) as u32;
        r.mach().lemma_coherent_parts(crate::bus::stall_sum(r.mach().stall, total as nat));
    }

    #[verifier::spinoff_prover]
    proof fn lemma_effect_keeps_coherence(self, addr: u16, value: u8)
        requires
            self.mach().coherent(),
        ensures
            self.applied(addr, value).mach().coherent(),
    {
        reveal(BusView::applied);
        self.mach().lemma_coherent_write(
            addr,
            value,
            self.mem.fds_enabled,
            self.mem.overlay_active,
        );
    }

    /// Reads keep the DMC coherent.
    #[verifier::spinoff_prover]
    pub proof fn lemma_reads_keep_coherence(self, addr: u16)
        requires
            self.mach().coherent(),
        ensures
            self.after_read(addr).mach().coherent(),
    {
        reveal(Machine::coherent);
        self.lemma_read_and_dmc(addr);
    }

    /// Writes keep the DMC coherent.
    #[verifier::spinoff_prover]
    #[verifier::rlimit(60)]
    pub proof fn lemma_writes_keep_coherence(self, addr: u16, value: u8)
        requires
            self.mach().coherent(),
        ensures
            self.written(addr, value).mach().coherent(),
    {
        reveal(BusView::written);
        self.lemma_effect_keeps_coherence(addr, value);
        let counted = BusView { calls: ((self.calls + 1) % 0x1_0000_0000) as u32, ..self };
        counted.lemma_effect_keeps_coherence(addr, value);
        self.lemma_time_keeps_coherence(1);
        self.ticked(1).lemma_oam_keeps_coherence();
    }

    #[verifier::spinoff_prover]
    proof fn lemma_deferred_keep_coherence(
        self,
        deferred: Seq<(u32, u16, u8)>,
        o: nat,
        n: nat,
    )
        requires
            self.mach().coherent(),
        ensures
            self.deferred_applied(deferred, o, n).mach().coherent(),
        decreases n,
    {
        if n > 0 {
            self.lemma_deferred_keep_coherence(deferred, o, (n - 1) as nat);
            let s = self.deferred_applied(deferred, o, (n - 1) as nat);
            let w = deferred[n - 1];
            s.lemma_effect_keeps_coherence(w.1, w.2);
        }
    }

    #[verifier::spinoff_prover]
    proof fn lemma_oam_service_keeps_coherence(self, read_cycle: bool)
        requires
            self.mach().coherent(),
        ensures
            self.oam_serviced(read_cycle).mach().coherent(),
    {
        reveal(BusView::oam_serviced);
        let s = BusView { oam_from: None, ..self };
        s.lemma_oam_keeps_coherence();
        s.oam_done().lemma_service_keeps_coherence(read_cycle);
    }

    #[verifier::spinoff_prover]
    #[verifier::rlimit(60)]
    proof fn lemma_cycle_keeps_coherence(
        self,
        write_mask: u32,
        oam: Option<u32>,
        deferred: Seq<(u32, u16, u8)>,
        o: nat,
    )
        requires
            self.mach().coherent(),
        ensures
            self.cycle_walked(write_mask, oam, deferred, o).mach().coherent(),
    {
        reveal(BusView::cycle_walked);
        let read_cycle = !crate::dma::writes_at(write_mask, o as int);
        self.lemma_deferred_keep_coherence(deferred, o, deferred.len());
        let a = self.deferred_applied(deferred, o, deferred.len());
        let b = if oam is Some && oam->0 == o {
            BusView { oam_from: Some(crate::dma::later(a.mach().cycles, 1)), ..a }
        } else {
            a
        };
        b.lemma_service_keeps_coherence(read_cycle);
        let c = b.dmc_serviced(read_cycle);
        c.lemma_oam_service_keeps_coherence(read_cycle);
        c.oam_serviced(read_cycle).lemma_time_keeps_coherence(1);
    }

    #[verifier::spinoff_prover]
    proof fn lemma_walk_keeps_coherence(
        self,
        len: nat,
        write_mask: u32,
        oam: Option<u32>,
        deferred: Seq<(u32, u16, u8)>,
        o: nat,
    )
        requires
            self.mach().coherent(),
        ensures
            self.walked(len, write_mask, oam, deferred, o).mach().coherent(),
        decreases len - o,
    {
        if o < len {
            self.lemma_cycle_keeps_coherence(write_mask, oam, deferred, o);
            self.cycle_walked(write_mask, oam, deferred, o).lemma_walk_keeps_coherence(
                len,
                write_mask,
                oam,
                deferred,
                o + 1,
            );
        }
    }

    /// An instruction keeps the DMC coherent: its beginning, and the walk
    /// through its cycles with the DMAs that halt it.
    #[verifier::spinoff_prover]
    pub proof fn lemma_instructions_keep_coherence(self, cycles: u32, write_mask: u32)
        requires
            self.mach().coherent(),
        ensures
            self.instruction_begun().mach().coherent(),
            self.instruction_run(cycles, write_mask).mach().coherent(),
    {
        reveal(BusView::instruction_begun);
        reveal(BusView::instruction_run);
        let oam = match self.oam_call {
            Some(k) => Some(crate::dma::write_offset(write_mask, k as nat, cycles) as u32),
            None => None,
        };
        let s = BusView {
            in_instruction: false,
            oam_call: None,
            deferred: Seq::empty(),
            ..self
        };
        s.lemma_walk_keeps_coherence(
            cycles as nat,
            write_mask,
            oam,
            crate::walk::placed(self.deferred, write_mask, cycles),
            0,
        );
    }

    #[verifier::spinoff_prover]
    proof fn lemma_clearing_keeps_coherence(self, n: nat)
        requires
            self.mach().coherent(),
        ensures
            self.registers_cleared(n).mach().coherent(),
        decreases n,
    {
        if n > 0 {
            self.lemma_clearing_keeps_coherence((n - 1) as nat);
            self.registers_cleared((n - 1) as nat).lemma_writes_keep_coherence(
                (0x4000 + n - 1) as u16,
                0,
            );
        }
    }

    #[verifier::spinoff_prover]
    proof fn lemma_initialising_keeps_coherence(self)
        requires
            self.mach().coherent(),
        ensures
            self.sound_initialised().mach().coherent(),
    {
        reveal(BusView::sound_initialised);
        self.lemma_clearing_keeps_coherence(0x14);
        let a = self.registers_cleared(0x14);
        a.lemma_writes_keep_coherence(0x4015, 0x00);
        let b = a.written(0x4015, 0x00);
        b.lemma_writes_keep_coherence(0x4015, 0x0F);
        b.written(0x4015, 0x0F).lemma_writes_keep_coherence(0x4017, 0x40);
    }

    #[verifier::spinoff_prover]
    proof fn lemma_restoring_keeps_coherence(self, h: HeaderView)
        requires
            self.mach().coherent(),
        ensures
            self.program_restored(h).mach().coherent(),
    {
        reveal(BusView::program_restored);
        let m = Memory {
            bank_select: h.bankswitch_init,
            fds_ram: crate::loading::zeros(0x8000),
            ..self.mem
        };
        let a = self.with_mem(m.fds_banks_shown(8));
        a.lemma_writes_keep_coherence(0x5FF6, h.bankswitch_init[6]);
        a.written(0x5FF6, h.bankswitch_init[6]).lemma_writes_keep_coherence(
            0x5FF7,
            h.bankswitch_init[7],
        );
    }

    /// Putting a tune in, and resetting for it, keep the DMC coherent.
    #[verifier::spinoff_prover]
    pub proof fn lemma_tunes_keep_coherence(self, h: HeaderView)
        requires
            self.mach().coherent(),
        ensures
            self.configured(h).mach().coherent(),
            self.tune_reset(h).mach().coherent(),
    {
        reveal(Machine::coherent);
        reveal(BusView::configured);
        reveal(BusView::tune_reset);
        self.mach().apu.0.lemma_chips_and_dmc(h.expansion);
        let a = self.with_mem(self.mem.cleared());
        a.lemma_initialising_keeps_coherence();
        a.sound_initialised().lemma_restoring_keeps_coherence(h);
    }

    /// The DMC is coherent after power-on.
    #[verifier::spinoff_prover]
    pub proof fn lemma_power_on_is_coherent(self)
        requires
            self.power_on(),
        ensures
            self.mach().coherent(),
    {
        reveal(Machine::coherent);
    }

    /// On a bus whose DMC is coherent it does not matter how a stretch of time
    /// is cut into batches.
    #[verifier::spinoff_prover]
    pub proof fn lemma_ticks_split(self, a: nat, b: nat)
        requires
            self.mach().coherent(),
        ensures
            self.ticked(a + b) == self.ticked(a).ticked(b),
    {
        reveal(Machine::coherent);
        self.mach().lemma_ticks_split(a, b);
    }
}

impl System {
    /// The DMC on the bus is coherent.
    pub open spec fn coherent(self) -> bool {
        self.bus.mach().coherent()
    }

    #[verifier::spinoff_prover]
    proof fn lemma_access_keeps_coherence(self, addr: u16, value: u8)
        requires
            self.coherent(),
        ensures
            self.read(addr).coherent(),
            self.write(addr, value).coherent(),
    {
        self.bus.lemma_reads_keep_coherence(addr);
        self.bus.lemma_writes_keep_coherence(addr, value);
    }

    #[verifier::spinoff_prover]
    proof fn lemma_fetches_keep_coherence(self)
        requires
            self.coherent(),
        ensures
            self.fetched().coherent(),
            self.word_fetched().coherent(),
    {
        reveal(System::fetched);
        reveal(System::word_fetched);
        self.lemma_access_keeps_coherence(self.cpu.pc, 0);
        self.fetched().lemma_access_keeps_coherence(self.fetched().cpu.pc, 0);
    }

    #[verifier::spinoff_prover]
    proof fn lemma_two_reads_keep_coherence(self, lo: u16, hi: u16)
        requires
            self.coherent(),
        ensures
            self.read_two(lo, hi).coherent(),
    {
        reveal(System::read_two);
        self.lemma_access_keeps_coherence(lo, 0);
        self.read(lo).lemma_access_keeps_coherence(hi, 0);
    }

    #[verifier::spinoff_prover]
    proof fn lemma_push_keeps_coherence(self, value: u8)
        requires
            self.coherent(),
        ensures
            self.pushed(value).coherent(),
    {
        reveal(System::pushed);
        self.lemma_access_keeps_coherence(crate::cpu::stack_at(self.cpu.sp), value);
    }

    #[verifier::spinoff_prover]
    proof fn lemma_word_push_keeps_coherence(self, value: u16)
        requires
            self.coherent(),
        ensures
            self.word_pushed(value).coherent(),
    {
        reveal(System::word_pushed);
        self.lemma_push_keeps_coherence(crate::cpu::high(value));
        self.pushed(crate::cpu::high(value)).lemma_push_keeps_coherence(crate::cpu::low(value));
    }

    #[verifier::spinoff_prover]
    proof fn lemma_pops_keep_coherence(self)
        requires
            self.coherent(),
        ensures
            self.popped().coherent(),
            self.word_popped().coherent(),
    {
        reveal(System::popped);
        reveal(System::word_popped);
        self.lemma_access_keeps_coherence(self.top(), 0);
        self.popped().lemma_access_keeps_coherence(self.popped().top(), 0);
    }

    #[verifier::spinoff_prover]
    proof fn lemma_locating_keeps_coherence(self, mode: Mode)
        requires
            self.coherent(),
        ensures
            self.located(mode).sys.coherent(),
    {
        reveal(System::located);
        reveal(System::located_in_zero_page);
        reveal(System::located_absolute);
        self.lemma_fetches_keep_coherence();
        match mode {
            Mode::IndirectX => self.lemma_indirect_keeps_coherence(self.cpu.x, 0),
            Mode::IndirectY => self.lemma_indirect_keeps_coherence(0, self.cpu.y),
            _ => {},
        }
    }

    #[verifier::spinoff_prover]
    proof fn lemma_indirect_keeps_coherence(self, before: u8, after: u8)
        requires
            self.coherent(),
        ensures
            self.located_through(before, after).sys.coherent(),
    {
        reveal(System::located_through);
        self.lemma_fetches_keep_coherence();
        let zp = crate::cpu::plus8(self.next_byte(), before);
        self.fetched().lemma_two_reads_keep_coherence(
            zp as u16,
            crate::cpu::plus8(zp, 1) as u16,
        );
    }

    #[verifier::spinoff_prover]
    proof fn lemma_operands_keep_coherence(self, op: Op, mode: Mode)
        requires
            self.coherent(),
        ensures
            self.read_done(op, mode).coherent(),
            self.store_done(op, mode).coherent(),
            self.modify_done(op, mode).coherent(),
            self.skip_done(mode).coherent(),
    {
        reveal(System::read_done);
        reveal(System::store_done);
        reveal(System::modify_done);
        reveal(System::skip_done);
        self.lemma_locating_keeps_coherence(mode);
        self.lemma_fetches_keep_coherence();
        let at = self.located(mode);
        at.sys.lemma_access_keeps_coherence(at.addr, at.sys.cpu.stored(op, at.base));
        let s = at.sys.read(at.addr);
        let v = s.cpu.after_modifying(op, at.sys.bus.read_value(at.addr)).0;
        s.lemma_access_keeps_coherence(at.addr, v);
    }

    #[verifier::spinoff_prover]
    proof fn lemma_stack_keeps_coherence(self, op: Op)
        requires
            self.coherent(),
        ensures
            self.stack_done(op).coherent(),
            self.branch_done(op).coherent(),
            self.accumulator_done(op).coherent(),
    {
        reveal(System::stack_done);
        reveal(System::branch_done);
        reveal(System::accumulator_done);
        self.lemma_push_keeps_coherence(self.cpu.a);
        self.lemma_push_keeps_coherence(self.cpu.p | FLAG_B | FLAG_U);
        self.lemma_pops_keep_coherence();
        self.lemma_fetches_keep_coherence();
    }

    #[verifier::spinoff_prover]
    proof fn lemma_vector_keeps_coherence(self, vector: u16)
        requires
            self.coherent(),
        ensures
            self.vectored(vector).coherent(),
    {
        reveal(System::vectored);
        let s = self.with_cpu((Cpu6502 { p: self.cpu.p | FLAG_I, ..self.cpu }));
        s.lemma_two_reads_keep_coherence(vector, crate::cpu::plus16(vector, 1));
    }

    #[verifier::spinoff_prover]
    proof fn lemma_jumps_keep_coherence(self, op: Op, mode: Mode)
        requires
            self.coherent(),
        ensures
            self.jump_done(op, mode).coherent(),
    {
        reveal(System::jump_done);
        match op {
            Op::Jmp => {
                self.lemma_fetches_keep_coherence();
                let w = self.next_word();
                self.word_fetched().lemma_two_reads_keep_coherence(
                    w,
                    crate::cpu::after_in_page(w),
                );
            },
            Op::Jsr => {
                self.lemma_fetches_keep_coherence();
                let s = self.word_fetched();
                s.lemma_word_push_keeps_coherence(crate::cpu::minus_one(s.cpu.pc));
            },
            Op::Rts => self.lemma_pops_keep_coherence(),
            Op::Rti => {
                self.lemma_pops_keep_coherence();
                self.popped().lemma_pops_keep_coherence();
            },
            Op::Brk => {
                let w = crate::cpu::plus16(self.cpu.pc, 1);
                self.lemma_word_push_keeps_coherence(w);
                let s = self.word_pushed(w);
                let f = s.cpu.p | FLAG_B | FLAG_U;
                s.lemma_push_keeps_coherence(f);
                s.pushed(f).lemma_vector_keeps_coherence(0xFFFE);
            },
            _ => {},
        }
    }

    #[verifier::spinoff_prover]
    proof fn lemma_opcodes_keep_coherence(self, opcode: u8)
        requires
            self.coherent(),
        ensures
            self.executed(opcode).coherent(),
    {
        reveal(System::executed);
        let op = crate::opcodes::op_of(opcode);
        let mode = crate::opcodes::mode_of(opcode);
        self.lemma_operands_keep_coherence(op, mode);
        self.lemma_stack_keeps_coherence(op);
        self.lemma_jumps_keep_coherence(op, mode);
    }

    #[verifier::spinoff_prover]
    proof fn lemma_interrupts_keep_coherence(self, vector: u16)
        requires
            self.coherent(),
        ensures
            self.interrupted(vector).coherent(),
    {
        reveal(System::interrupted);
        self.lemma_word_push_keeps_coherence(self.cpu.pc);
        let s = self.word_pushed(self.cpu.pc);
        let f = (s.cpu.p & !FLAG_B) | FLAG_U;
        s.lemma_push_keeps_coherence(f);
        s.pushed(f).lemma_vector_keeps_coherence(vector);
    }

    #[verifier::spinoff_prover]
    proof fn lemma_timing_keeps_coherence(self, cycles: u32, write_mask: u32)
        requires
            self.coherent(),
        ensures
            self.begun().coherent(),
            self.timed(cycles, write_mask).coherent(),
    {
        self.bus.lemma_instructions_keep_coherence(cycles, write_mask);
        reveal(BusView::stall_taken);
        self.bus.instruction_run(cycles, write_mask).mach().lemma_coherent_parts(0);
    }

    /// A step of the CPU keeps the DMC coherent: what holds after power-on holds
    /// for good.
    #[verifier::spinoff_prover]
    pub proof fn lemma_steps_keep_coherence(self)
        requires
            self.coherent(),
        ensures
            self.stepped().1.coherent(),
    {
        reveal(System::stepped);
        let n = self.nmi_taken();
        assert(n.coherent());
        n.lemma_timing_keeps_coherence(0, 0);
        let b = n.begun();
        match self.interrupt_due() {
            Some(vector) => {
                b.lemma_interrupts_keep_coherence(vector);
                b.interrupted(vector).lemma_timing_keeps_coherence(7, INTERRUPT_WRITE_MASK);
            },
            None => {
                let opcode = b.next_byte();
                b.lemma_fetches_keep_coherence();
                let f = b.fetched();
                let cycles = f.cycles_of(opcode);
                f.lemma_opcodes_keep_coherence(opcode);
                f.executed(opcode).lemma_timing_keeps_coherence(
                    cycles,
                    crate::cpu::writes_of(opcode, cycles),
                );
            },
        }
    }
}

} // verus!
