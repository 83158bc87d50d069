//! Reads and writes, the DMAs that halt the CPU, and the walk of the machine
//! through an instruction.
use vstd::prelude::*;
use crate::bus::{BusView, Machine, NesBus, Whole};
use crate::dma::{cycles_after, disable_dma, first_get, DmcDmaKind, ScheduledDmcDma};

verus! {

impl BusView {
    /// The same bus with another machine state.
    pub open spec fn with_mach(self, mach: Machine) -> Self {
        BusView { machine: Whole(mach), ..self }
    }

    /// The same bus without a scheduled DMC DMA.
    pub open spec fn without_dma(self) -> Self {
        BusView { machine: Whole(Machine { dma: None, ..self.mach() }), ..self }
    }

    /// The DMC fetch that is under way is dropped.
    pub open spec fn fetch_cancelled(self) -> Self {
        BusView {
            machine: Whole(Machine { apu: Whole(self.mach().apu.0.fetch_cancelled()), ..self.mach() }),
            ..self
        }
    }

    /// `n` cycles pass that a DMA steals from the CPU.
    pub open spec fn stalled(self, n: nat) -> Self {
        BusView {
            machine: Whole(
                Machine {
                    stall: crate::bus::stall_sum(self.mach().stall, n),
                    ..self.mach()
                },
            ),
            ..self
        }.ticked(n)
    }

    /// The byte that a DMC DMA reads reaches the DMC.
    #[verifier::opaque]
    pub open spec fn byte_fetched(self, s: ScheduledDmcDma) -> Self {
        let byte = self.read_value(s.addr);
        let read = self.after_read(s.addr);
        BusView {
            machine: Whole(Machine {
                apu: Whole(if s.kind == DmcDmaKind::Unexpected {
                    read.mach().apu.0.unexpected_byte_supplied(byte)
                } else {
                    read.mach().apu.0.byte_supplied(byte)
                }),
                ..read.mach()
            }),
            ..read
        }
    }

    /// A scheduled DMC DMA whose halt succeeds before the next CPU cycle is
    /// carried out: it takes three cycles from a get cycle and four from a
    /// put cycle. An aborted one takes a single cycle, and only if its first
    /// attempt succeeds.
    #[verifier::opaque]
    pub open spec fn dmc_serviced(self, read_cycle: bool) -> Self {
        match self.mach().dma {
            None => self,
            Some(s) => {
                let now = self.mach().cycles;
                let aborted = s.kind == DmcDmaKind::Aborted;
                if now < s.halt_from || !(aborted || read_cycle) {
                    self
                } else if aborted {
                    if now == s.halt_from && read_cycle {
                        self.without_dma().stalled(1).fetch_cancelled()
                    } else {
                        self.without_dma().fetch_cancelled()
                    }
                } else if now % 2 == 0 {
                    self.without_dma().stalled(3).byte_fetched(s)
                } else {
                    self.without_dma().stalled(4).byte_fetched(s)
                }
            },
        }
    }

    /// The scheduled DMC DMA that can run on this cycle of an OAM DMA, if any:
    /// it halts on a put cycle.
    pub open spec fn dma_in_oam(self) -> Option<ScheduledDmcDma> {
        match self.mach().dma {
            Some(s) => if s.kind != DmcDmaKind::Aborted && self.mach().cycles >= s.halt_from
                && self.mach().cycles % 2 == 1 {
                Some(s)
            } else {
                None
            },
            None => None,
        }
    }

    /// A DMC DMA inside an OAM DMA: three cycles that the OAM DMA can use too,
    /// then the fetch, which it cannot.
    #[verifier::opaque]
    pub open spec fn fetched_in_oam(self, s: ScheduledDmcDma) -> Self {
        self.without_dma().ticked(1).ticked(1).ticked(1).byte_fetched(s).ticked(1)
    }

    /// The rest of an OAM DMA, of which `remaining` gets and puts are left.
    /// After a DMC fetch in between it takes a cycle to get back into step.
    pub open spec fn oam_copied(self, remaining: nat) -> Self
        decreases remaining,
    {
        if remaining == 0 {
            self
        } else {
            match self.dma_in_oam() {
                None => self.ticked(1).oam_copied((remaining - 1) as nat),
                Some(s) => if remaining <= 3 {
                    self.fetched_in_oam(s)
                } else {
                    self.fetched_in_oam(s).ticked(1).oam_copied((remaining - 3) as nat)
                },
            }
        }
    }

    /// A whole OAM DMA: the halt, a cycle to get into step if the halt falls
    /// on a get cycle, and 256 gets and puts. All of it is stolen time.
    #[verifier::opaque]
    pub open spec fn oam_done(self) -> Self {
        let halted = self.ticked(1);
        let ready = if self.mach().cycles % 2 == 0 { halted.ticked(1) } else { halted };
        let r = ready.oam_copied(512);
        let total = crate::dma::later(r.mach().cycles, -self.mach().cycles) as u32;
        BusView {
            machine: Whole(Machine {
                stall: crate::bus::stall_sum(r.mach().stall, total as nat),
                ..r.mach()
            }),
            ..r
        }
    }

    /// State after a write. Within an instruction the writes whose timing
    /// matters wait for their cycle; an OAM DMA outside an instruction runs at
    /// once.
    #[verifier::opaque]
    pub open spec fn written(self, addr: u16, value: u8) -> Self {
        if self.in_instruction {
            let calls = ((self.calls + 1) % 0x1_0000_0000) as u32;
            let s = BusView { calls, ..self };
            if addr == 0x4014 {
                BusView { oam_call: Some(self.calls), ..s }
            } else if is_timed(addr) {
                BusView { deferred: self.deferred.push((self.calls, addr, value)), ..s }
            } else {
                s.applied(addr, value)
            }
        } else if addr == 0x4014 {
            self.ticked(1).oam_done()
        } else {
            self.applied(addr, value)
        }
    }

    /// The waiting writes among the first `n` that fall on cycle `o` take
    /// effect, in order.
    pub open spec fn deferred_applied(self, deferred: Seq<(u32, u16, u8)>, o: nat, n: nat) -> Self
        decreases n,
    {
        if n == 0 {
            self
        } else {
            let s = self.deferred_applied(deferred, o, (n - 1) as nat);
            let w = deferred[n - 1];
            if w.0 == o { s.applied(w.1, w.2) } else { s }
        }
    }

    /// An OAM DMA that is due halts the CPU on a read cycle; a DMC DMA may
    /// follow right behind it.
    #[verifier::opaque]
    pub open spec fn oam_serviced(self, read_cycle: bool) -> Self {
        match self.oam_from {
            Some(from) => if read_cycle && self.mach().cycles >= from {
                (BusView { oam_from: None, ..self }).oam_done().dmc_serviced(read_cycle)
            } else {
                self
            },
            None => self,
        }
    }

    /// One CPU cycle of an instruction: waiting writes, the start of an OAM
    /// DMA, the DMAs that halt before it, and the cycle itself.
    #[verifier::opaque]
    pub open spec fn cycle_walked(
        self,
        write_mask: u32,
        oam: Option<u32>,
        deferred: Seq<(u32, u16, u8)>,
        o: nat,
    ) -> Self {
        let read_cycle = !crate::dma::writes_at(write_mask, o as int);
        let a = self.deferred_applied(deferred, o, deferred.len());
        let b = if oam is Some && oam->0 == o {
            BusView { oam_from: Some(crate::dma::later(a.mach().cycles, 1)), ..a }
        } else {
            a
        };
        b.dmc_serviced(read_cycle).oam_serviced(read_cycle).ticked(1)
    }

    /// The CPU cycles from `o` to `len` of an instruction.
    pub open spec fn walked(
        self,
        len: nat,
        write_mask: u32,
        oam: Option<u32>,
        deferred: Seq<(u32, u16, u8)>,
        o: nat,
    ) -> Self
        decreases len - o,
    {
        if o >= len {
            self
        } else {
            self.cycle_walked(write_mask, oam, deferred, o).walked(
                len,
                write_mask,
                oam,
                deferred,
                o + 1,
            )
        }
    }

    /// An instruction begins.
    #[verifier::opaque]
    pub open spec fn instruction_begun(self) -> Self {
        BusView {
            in_instruction: true,
            calls: 0,
            oam_call: None,
            deferred: Seq::empty(),
            ..self
        }
    }

    /// The time of an instruction passes; the writes that wait take effect on
    /// their cycles.
    #[verifier::opaque]
    pub open spec fn instruction_run(self, cycles: u32, write_mask: u32) -> Self {
        let oam = match self.oam_call {
            Some(k) => Some(
                crate::dma::write_offset(write_mask, k as nat, cycles) as u32,
            ),
            None => None,
        };
        let s = BusView {
            in_instruction: false,
            oam_call: None,
            deferred: Seq::empty(),
            ..self
        };
        s.walked(cycles as nat, write_mask, oam, placed(self.deferred, write_mask, cycles), 0)
    }

    /// The stolen cycles are taken.
    #[verifier::opaque]
    pub open spec fn stall_taken(self) -> Self {
        BusView { machine: Whole(Machine { stall: 0, ..self.mach() }), ..self }
    }

    /// Whether a device asserts the CPU interrupt line.
    #[verifier::opaque]
    pub open spec fn irq_asserted(self) -> bool {
        (self.mach().timer.enabled && self.mach().timer.irq_flag) || self.mach().apu.0.irq_asserted()
    }
}

/// Waiting writes with the cycle of each in place of its number.
pub open spec fn placed(deferred: Seq<(u32, u16, u8)>, write_mask: u32, cycles: u32) -> Seq<
    (u32, u16, u8),
> {
    Seq::new(
        deferred.len(),
        |i: int|
            (
                crate::dma::write_offset(write_mask, deferred[i].0 as nat, cycles) as u32,
                deferred[i].1,
                deferred[i].2,
            ),
    )
}

/// Registers for which the cycle of a write within the instruction matters.
pub open spec fn is_timed(addr: u16) -> bool {
    ||| 0x4000 <= addr <= 0x4013
    ||| addr == 0x4015
    ||| addr == 0x4017
    ||| 0x401B <= addr <= 0x401D
}

impl NesBus {
    /// Read a byte.
    #[verifier::spinoff_prover]
    pub fn read(&mut self, addr: u16) -> (r: u8)
        requires
            old(self).wf(),
        ensures
            r == old(self)@.read_value(addr),
            final(self)@ == old(self)@.after_read(addr),
            addr < 0x2000 ==> r == old(self)@.mem.ram[(addr % 0x0800) as int],
            final(self).wf(),
    {
        reveal(BusView::read_value);
        reveal(BusView::after_read);
        if addr < 0x2000 {
            self.ram[(addr % 0x0800) as usize]
        } else if addr < 0x4015 {
            0xFF
        } else if addr < 0x6000 {
            self.read_device(addr)
        } else if addr < 0x8000 {
            self.cart_ram[(addr - 0x6000) as usize]
        } else if addr >= 0xFFFA && self.vector_overlay_active {
            self.vector_overlay[(addr - 0xFFFA) as usize]
        } else {
            let byte: u8 = self.read_program(addr);
            self.observe_program_read(addr, byte);
            byte
        }
    }

    #[verifier::spinoff_prover]
    fn observe_program_read(&mut self, addr: u16, byte: u8)
        requires
            old(self).wf(),
        ensures
            final(self)@ == old(self)@.with_mach(
                (Machine {
                    apu: Whole(old(self)@.mach().apu.0.prg_observed(addr, byte)),
                    ..old(self)@.mach()
                }),
            ),
            final(self).wf(),
    {
        reveal(NesBus::wf);
        self.apu.observe_prg_read(addr, byte);
    }

    #[verifier::spinoff_prover]
    fn read_device(&mut self, addr: u16) -> (r: u8)
        requires
            old(self).wf(),
            0x4015 <= addr < 0x6000,
        ensures
            r == old(self)@.mach().read_value(addr),
            final(self)@ == old(self)@.with_mach(old(self)@.mach().after_read(addr)),
            final(self).wf(),
    {
        if addr == 0x4015 {
            self.read_apu_status()
        } else if addr <= 0x4017 {
            0xFF
        } else if 0x401B <= addr && addr <= 0x401D && self.nsf2_timer.enabled {
            self.read_timer(addr)
        } else {
            self.read_expansion(addr)
        }
    }

    #[verifier::spinoff_prover]
    fn read_apu_status(&mut self) -> (r: u8)
        requires
            old(self).wf(),
        ensures
            r == old(self)@.mach().apu.0.status_value(),
            final(self)@ == old(self)@.with_mach(
                (Machine { apu: Whole(old(self)@.mach().apu.0.status_read()), ..old(self)@.mach() }),
            ),
            final(self).wf(),
    {
        reveal(NesBus::wf);
        self.apu.read_status()
    }

    #[verifier::spinoff_prover]
    fn read_timer(&mut self, addr: u16) -> (r: u8)
        requires
            old(self).wf(),
            0x401B <= addr <= 0x401D,
            old(self)@.mach().timer.enabled,
        ensures
            r == old(self)@.mach().timer.read_value(addr)->0,
            final(self)@ == old(self)@.with_mach(
                (Machine {
                    timer: old(self)@.mach().timer.after_read(addr),
                    ..old(self)@.mach()
                }),
            ),
            final(self).wf(),
    {
        reveal(NesBus::wf);
        match self.nsf2_timer.read(addr) {
            Some(v) => v,
            None => 0xFF,
        }
    }

    #[verifier::spinoff_prover]
    fn read_expansion(&mut self, addr: u16) -> (r: u8)
        requires
            old(self).wf(),
        ensures
            r == old(self)@.mach().apu.0.expansion.read_value(addr),
            final(self)@ == old(self)@.with_mach(
                (Machine {
                    apu: Whole(old(self)@.mach().apu.0.expansion_read(addr)),
                    ..old(self)@.mach()
                }),
            ),
            final(self).wf(),
    {
        reveal(NesBus::wf);
        proof {
            self.apu.lemma_expansion_wf();
            self.apu.expansion.lemma_takes_all(addr);
        }
        self.apu.read_expansion(addr)
    }

    /// Write a byte. Within an instruction the writes whose timing matters
    /// wait for their cycle.
    #[verifier::spinoff_prover]
    pub fn write(&mut self, addr: u16, value: u8)
        requires
            old(self).wf(),
        ensures
            final(self)@ == old(self)@.written(addr, value),
            final(self).wf(),
    {
        reveal(BusView::written);
        if self.in_instruction {
            let call: u32 = self.count_write();
            if addr == 0x4014 {
                self.note_oam(call);
                return ;
            }
            if (0x4000 <= addr && addr <= 0x4013) || addr == 0x4015 || addr == 0x4017 || (0x401B
                <= addr && addr <= 0x401D) {
                self.defer_write(call, addr, value);
                return ;
            }
        } else if addr == 0x4014 {
            self.tick_machine(1);
            self.run_oam_window();
            return ;
        }
        self.apply_write(addr, value);
    }

    /// Count a write of the current instruction; returns its number.
    #[verifier::spinoff_prover]
    fn count_write(&mut self) -> (call: u32)
        requires
            old(self).wf(),
        ensures
            call == old(self)@.calls,
            final(self)@ == (BusView {
                calls: ((old(self)@.calls + 1) % 0x1_0000_0000) as u32,
                ..old(self)@
            }),
            final(self).wf(),
    {
        reveal(NesBus::wf);
        let call: u32 = self.instr_write_calls;
        self.instr_write_calls = call.wrapping_add(1);
        call
    }

    #[verifier::spinoff_prover]
    fn note_oam(&mut self, call: u32)
        requires
            old(self).wf(),
        ensures
            final(self)@ == (BusView { oam_call: Some(call), ..old(self)@ }),
            final(self).wf(),
    {
        reveal(NesBus::wf);
        self.oam_trigger_call = Some(call);
    }

    #[verifier::spinoff_prover]
    fn defer_write(&mut self, call: u32, addr: u16, value: u8)
        requires
            old(self).wf(),
        ensures
            final(self)@ == (BusView {
                deferred: old(self)@.deferred.push((call, addr, value)),
                ..old(self)@
            }),
            final(self).wf(),
    {
        reveal(NesBus::wf);
        self.deferred_writes.push((call, addr, value));
    }

    /// Let a write take effect.
    #[verifier::spinoff_prover]
    pub(crate) fn apply_write(&mut self, addr: u16, value: u8)
        requires
            old(self).wf(),
        ensures
            final(self)@ == old(self)@.applied(addr, value),
            final(self).wf(),
    {
        reveal(BusView::applied);
        self.write_device(addr, value);
        self.write_memory(addr, value);
    }

    #[verifier::spinoff_prover]
    fn write_device(&mut self, addr: u16, value: u8)
        requires
            old(self).wf(),
        ensures
            final(self)@ == old(self)@.with_mach(
                old(self)@.mach().written(
                    addr,
                    value,
                    old(self)@.mem.fds_enabled,
                    old(self)@.mem.overlay_active,
                ),
            ),
            final(self).wf(),
    {
        if 0x4000 <= addr && addr <= 0x4013 {
            self.write_apu_register(addr, value);
        } else if addr == 0x4015 {
            self.write_apu_status(value);
        } else if addr == 0x4017 {
            self.write_apu_frame(value);
        } else if 0x401B <= addr && addr <= 0x401D && self.nsf2_timer.enabled {
            self.write_timer(addr, value);
        } else if (0x4018 <= addr && addr < 0x5FF6) || ((addr == 0x5FF6 || addr == 0x5FF7)
            && !self.fds_enabled) || (addr >= 0x8000 && !(self.vector_overlay_active && addr
            >= 0xFFFE)) {
            self.write_expansion(addr, value);
        }
    }

    #[verifier::spinoff_prover]
    fn write_apu_register(&mut self, addr: u16, value: u8)
        requires
            old(self).wf(),
        ensures
            final(self)@ == old(self)@.with_mach(
                (Machine {
                    apu: Whole(old(self)@.mach().apu.0.register_written(addr, value)),
                    ..old(self)@.mach()
                }),
            ),
            final(self).wf(),
    {
        reveal(NesBus::wf);
        self.apu.write_register(addr, value);
    }

    #[verifier::spinoff_prover]
    fn write_apu_frame(&mut self, value: u8)
        requires
            old(self).wf(),
        ensures
            final(self)@ == old(self)@.with_mach(
                (Machine {
                    apu: Whole(old(self)@.mach().apu.0.frame_written(value)),
                    ..old(self)@.mach()
                }),
            ),
            final(self).wf(),
    {
        reveal(NesBus::wf);
        self.apu.write_frame_counter(value);
    }

    #[verifier::spinoff_prover]
    fn write_timer(&mut self, addr: u16, value: u8)
        requires
            old(self).wf(),
        ensures
            final(self)@ == old(self)@.with_mach(
                (Machine {
                    timer: old(self)@.mach().timer.written(addr, value),
                    ..old(self)@.mach()
                }),
            ),
            final(self).wf(),
    {
        reveal(NesBus::wf);
        self.nsf2_timer.write(addr, value);
    }

    #[verifier::spinoff_prover]
    fn write_expansion(&mut self, addr: u16, value: u8)
        requires
            old(self).wf(),
        ensures
            final(self)@ == old(self)@.with_mach(
                (Machine {
                    apu: Whole(old(self)@.mach().apu.0.expansion_written(addr, value)),
                    ..old(self)@.mach()
                }),
            ),
            final(self).wf(),
    {
        reveal(NesBus::wf);
        proof {
            self.apu.lemma_expansion_wf();
            self.apu.expansion.lemma_takes_all(addr);
        }
        self.apu.write_expansion(addr, value);
    }

    #[verifier::spinoff_prover]
    fn write_apu_status(&mut self, value: u8)
        requires
            old(self).wf(),
        ensures
            final(self)@ == old(self)@.with_mach(
                (Machine {
                    apu: Whole(old(self)@.mach().apu.0.status_written_except_dmc(value)),
                    ..old(self)@.mach()
                }).dmc_switched(value & 0x10 != 0),
            ),
            final(self).wf(),
    {
        self.write_channel_enables(value);
        self.apply_dmc_enable(value & 0x10 != 0);
    }

    #[verifier::spinoff_prover]
    fn write_channel_enables(&mut self, value: u8)
        requires
            old(self).wf(),
        ensures
            final(self)@ == old(self)@.with_mach(
                (Machine {
                    apu: Whole(old(self)@.mach().apu.0.status_written_except_dmc(value)),
                    ..old(self)@.mach()
                }),
            ),
            final(self).wf(),
    {
        reveal(NesBus::wf);
        self.apu.write_status_except_dmc_enable(value);
    }

    /// Switch the DMC on or off on the current cycle.
    #[verifier::spinoff_prover]
    fn apply_dmc_enable(&mut self, on: bool)
        requires
            old(self).wf(),
        ensures
            final(self)@ == old(self)@.with_mach(old(self)@.mach().dmc_switched(on)),
            final(self).wf(),
    {
        reveal(NesBus::wf);
        if on {
            self.apu.dmc_set_enabled(true);
            self.dmc_load_halt_from = Some(first_get(cycles_after(self.cycles, 3)));
        } else {
            let had_dma = self.dmc_dma.is_some();
            self.dmc_dma = disable_dma(self.dmc_dma, self.cycles);
            if had_dma && self.dmc_dma.is_none() {
                self.apu.dmc_cancel_in_flight();
            }
            self.apu.dmc_set_enabled(false);
            self.dmc_load_halt_from = None;
        }
    }

    /// Advance the machine by `n` cycles that a DMA steals from the CPU.
    #[verifier::spinoff_prover]
    fn stall_ticks(&mut self, n: u32)
        requires
            old(self).wf(),
        ensures
            final(self)@ == old(self)@.stalled(n as nat),
            final(self).wf(),
    {
        proof {
            reveal(NesBus::wf);
        }
        self.pending_dma_stall = self.pending_dma_stall.saturating_add(n);
        self.tick_machine(n);
    }

    /// Hand the byte that a DMC DMA reads to the DMC.
    #[verifier::spinoff_prover]
    fn fetch_byte(&mut self, s: ScheduledDmcDma)
        requires
            old(self).wf(),
        ensures
            final(self)@ == old(self)@.byte_fetched(s),
            final(self).wf(),
    {
        reveal(BusView::byte_fetched);
        let byte: u8 = self.read(s.addr);
        self.supply_byte(byte, s.kind);
    }

    #[verifier::spinoff_prover]
    fn supply_byte(&mut self, byte: u8, kind: DmcDmaKind)
        requires
            old(self).wf(),
        ensures
            final(self)@ == old(self)@.with_mach(
                (Machine {
                    apu: Whole(if kind == DmcDmaKind::Unexpected {
                        old(self)@.mach().apu.0.unexpected_byte_supplied(byte)
                    } else {
                        old(self)@.mach().apu.0.byte_supplied(byte)
                    }),
                    ..old(self)@.mach()
                }),
            ),
            final(self).wf(),
    {
        reveal(NesBus::wf);
        if kind == DmcDmaKind::Unexpected {
            self.apu.dmc_supply_unexpected_byte(byte);
        } else {
            self.apu.dmc_supply_byte(byte);
        }
    }

    #[verifier::spinoff_prover]
    fn cancel_fetch(&mut self)
        requires
            old(self).wf(),
        ensures
            final(self)@ == old(self)@.fetch_cancelled(),
            final(self).wf(),
    {
        reveal(NesBus::wf);
        self.apu.dmc_cancel_in_flight();
    }

    #[verifier::spinoff_prover]
    fn drop_dma(&mut self)
        requires
            old(self).wf(),
        ensures
            final(self)@ == old(self)@.without_dma(),
            final(self).wf(),
    {
        reveal(NesBus::wf);
        self.dmc_dma = None;
    }

    /// Carry out a scheduled DMC DMA whose halt succeeds before the next CPU
    /// cycle, which is a read or not.
    #[verifier::spinoff_prover]
    pub(crate) fn service_dmc_dma(&mut self, read_cycle: bool)
        requires
            old(self).wf(),
        ensures
            final(self)@ == old(self)@.dmc_serviced(read_cycle),
            final(self).wf(),
    {
        reveal(BusView::dmc_serviced);
        if let Some(s) = self.dmc_dma {
            let now: u64 = self.cycles;
            let aborted = s.kind == DmcDmaKind::Aborted;
            if now < s.halt_from || !(aborted || read_cycle) {
                return ;
            }
            self.drop_dma();
            if aborted {
                if now == s.halt_from && read_cycle {
                    self.stall_ticks(1);
                }
                self.cancel_fetch();
            } else {
                let stall: u32 = if now % 2 == 0 { 3 } else { 4 };
                self.stall_ticks(stall);
                self.fetch_byte(s);
            }
        }
    }

    /// The scheduled DMC DMA that can run on this cycle of an OAM DMA, if any.
    #[verifier::spinoff_prover]
    fn due_in_oam(&self) -> (r: Option<ScheduledDmcDma>)
        ensures
            r == self@.dma_in_oam(),
    {
        match self.dmc_dma {
            Some(s) => {
                if s.kind != DmcDmaKind::Aborted && self.cycles >= s.halt_from && self.cycles % 2
                    == 1 {
                    Some(s)
                } else {
                    None
                }
            },
            None => None,
        }
    }

    #[verifier::spinoff_prover]
    fn fetch_in_oam(&mut self, s: ScheduledDmcDma)
        requires
            old(self).wf(),
        ensures
            final(self)@ == old(self)@.fetched_in_oam(s),
            final(self).wf(),
    {
        reveal(BusView::fetched_in_oam);
        self.drop_dma();
        self.tick_machine(1);
        self.tick_machine(1);
        self.tick_machine(1);
        self.fetch_byte(s);
        self.tick_machine(1);
    }

    /// Carry out the gets and puts of an OAM DMA.
    #[verifier::spinoff_prover]
    fn copy_oam(&mut self)
        requires
            old(self).wf(),
        ensures
            final(self)@ == old(self)@.oam_copied(512),
            final(self).wf(),
    {
        let mut remaining: u32 = 512;
        while remaining > 0
            invariant
                self.wf(),
                self@.oam_copied(remaining as nat) == old(self)@.oam_copied(512),
            decreases remaining,
        {
            if let Some(s) = self.due_in_oam() {
                self.fetch_in_oam(s);
                if remaining > 3 {
                    self.tick_machine(1);
                    remaining = remaining - 3;
                } else {
                    remaining = 0;
                }
            } else {
                self.tick_machine(1);
                remaining = remaining - 1;
            }
        }
    }

    /// Carry out an OAM DMA from its halt on.
    #[verifier::spinoff_prover]
    pub(crate) fn run_oam_window(&mut self)
        requires
            old(self).wf(),
        ensures
            final(self)@ == old(self)@.oam_done(),
            final(self).wf(),
    {
        reveal(BusView::oam_done);
        let start: u64 = self.cycles;
        self.tick_machine(1);
        if start % 2 == 0 {
            self.tick_machine(1);
        }
        self.copy_oam();
        let total: u32 = crate::dma::cycles_between(start, self.cycles) as u32;
        self.add_stall(total);
    }

    #[verifier::spinoff_prover]
    fn add_stall(&mut self, n: u32)
        requires
            old(self).wf(),
        ensures
            final(self)@ == old(self)@.with_mach(
                (Machine {
                    stall: crate::bus::stall_sum(old(self)@.mach().stall, n as nat),
                    ..old(self)@.mach()
                }),
            ),
            final(self).wf(),
    {
        reveal(NesBus::wf);
        self.pending_dma_stall = self.pending_dma_stall.saturating_add(n);
    }
}

} // verus!
