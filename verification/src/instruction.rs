//! The time that instructions take, and the interrupt lines.
use vstd::prelude::*;
use crate::bus::{BusView, NesBus};
use crate::dma::{cycles_after, is_read_cycle, nth_write_offset};

verus! {

impl NesBus {
    /// Let `cycles` CPU cycles pass in which the CPU only reads.
    #[verifier::spinoff_prover]
    pub fn tick_cycles(&mut self, cycles: u32)
        requires
            old(self).wf(),
        ensures
            final(self)@ == old(self)@.walked(cycles as nat, 0, None, Seq::empty(), 0),
            final(self).wf(),
    {
        let none: Vec<(u32, u16, u8)> = Vec::new();
        self.walk_pattern(cycles, 0, None, &none);
    }

    /// Begin an instruction or an interrupt: writes are counted from here on.
    #[verifier::spinoff_prover]
    pub fn begin_instruction(&mut self)
        requires
            old(self).wf(),
        ensures
            final(self)@ == old(self)@.instruction_begun(),
            final(self).wf(),
    {
        reveal(BusView::instruction_begun);
        reveal(NesBus::wf);
        self.in_instruction = true;
        self.instr_write_calls = 0;
        self.oam_trigger_call = None;
        self.deferred_writes = Vec::new();
    }

    /// Let the time of an instruction of `cycles` CPU cycles pass, whose write
    /// cycles are the set bits of `write_mask`.
    #[verifier::spinoff_prover]
    pub fn run_instruction(&mut self, cycles: u32, write_mask: u32)
        requires
            old(self).wf(),
        ensures
            final(self)@ == old(self)@.instruction_run(cycles, write_mask),
            final(self).wf(),
    {
        reveal(BusView::instruction_run);
        let oam: Option<u32> = match self.oam_trigger_call {
            Some(k) => Some(nth_write_offset(write_mask, k, cycles)),
            None => None,
        };
        let deferred = self.end_writes(cycles, write_mask);
        self.walk_pattern(cycles, write_mask, oam, &deferred);
    }

    /// Stop counting writes; returns the waiting ones, each with its cycle.
    #[verifier::spinoff_prover]
    fn end_writes(&mut self, cycles: u32, write_mask: u32) -> (r: Vec<(u32, u16, u8)>)
        requires
            old(self).wf(),
        ensures
            r@ == crate::walk::placed(old(self)@.deferred, write_mask, cycles),
            final(self)@ == (BusView {
                in_instruction: false,
                oam_call: None,
                deferred: Seq::empty(),
                ..old(self)@
            }),
            final(self).wf(),
    {
        let r = place_writes(&self.deferred_writes, cycles, write_mask);
        reveal(NesBus::wf);
        self.in_instruction = false;
        self.oam_trigger_call = None;
        self.deferred_writes = Vec::new();
        r
    }

    /// Walk the machine through `len` CPU cycles.
    #[verifier::spinoff_prover]
    fn walk_pattern(
        &mut self,
        len: u32,
        write_mask: u32,
        oam_trigger: Option<u32>,
        deferred: &Vec<(u32, u16, u8)>,
    )
        requires
            old(self).wf(),
        ensures
            final(self)@ == old(self)@.walked(
                len as nat,
                write_mask,
                oam_trigger,
                deferred@,
                0,
            ),
            final(self).wf(),
    {
        let mut o: u32 = 0;
        while o < len
            invariant
                o <= len,
                self.wf(),
                self@.walked(len as nat, write_mask, oam_trigger, deferred@, o as nat) == old(
                    self,
                )@.walked(len as nat, write_mask, oam_trigger, deferred@, 0),
            decreases len - o,
        {
            self.walk_cycle(write_mask, oam_trigger, deferred, o);
            o = o + 1;
        }
    }

    /// Walk the machine through cycle `o` of an instruction.
    #[verifier::spinoff_prover]
    fn walk_cycle(
        &mut self,
        write_mask: u32,
        oam_trigger: Option<u32>,
        deferred: &Vec<(u32, u16, u8)>,
        o: u32,
    )
        requires
            old(self).wf(),
        ensures
            final(self)@ == old(self)@.cycle_walked(
                write_mask,
                oam_trigger,
                deferred@,
                o as nat,
            ),
            final(self).wf(),
    {
        reveal(BusView::cycle_walked);
        let read_cycle = is_read_cycle(write_mask, o);
        self.apply_deferred(deferred, o);
        if let Some(to) = oam_trigger {
            if to == o {
                self.schedule_oam();
            }
        }
        self.service_dmc_dma(read_cycle);
        self.service_oam(read_cycle);
        self.tick_machine(1);
    }

    /// Let the waiting writes of cycle `o` take effect.
    #[verifier::spinoff_prover]
    fn apply_deferred(&mut self, deferred: &Vec<(u32, u16, u8)>, o: u32)
        requires
            old(self).wf(),
        ensures
            final(self)@ == old(self)@.deferred_applied(deferred@, o as nat, deferred@.len()),
            final(self).wf(),
    {
        let mut i: usize = 0;
        while i < deferred.len()
            invariant
                i <= deferred@.len(),
                self.wf(),
                self@ == old(self)@.deferred_applied(deferred@, o as nat, i as nat),
            decreases deferred@.len() - i,
        {
            let (off, addr, value): (u32, u16, u8) = deferred[i];
            if off == o {
                self.apply_write(addr, value);
            }
            i = i + 1;
        }
    }

    #[verifier::spinoff_prover]
    fn schedule_oam(&mut self)
        requires
            old(self).wf(),
        ensures
            final(self)@ == (BusView {
                oam_from: Some(crate::dma::later(old(self)@.mach().cycles, 1)),
                ..old(self)@
            }),
            final(self).wf(),
    {
        reveal(NesBus::wf);
        self.oam_halt_from = Some(cycles_after(self.cycles, 1));
    }

    #[verifier::spinoff_prover]
    fn unschedule_oam(&mut self)
        requires
            old(self).wf(),
        ensures
            final(self)@ == (BusView { oam_from: None, ..old(self)@ }),
            final(self).wf(),
    {
        reveal(NesBus::wf);
        self.oam_halt_from = None;
    }

    /// Carry out an OAM DMA that is due.
    #[verifier::spinoff_prover]
    fn service_oam(&mut self, read_cycle: bool)
        requires
            old(self).wf(),
        ensures
            final(self)@ == old(self)@.oam_serviced(read_cycle),
            final(self).wf(),
    {
        reveal(BusView::oam_serviced);
        if let Some(from) = self.oam_halt_from {
            if read_cycle && self.cycles >= from {
                self.unschedule_oam();
                self.run_oam_window();
                self.service_dmc_dma(read_cycle);
            }
        }
    }

    /// Ask for an NMI before the next instruction.
    #[verifier::spinoff_prover]
    pub fn request_nmi(&mut self)
        ensures
            final(self)@ == (BusView { nmi_pending: true, ..old(self)@ }),
            old(self).wf() ==> final(self).wf(),
    {
        reveal(NesBus::wf);
        self.nmi_pending = true;
    }

    /// Take the request for an NMI: true once per request.
    #[verifier::spinoff_prover]
    pub fn take_nmi(&mut self) -> (r: bool)
        ensures
            r == old(self)@.nmi_pending,
            final(self)@ == (BusView { nmi_pending: false, ..old(self)@ }),
            old(self).wf() ==> final(self).wf(),
    {
        reveal(NesBus::wf);
        let r = self.nmi_pending;
        self.nmi_pending = false;
        r
    }

    /// Whether a device asserts the CPU interrupt line.
    #[verifier::spinoff_prover]
    pub fn irq_line(&self) -> (r: bool)
        ensures
            r == self@.irq_asserted(),
    {
        reveal(BusView::irq_asserted);
        self.nsf2_timer.irq_line() || self.apu.irq_line()
    }

    /// Take the number of CPU cycles that DMAs have stolen since the last call.
    #[verifier::spinoff_prover]
    pub fn take_dma_stall(&mut self) -> (r: u32)
        ensures
            r == old(self)@.mach().stall,
            final(self)@ == old(self)@.stall_taken(),
            old(self).wf() ==> final(self).wf(),
    {
        reveal(BusView::stall_taken);
        reveal(NesBus::wf);
        let r: u32 = self.pending_dma_stall;
        self.pending_dma_stall = 0;
        r
    }

    /// Another name of [`NesBus::take_dma_stall`].
    #[verifier::spinoff_prover]
    pub fn take_dmc_stall(&mut self) -> (r: u32)
        ensures
            r == old(self)@.mach().stall,
            final(self)@ == old(self)@.stall_taken(),
            old(self).wf() ==> final(self).wf(),
    {
        self.take_dma_stall()
    }
}

/// Waiting writes with the cycle of each in place of its number.
fn place_writes(deferred: &Vec<(u32, u16, u8)>, cycles: u32, write_mask: u32) -> (r: Vec<
    (u32, u16, u8),
>)
    ensures
        r@ == crate::walk::placed(deferred@, write_mask, cycles),
{
    let mut r: Vec<(u32, u16, u8)> = Vec::new();
    let mut i: usize = 0;
    while i < deferred.len()
        invariant
            i <= deferred@.len(),
            r@.len() == i,
            forall|j: int|
                0 <= j < i ==> r@[j] == crate::walk::placed(deferred@, write_mask, cycles)[j],
        decreases deferred@.len() - i,
    {
        let (call, addr, value): (u32, u16, u8) = deferred[i];
        r.push((nth_write_offset(write_mask, call, cycles), addr, value));
        i = i + 1;
    }
    assert(r@ =~= crate::walk::placed(deferred@, write_mask, cycles));
    r
}

} // verus!
