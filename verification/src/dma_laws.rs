//! What the DMAs cost.
use vstd::prelude::*;
use crate::bus::{BusView, Machine};
use crate::dma::ScheduledDmcDma;

verus! {

proof fn lemma_later_steps(c: u64)
    ensures
        crate::dma::later(crate::dma::later(c, 1), 1) == crate::dma::later(c, 2),
        crate::dma::later(crate::dma::later(c, 2), 1) == crate::dma::later(c, 3),
        crate::dma::later(crate::dma::later(c, 3), 1) == crate::dma::later(c, 4),
        crate::dma::later(crate::dma::later(c, 4), 1) == crate::dma::later(c, 5),
{
    reveal(crate::dma::later);
}

impl Machine {
    /// Time steals nothing.
    #[verifier::spinoff_prover]
    proof fn lemma_ticks_keep_stall(self, n: nat)
        ensures
            self.ticked(n).stall == self.stall,
        decreases n,
    {
        if n > 0 {
            let k: nat = if self.apu.0.dmc_busy() {
                1
            } else if n < 8 {
                n
            } else {
                8
            };
            let s = if self.apu.0.dmc_busy() {
                self.advanced(1).observed()
            } else {
                self.advanced(k)
            };
            assert(s.stall == self.stall) by {
                reveal(Machine::advanced);
                reveal(Machine::observed);
                reveal(Machine::fetch_scheduled);
                reveal(Machine::stop_noticed);
            }
            s.lemma_ticks_keep_stall((n - k) as nat);
        }
    }
}

impl BusView {
    /// A fetch takes no time by itself.
    #[verifier::spinoff_prover]
    proof fn lemma_fetch_keeps_time(self, s: ScheduledDmcDma)
        ensures
            self.byte_fetched(s).mach().cycles == self.mach().cycles,
            self.byte_fetched(s).mach().stall == self.mach().stall,
            self.byte_fetched(s).time() == self.time(),
            self.without_dma().time() == self.time(),
    {
        reveal(BusView::time);
        reveal(BusView::byte_fetched);
        reveal(BusView::after_read);
    }

    #[verifier::spinoff_prover]
    proof fn lemma_stalled_time(self, n: nat)
        ensures
            self.stalled(n).mach().cycles == crate::dma::later(self.mach().cycles, n as int),
            self.stalled(n).mach().stall == crate::bus::stall_sum(self.mach().stall, n),
    {
        let m = Machine { stall: crate::bus::stall_sum(self.mach().stall, n), ..self.mach() };
        m.lemma_ticks_count(n);
        m.lemma_ticks_keep_stall(n);
    }

    /// A DMC DMA that is due steals three cycles if its halt falls on a get
    /// cycle and four if it falls on a put cycle. On a write cycle of the CPU
    /// it has to wait.
    #[verifier::spinoff_prover]
    pub proof fn lemma_dmc_dma_steals_3_or_4(self, s: ScheduledDmcDma)
        requires
            self.mach().dma == Some(s),
            !(s.kind is Aborted),
            self.mach().cycles >= s.halt_from,
        ensures
            ({
                let n: nat = if self.mach().cycles % 2 == 0 { 3 } else { 4 };
                let r = self.dmc_serviced(true).mach();
                &&& r.cycles == crate::dma::later(self.mach().cycles, n as int)
                &&& r.stall == crate::bus::stall_sum(self.mach().stall, n)
            }),
            self.dmc_serviced(false) == self,
    {
        reveal(BusView::dmc_serviced);
        let n: nat = if self.mach().cycles % 2 == 0 { 3 } else { 4 };
        self.without_dma().lemma_stalled_time(n);
        self.without_dma().stalled(n).lemma_fetch_keeps_time(s);
    }

    /// A DMC DMA that is aborted steals one cycle if it halts the CPU on its
    /// first attempt, else none; it is gone either way.
    #[verifier::spinoff_prover]
    pub proof fn lemma_aborted_dma_steals_at_most_one(self, s: ScheduledDmcDma, read_cycle: bool)
        requires
            self.mach().dma == Some(s),
            s.kind is Aborted,
            self.mach().cycles >= s.halt_from,
        ensures
            ({
                let n: nat = if self.mach().cycles == s.halt_from && read_cycle { 1 } else { 0 };
                let r = self.dmc_serviced(read_cycle).mach();
                &&& r.cycles == crate::dma::later(self.mach().cycles, n as int)
                &&& r.stall == crate::bus::stall_sum(self.mach().stall, n)
                &&& n == 0 ==> r.dma is None
            }),
    {
        reveal(BusView::dmc_serviced);
        self.without_dma().lemma_stalled_time(1);
        assert(crate::dma::later(self.mach().cycles, 0) == self.mach().cycles) by {
            reveal(crate::dma::later);
        }
    }

    #[verifier::spinoff_prover]
    proof fn lemma_fetch_in_oam_takes_4(self, s: ScheduledDmcDma)
        ensures
            self.fetched_in_oam(s).time() == crate::dma::later(self.time(), 4),
    {
        reveal(BusView::fetched_in_oam);
        let a = self.without_dma();
        let d = a.ticked(1).ticked(1).ticked(1);
        a.lemma_time_of_tick();
        a.ticked(1).lemma_time_of_tick();
        a.ticked(1).ticked(1).lemma_time_of_tick();
        self.lemma_fetch_keeps_time(s);
        d.lemma_fetch_keeps_time(s);
        d.byte_fetched(s).lemma_time_of_tick();
        lemma_later_steps(self.time());
    }

    /// The cycle that the bus has reached.
    #[verifier::opaque]
    spec fn time(self) -> u64 {
        self.mach().cycles
    }

    #[verifier::spinoff_prover]
    proof fn lemma_time_of_tick(self)
        ensures
            self.ticked(1).time() == crate::dma::later(self.time(), 1),
    {
        reveal(BusView::time);
        self.mach().lemma_ticks_count(1);
    }

    /// A DMC DMA that halts on a put cycle of an OAM DMA costs it two cycles
    /// more: five pass for three of its gets and puts. On the put before the
    /// last it costs one, and on the last three: four cycles pass, and the
    /// OAM DMA is over.
    #[verifier::spinoff_prover]
    pub proof fn lemma_dmc_dma_in_oam_costs_2(self, s: ScheduledDmcDma, remaining: nat)
        requires
            self.dma_in_oam() == Some(s),
            remaining > 0,
        ensures
            remaining > 3 ==> {
                let next = self.fetched_in_oam(s).ticked(1);
                &&& next.mach().cycles == crate::dma::later(self.mach().cycles, 5)
                &&& self.oam_copied(remaining) == next.oam_copied((remaining - 3) as nat)
            },
            remaining <= 3 ==> self.oam_copied(remaining).mach().cycles == crate::dma::later(
                self.mach().cycles,
                4,
            ),
    {
        reveal(BusView::time);
        self.lemma_fetch_in_oam_takes_4(s);
        self.lemma_realigned_after_5(s);
    }

    #[verifier::spinoff_prover]
    proof fn lemma_realigned_after_5(self, s: ScheduledDmcDma)
        ensures
            self.fetched_in_oam(s).ticked(1).time() == crate::dma::later(self.time(), 5),
    {
        self.lemma_fetch_in_oam_takes_4(s);
        self.fetched_in_oam(s).lemma_time_of_tick();
        lemma_later_steps(self.time());
    }
}

} // verus!
