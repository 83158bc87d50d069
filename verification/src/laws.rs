//! What holds of the machine as a whole.
use vstd::prelude::*;
use crate::apu::Apu2A03;
use crate::bus::{BusView, Machine, Memory};
use crate::dmc::DmcChannel;
use crate::header::HeaderView;

verus! {

/// Stretches of time add up.
#[verifier::spinoff_prover]
proof fn lemma_later_twice(c: u64, a: nat, b: nat)
    ensures
        crate::dma::later(crate::dma::later(c, a as int), b as int) == crate::dma::later(
            c,
            (a + b) as int,
        ),
{
    reveal(crate::dma::later);
}

/// From a cycle to one `n` later it is `n` cycles.
#[verifier::spinoff_prover]
proof fn lemma_later_back(c: u64, n: nat)
    requires
        n < 0x1_0000_0000,
    ensures
        crate::dma::later(c, 0) == c,
        crate::dma::later(crate::dma::later(c, n as int), -c) == n,
{
    reveal(crate::dma::later);
}

impl DmcChannel {
    /// Nothing is left to fetch or to play, and nothing can come of itself.
    pub open spec fn idle(self) -> bool {
        &&& !self.pending_fetch && !self.fetch_in_flight
        &&& self.bytes_remaining == 0
        &&& !(self.enabled && self.sample_buffer_filled)
    }

    /// A channel that is switched off has no bytes left.
    pub open spec fn settled(self) -> bool {
        !self.enabled ==> self.bytes_remaining == 0
    }

    #[verifier::spinoff_prover]
    proof fn lemma_idle_stays(self, n: nat)
        requires
            self.idle(),
        ensures
            self.ticked(n).idle(),
            self.ticked(n).enabled == self.enabled,
        decreases n,
    {
        if n > 0 {
            self.lemma_idle_stays((n - 1) as nat);
        }
    }
}

impl Apu2A03 {
    /// The frame sequence does not touch the DMC.
    #[verifier::spinoff_prover]
    proof fn lemma_events_keep_dmc(self)
        ensures
            self.events_fired().dmc == self.dmc,
        decreases self.frame_acc, 6 - self.frame_step,
    {
        reveal_with_fuel(Apu2A03::events_fired, 2);
        if self.frame_step < crate::apu::events_len(self.five_step) && self.frame_acc
            >= crate::apu::event_at(self.five_step, self.pal, self.frame_step as int).offset {
            crate::apu::lemma_event_offsets(self.five_step, self.pal, self.frame_step as int);
            self.lemma_event_keeps_dmc();
            self.event_done().lemma_events_keep_dmc();
        }
    }

    #[verifier::spinoff_prover]
    proof fn lemma_event_keeps_dmc(self)
        ensures
            self.event_done().dmc == self.dmc,
    {
        reveal(Apu2A03::event_applied);
    }

    #[verifier::spinoff_prover]
    proof fn lemma_cycle_of_dmc(self)
        ensures
            self.cycle().dmc == self.dmc.cycle(),
    {
        reveal(Apu2A03::timers_cycle);
        reveal(Apu2A03::at_frame);
        reveal(Apu2A03::sequence_restarted);
        self.timers_cycle().time_passed(1).reset_counted(1).lemma_events_keep_dmc();
    }

    /// In the APU the DMC runs as it does alone.
    #[verifier::spinoff_prover]
    pub proof fn lemma_dmc_runs_alone(self, n: nat)
        ensures
            self.ticked(n).dmc == self.dmc.ticked(n),
        decreases n,
    {
        if n > 0 {
            self.lemma_dmc_runs_alone((n - 1) as nat);
            self.ticked((n - 1) as nat).lemma_cycle_of_dmc();
        }
    }
}

impl Machine {
    #[verifier::spinoff_prover]
    proof fn lemma_advanced_split(self, a: nat, b: nat)
        ensures
            self.advanced(a + b) == self.advanced(a).advanced(b),
    {
        reveal(Machine::advanced);
        reveal(crate::dma::later);
        self.apu.0.lemma_ticks_split(a, b);
        self.timer.lemma_ticks_split(a, b);
    }

    /// While the DMC is idle, time is just time.
    #[verifier::spinoff_prover]
    proof fn lemma_idle_ticks(self, n: nat)
        requires
            self.apu.0.dmc.idle(),
            n > 0,
        ensures
            self.ticked(n) == self.advanced(n),
            self.advanced(n).apu.0.dmc.idle(),
        decreases n,
    {
        let k = if n < 8 { n } else { 8 };
        reveal(Machine::advanced);
        self.apu.0.lemma_dmc_runs_alone(k);
        self.apu.0.dmc.lemma_idle_stays(k);
        self.apu.0.lemma_dmc_runs_alone(n);
        self.apu.0.dmc.lemma_idle_stays(n);
        if n > 8 {
            self.advanced(8).lemma_idle_ticks((n - 8) as nat);
            self.lemma_advanced_split(8, (n - 8) as nat);
            assert(8 + (n - 8) as nat == n);
        } else {
            assert(self.advanced(n).ticked(0) == self.advanced(n));
        }
    }

    #[verifier::spinoff_prover]
    proof fn lemma_settled_stays(self)
        requires
            self.apu.0.dmc.settled(),
        ensures
            self.advanced(1).observed().apu.0.dmc.settled(),
    {
        reveal(Machine::advanced);
        reveal(Machine::observed);
        reveal(Machine::fetch_scheduled);
        reveal(Machine::stop_noticed);
        reveal(Apu2A03::fetch_taken);
        reveal(Apu2A03::stop_taken);
        self.apu.0.lemma_dmc_runs_alone(1);
        assert(self.apu.0.dmc.ticked(1) == self.apu.0.dmc.ticked(0).cycle());
    }

    /// The state of the machine after a stretch of time does not depend on how
    /// the time is cut into batches.
    #[verifier::spinoff_prover]
    pub proof fn lemma_ticks_split(self, a: nat, b: nat)
        requires
            self.apu.0.dmc.settled(),
        ensures
            self.ticked(a + b) == self.ticked(a).ticked(b),
        decreases a,
    {
        if a > 0 && b > 0 {
            if self.apu.0.dmc_busy() {
                self.lemma_settled_stays();
                self.advanced(1).observed().lemma_ticks_split((a - 1) as nat, b);
                assert((a + b - 1) as nat == (a - 1) as nat + b);
            } else {
                self.lemma_idle_ticks(a + b);
                self.lemma_idle_ticks(a);
                self.lemma_advanced_split(a, b);
                self.advanced(a).lemma_idle_ticks(b);
            }
        } else if b == 0 {
            assert(self.ticked(a).ticked(0) == self.ticked(a));
        }
    }

    /// `n` cycles are `n` cycles.
    #[verifier::spinoff_prover]
    pub proof fn lemma_ticks_count(self, n: nat)
        ensures
            self.ticked(n).cycles == crate::dma::later(self.cycles, n as int),
        decreases n,
    {
        reveal(crate::dma::later);
        if n > 0 {
            let k: nat = if self.apu.0.dmc_busy() {
                1
            } else if n < 8 {
                n
            } else {
                8
            };
            let s = if self.apu.0.dmc_busy() {
                self.advanced(1).observed()
            } else {
                self.advanced(k)
            };
            assert(s.cycles == crate::dma::later(self.cycles, k as int)) by {
                reveal(Machine::advanced);
                reveal(Machine::observed);
                reveal(Machine::fetch_scheduled);
                reveal(Machine::stop_noticed);
            }
            s.lemma_ticks_count((n - k) as nat);
        }
    }
}

impl BusView {
    /// The memory has its size.
    pub open spec fn sized(self) -> bool {
        &&& self.mem.ram.len() == 0x0800
        &&& self.mem.cart_ram.len() == 0x2000
        &&& self.mem.prg.len() == 0x8000
        &&& self.mem.bank_select.len() == 8
        &&& self.mem.fds_enabled ==> self.mem.fds_ram.len() == 0x8000
        &&& self.mem.overlay.len() == 6
        &&& forall|i: int|
            0 <= i < self.mem.bank_pool.len() ==> (#[trigger] self.mem.bank_pool[i]).len()
                == 0x1000
    }

    /// The four images of the RAM are one.
    #[verifier::spinoff_prover]
    pub proof fn lemma_ram_is_mirrored(self, a: u16, b: u16, value: u8)
        requires
            a < 0x2000,
            b < 0x2000,
            a % 0x0800 == b % 0x0800,
        ensures
            self.read_value(a) == self.read_value(b),
            self.applied(a, value) == self.applied(b, value),
    {
        reveal(BusView::read_value);
        reveal(BusView::applied);
    }

    /// A read of RAM gives back what was written last, and a write leaves the
    /// rest of RAM alone.
    #[verifier::spinoff_prover]
    pub proof fn lemma_ram_holds_what_was_written(self, a: u16, b: u16, value: u8)
        requires
            self.sized(),
            a < 0x2000 || 0x6000 <= a < 0x8000,
            b < 0x2000 || 0x6000 <= b < 0x8000,
        ensures
            self.applied(a, value).read_value(a) == value,
            (if a < 0x2000 && b < 0x2000 {
                a % 0x0800 != b % 0x0800
            } else {
                a != b
            }) ==> self.applied(a, value).read_value(b) == self.read_value(b),
            self.applied(a, value).sized(),
            self.applied(a, value).mach() == self.mach(),
    {
        reveal(BusView::read_value);
        reveal(BusView::applied);
    }

    /// Without the FDS a write at `$8000` and up leaves the program alone;
    /// with it, a read gives back what was written.
    #[verifier::spinoff_prover]
    pub proof fn lemma_program_memory(self, a: u16, value: u8)
        requires
            self.sized(),
            a >= 0x8000,
            !self.mem.overlay_active,
        ensures
            !self.mem.fds_enabled ==> self.applied(a, value).mem == self.mem,
            self.mem.fds_enabled ==> self.applied(a, value).read_value(a) == value,
    {
        reveal(BusView::read_value);
        reveal(BusView::applied);
    }

    /// A bank register says which bank its window shows; a bank that does not
    /// exist reads as `$FF`.
    #[verifier::spinoff_prover]
    pub proof fn lemma_bank_is_shown(self, window: int, sel: u8, off: int)
        requires
            self.sized(),
            self.mem.bankswitched,
            !self.mem.fds_enabled,
            !self.mem.overlay_active,
            0 <= window < 8,
            0 <= off < 0x1000,
        ensures
            self.applied((0x5FF8 + window) as u16, sel).read_value(
                (0x8000 + 0x1000 * window + off) as u16,
            ) == (if sel < self.mem.bank_pool.len() {
                self.mem.bank_pool[sel as int][off]
            } else {
                0xFFu8
            }),
    {
        reveal(BusView::read_value);
        reveal(BusView::applied);
        let addr = (0x8000 + 0x1000 * window + off) as u16;
        assert((addr - 0x8000) / 0x1000 == window);
        assert((addr - 0x8000) % 0x1000 == off);
    }

    /// A cycle in which the DMC is idle.
    #[verifier::spinoff_prover]
    pub(crate) proof fn lemma_idle_cycle(self)
        requires
            self.mach().apu.0.dmc.idle(),
        ensures
            self.ticked(1).mach().apu.0.dmc.idle(),
            self.ticked(1).mach().dma == self.mach().dma,
            self.ticked(1).mach().stall == self.mach().stall,
            self.ticked(1).mach().cycles == crate::dma::later(self.mach().cycles, 1),
    {
        self.mach().lemma_idle_ticks(1);
        reveal(Machine::advanced);
    }

    /// While the DMC is idle and has no DMA scheduled, an OAM DMA is time that
    /// passes.
    #[verifier::spinoff_prover]
    proof fn lemma_undisturbed_oam(self, n: nat)
        requires
            self.mach().apu.0.dmc.idle(),
            self.mach().dma is None,
        ensures
            self.oam_copied(n).mach().cycles == crate::dma::later(self.mach().cycles, n as int),
            self.oam_copied(n).mach().stall == self.mach().stall,
        decreases n,
    {
        if n > 0 {
            self.lemma_idle_cycle();
            assert(self.dma_in_oam() is None);
            let s = self.ticked(1);
            s.lemma_undisturbed_oam((n - 1) as nat);
            lemma_later_twice(self.mach().cycles, 1, (n - 1) as nat);
        } else {
            lemma_later_back(self.mach().cycles, 0);
        }
    }

    /// An OAM DMA that no DMC DMA disturbs takes 513 cycles from a put cycle
    /// and 514 from a get cycle, and all of them count as stolen.
    #[verifier::spinoff_prover]
    pub proof fn lemma_oam_takes_513_or_514(self)
        requires
            self.mach().apu.0.dmc.idle(),
            self.mach().dma is None,
        ensures
            self.oam_done().mach().cycles == crate::dma::later(
                self.mach().cycles,
                if self.mach().cycles % 2 == 1 {
                    513
                } else {
                    514
                },
            ),
            self.oam_done().mach().stall == crate::bus::stall_sum(
                self.mach().stall,
                if self.mach().cycles % 2 == 1 {
                    513
                } else {
                    514
                },
            ),
    {
        reveal(BusView::oam_done);
        let c = self.mach().cycles;
        self.lemma_idle_cycle();
        let halted = self.ticked(1);
        halted.lemma_idle_cycle();
        let ready = if c % 2 == 0 { halted.ticked(1) } else { halted };
        ready.lemma_undisturbed_oam(512);
        lemma_later_twice(c, 1, 1);
        lemma_later_twice(c, 1, 512);
        lemma_later_twice(c, 2, 512);
        lemma_later_back(c, 513);
        lemma_later_back(c, 514);
    }

    #[verifier::spinoff_prover]
    proof fn lemma_sound_writes_keep_memory(self, n: nat)
        requires
            n <= 0x14,
        ensures
            self.registers_cleared(n).mem == self.mem,
        decreases n,
    {
        if n > 0 {
            self.lemma_sound_writes_keep_memory((n - 1) as nat);
            reveal(BusView::written);
            reveal(BusView::applied);
        }
    }

    #[verifier::spinoff_prover]
    proof fn lemma_sound_init_keeps_memory(self)
        ensures
            self.sound_initialised().mem == self.mem,
    {
        reveal(BusView::sound_initialised);
        reveal(BusView::written);
        reveal(BusView::applied);
        self.lemma_sound_writes_keep_memory(0x14);
    }

    /// A reset for a tune clears the RAM, shows the first banks again and
    /// drops a waiting NMI. The RAM of the FDS holds what the program alone
    /// puts there, whatever an earlier song left in it.
    #[verifier::spinoff_prover]
    pub proof fn lemma_reset_clears_ram(self, h: HeaderView)
        ensures
            self.tune_reset(h).mem.ram == crate::loading::zeros(0x0800),
            !self.tune_reset(h).nmi_pending,
            self.mem.bankswitched && !self.mem.fds_enabled ==> self.tune_reset(
                h,
            ).mem.bank_select == h.bankswitch_init,
            !self.mem.bankswitched ==> self.tune_reset(h).mem.prg == crate::bus::overlaid(
                self.mem.prg,
                h.load_addr - 0x8000,
                h.program,
            ),
            self.mem.fds_enabled && self.mem.bankswitched ==> self.tune_reset(h).mem.fds_ram == (
            Memory {
                bank_select: h.bankswitch_init,
                fds_ram: crate::loading::zeros(0x8000),
                ..self.mem.cleared()
            }).fds_banks_shown(8).fds_ram,
            self.mem.fds_enabled && !self.mem.bankswitched ==> self.tune_reset(h).mem.fds_ram
                == self.tune_reset(h).mem.prg,
    {
        reveal(BusView::tune_reset);
        reveal(BusView::program_restored);
        reveal(BusView::written);
        reveal(BusView::applied);
        let c = self.with_mem(self.mem.cleared());
        c.lemma_sound_init_keeps_memory();
        let m = Memory {
            bank_select: h.bankswitch_init,
            fds_ram: crate::loading::zeros(0x8000),
            ..c.mem
        };
        m.lemma_shown_keeps_ram(8);
    }
}

impl Memory {
    #[verifier::spinoff_prover]
    proof fn lemma_shown_keeps_ram(self, n: nat)
        ensures
            self.fds_banks_shown(n).ram == self.ram,
        decreases n,
    {
        if n > 0 {
            self.lemma_shown_keeps_ram((n - 1) as nat);
        }
    }
}

} // verus!
