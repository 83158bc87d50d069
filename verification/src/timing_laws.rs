//! When things happen within an instruction: its write cycles, the writes that
//! wait for them, and the DMAs that halt the CPU.
use vstd::prelude::*;
use crate::apu::Apu2A03;
use crate::bus::BusView;
use crate::dma::ScheduledDmcDma;

verus! {

proof fn lemma_mask_bits(c: u32, k: u32)
    by (bit_vector)
    requires
        k < 32,
    ensures
        1 <= c && c <= 32 ==> (((1u32 << ((c - 1) as u32)) >> k) & 1 == 1) == (k + 1 == c),
        2 <= c && c <= 33 ==> (((0b11u32 << ((c - 2) as u32)) >> k) & 1 == 1) == (k + 1 == c || k
            + 2 == c),
        ((0b001_1100u32 >> k) & 1 == 1) == (k == 2 || k == 3 || k == 4),
        ((0b001_1000u32 >> k) & 1 == 1) == (k == 3 || k == 4),
        (0u32 >> k) & 1 == 0,
{
}

/// The write cycles of an instruction, counted from zero: its last one for a
/// store or a push, its last two for one that changes memory, the fourth and
/// fifth of a call, and the third to fifth of `$00` and of an interrupt. Other
/// instructions do not write.
#[verifier::spinoff_prover]
pub proof fn lemma_write_cycles(opcode: u8, cycles: u32, k: int)
    requires
        2 <= cycles <= 8,
        0 <= k < 32,
    ensures
        ({
            let kind = crate::opcodes::kind_of(opcode);
            let op = crate::opcodes::op_of(opcode);
            let writes = crate::dma::writes_at(crate::cpu::writes_of(opcode, cycles), k);
            let push = op is Pha || op is Php;
            &&& kind is Store && !(op is Brk) && !(op is Jsr) ==> (writes <==> k == cycles - 1)
            &&& push ==> (writes <==> k == cycles - 1)
            &&& kind is Modify && !push && !(op is Brk) && !(op is Jsr) ==> (writes <==> k == cycles
                - 1 || k == cycles - 2)
            &&& op is Jsr ==> (writes <==> k == 3 || k == 4)
            &&& op is Brk ==> (writes <==> 2 <= k <= 4)
            &&& !(kind is Store) && !(kind is Modify) && !push && !(op is Brk) && !(op is Jsr)
                ==> !writes
            &&& (crate::dma::writes_at(crate::cpu::INTERRUPT_WRITE_MASK, k) <==> 2 <= k <= 4)
        }),
{
    lemma_mask_bits(cycles, k as u32);
}

/// The first write of an instruction falls on its first write cycle, the
/// second on the next one.
#[verifier::spinoff_prover]
pub proof fn lemma_writes_in_order(mask: u32, first: nat, second: nat, len: u32)
    requires
        first < second < 32,
        crate::dma::writes_at(mask, first as int),
        crate::dma::writes_at(mask, second as int),
        forall|k: int| 0 <= k < second && k != first ==> !#[trigger] crate::dma::writes_at(mask, k),
    ensures
        crate::dma::write_offset(mask, 0, len) == first,
        crate::dma::write_offset(mask, 1, len) == second,
{
    lemma_search(mask, 0, 0, first);
    lemma_search(mask, 1, 0, first);
    lemma_search(mask, 0, first + 1, second);
}

proof fn lemma_search(mask: u32, n: nat, from: nat, hit: nat)
    requires
        from <= hit < 32,
        crate::dma::writes_at(mask, hit as int),
        forall|k: int| from <= k < hit ==> !#[trigger] crate::dma::writes_at(mask, k),
    ensures
        n == 0 ==> crate::dma::write_from(mask, n, from) == Some(hit),
        n > 0 ==> crate::dma::write_from(mask, n, from) == crate::dma::write_from(
            mask,
            (n - 1) as nat,
            hit + 1,
        ),
    decreases hit - from,
{
    if from < hit {
        lemma_search(mask, n, from + 1, hit);
    }
}

/// When a DMC DMA tries to halt the CPU: a reload from a put cycle, one or two
/// after the buffer has emptied; a load from a get cycle, three or four on.
#[verifier::spinoff_prover]
pub proof fn lemma_halts(addr: u16, e: u64)
    requires
        e < 0xFFFF_FFFF_FFFF_FFF0,
    ensures
        ({
            let reload = crate::dma::fetch_dma(addr, false, None, e);
            let load = crate::dma::fetch_dma(addr, true, None, e);
            &&& reload.addr == addr && reload.kind is Reload
            &&& reload.halt_from % 2 == 1 && e + 1 <= reload.halt_from <= e + 2
            &&& load.addr == addr && load.kind is Load
            &&& load.halt_from % 2 == 0 && e + 3 <= load.halt_from <= e + 4
        }),
        ({
            let stop = crate::dma::stop_dma(addr, e);
            &&& e % 2 == 0 ==> stop.kind is Unexpected && stop.addr == addr && stop.halt_from == e
                + 1
            &&& e % 2 == 1 ==> stop.kind is Aborted && stop.halt_from == e + 2
        }),
{
    reveal(crate::dma::later);
}

/// Switching the DMC off drops a load. A reload is dropped too if it is more
/// than an APU cycle away, and else aborted.
pub proof fn lemma_switched_off(s: ScheduledDmcDma, now: u64)
    ensures
        s.kind is Load ==> crate::dma::after_disable(Some(s), now) is None,
        s.kind is Reload && s.halt_from / 2 > now / 2 + 1 ==> crate::dma::after_disable(
            Some(s),
            now,
        ) is None,
        s.kind is Reload && s.halt_from / 2 <= now / 2 + 1 ==> (crate::dma::after_disable(
            Some(s),
            now,
        ) matches Some(t) && t.kind is Aborted && t.halt_from == s.halt_from),
        s.kind is Aborted || s.kind is Unexpected ==> crate::dma::after_disable(Some(s), now)
            == Some(s),
{
}

impl BusView {
    /// Nothing halts the CPU, and nothing is about to.
    pub open spec fn quiet(self) -> bool {
        &&& self.mach().dma is None
        &&& self.oam_from is None
        &&& self.mach().apu.0.dmc.idle()
    }

    /// The byte that a DMC DMA brings is the one at its address.
    #[verifier::spinoff_prover]
    pub proof fn lemma_fetched_byte(self, s: ScheduledDmcDma)
        ensures
            self.byte_fetched(s).mach().apu.0.dmc.sample_buffer == self.read_value(s.addr),
            self.byte_fetched(s).mach().apu.0.dmc.sample_buffer_filled,
    {
        reveal(BusView::byte_fetched);
        reveal(Apu2A03::byte_supplied);
        reveal(Apu2A03::unexpected_byte_supplied);
    }

    #[verifier::spinoff_prover]
    proof fn lemma_quiet_cycle(self)
        requires
            self.quiet(),
        ensures
            self.ticked(1).quiet(),
            self.ticked(1).mach().stall == self.mach().stall,
            self.ticked(1).mach().cycles == crate::dma::later(self.mach().cycles, 1),
    {
        self.lemma_idle_cycle();
    }

    /// Over a quiet cycle only time passes.
    #[verifier::spinoff_prover]
    proof fn lemma_quiet_walk(self, mask: u32, deferred: Seq<(u32, u16, u8)>, o: nat)
        requires
            self.deferred_applied(deferred, o, deferred.len()).quiet(),
        ensures
            self.cycle_walked(mask, None, deferred, o) == self.deferred_applied(
                deferred,
                o,
                deferred.len(),
            ).ticked(1),
    {
        reveal(BusView::cycle_walked);
        reveal(BusView::dmc_serviced);
        reveal(BusView::oam_serviced);
    }

    /// The bus after `n` single cycles.
    pub open spec fn cycles_on(self, n: nat) -> Self
        decreases n,
    {
        if n == 0 { self } else { self.cycles_on((n - 1) as nat).ticked(1) }
    }

    proof fn lemma_cycles_on(self, n: nat)
        requires
            self.quiet(),
        ensures
            self.cycles_on(n).quiet(),
            self.cycles_on(n).mach().stall == self.mach().stall,
            n > 0 ==> self.cycles_on(n) == self.ticked(1).cycles_on((n - 1) as nat),
        decreases n,
    {
        if n > 0 {
            self.lemma_cycles_on((n - 1) as nat);
            self.cycles_on((n - 1) as nat).lemma_quiet_cycle();
            if n > 1 {
                assert(self.cycles_on((n - 1) as nat) == self.ticked(1).cycles_on((n - 2) as nat));
            }
        }
    }

    proof fn lemma_walk_without_writes(
        self,
        len: nat,
        mask: u32,
        deferred: Seq<(u32, u16, u8)>,
        o: nat,
    )
        requires
            self.quiet(),
            o <= len,
            forall|i: int|
                0 <= i < deferred.len() ==> #[trigger] deferred[i].0 < o || deferred[i].0 >= len,
        ensures
            self.walked(len, mask, None, deferred, o) == self.cycles_on((len - o) as nat),
        decreases len - o,
    {
        if o < len {
            self.lemma_none_applied(deferred, o, deferred.len());
            self.lemma_quiet_walk(mask, deferred, o);
            self.lemma_quiet_cycle();
            self.ticked(1).lemma_walk_without_writes(len, mask, deferred, o + 1);
            self.lemma_cycles_on((len - o) as nat);
        }
    }

    proof fn lemma_none_applied(self, deferred: Seq<(u32, u16, u8)>, o: nat, n: nat)
        requires
            n <= deferred.len(),
            forall|i: int| 0 <= i < deferred.len() ==> #[trigger] deferred[i].0 != o,
        ensures
            self.deferred_applied(deferred, o, n) == self,
        decreases n,
    {
        if n > 0 {
            self.lemma_none_applied(deferred, o, (n - 1) as nat);
            assert(deferred[n - 1].0 != o);
        }
    }

    /// An instruction that nothing disturbs, and that has no write waiting,
    /// takes its cycles one by one; none is stolen.
    #[verifier::spinoff_prover]
    pub proof fn lemma_undisturbed_instruction(self, cycles: u32, mask: u32)
        requires
            self.quiet(),
            self.oam_call is None,
            self.deferred.len() == 0,
        ensures
            ({
                let s = BusView { in_instruction: false, oam_call: None, deferred: Seq::empty(), ..self };
                &&& self.instruction_run(cycles, mask) == s.cycles_on(cycles as nat)
                &&& self.instruction_run(cycles, mask).mach().stall == self.mach().stall
            }),
    {
        reveal(BusView::instruction_run);
        let s = BusView { in_instruction: false, oam_call: None, deferred: Seq::empty(), ..self };
        let placed = crate::walk::placed(self.deferred, mask, cycles);
        s.lemma_walk_without_writes(cycles as nat, mask, placed, 0);
        s.lemma_cycles_on(cycles as nat);
    }

    /// Which writes wait for their cycle within an instruction: those to the
    /// sound channels, to `$4015` and `$4017` and to the timer. Others take
    /// effect at once, and one to `$4014` asks for an OAM DMA.
    #[verifier::spinoff_prover]
    pub proof fn lemma_waiting_writes(self, addr: u16, value: u8)
        requires
            self.in_instruction,
            self.calls < u32::MAX,
        ensures
            ({
                let s = self.written(addr, value);
                let timed = 0x4000 <= addr <= 0x4013 || addr == 0x4015 || addr == 0x4017 || 0x401B
                    <= addr <= 0x401D;
                &&& s.calls == self.calls + 1
                &&& timed ==> s.deferred == self.deferred.push((self.calls, addr, value))
                    && s.mach() == self.mach() && s.mem == self.mem
                &&& addr == 0x4014 ==> s.oam_call == Some(self.calls) && s.mem == self.mem
                &&& !timed && addr != 0x4014 ==> s.deferred == self.deferred && s.mem
                    == self.applied(addr, value).mem && s.mach() == self.applied(addr, value).mach()
            }),
    {
        reveal(BusView::written);
        reveal(BusView::applied);
    }

    proof fn lemma_walk_to(
        self,
        len: nat,
        mask: u32,
        deferred: Seq<(u32, u16, u8)>,
        o: nat,
        hit: nat,
    )
        requires
            self.quiet(),
            o <= hit <= len,
            forall|i: int|
                0 <= i < deferred.len() ==> #[trigger] deferred[i].0 < o || deferred[i].0 >= hit,
        ensures
            self.walked(len, mask, None, deferred, o) == self.cycles_on((hit - o) as nat).walked(
                len,
                mask,
                None,
                deferred,
                hit,
            ),
            self.cycles_on((hit - o) as nat).quiet(),
        decreases hit - o,
    {
        if o < hit {
            self.lemma_none_applied(deferred, o, deferred.len());
            self.lemma_quiet_walk(mask, deferred, o);
            self.lemma_quiet_cycle();
            self.ticked(1).lemma_walk_to(len, mask, deferred, o + 1, hit);
            self.lemma_cycles_on((hit - o) as nat);
        }
    }

    #[verifier::spinoff_prover]
    proof fn lemma_channel_write_is_quiet(self, addr: u16, value: u8)
        requires
            self.quiet(),
            0x4000 <= addr <= 0x400F,
        ensures
            self.applied(addr, value).quiet(),
    {
        reveal(BusView::applied);
        reveal(Apu2A03::register_written);
    }

    /// A write to a sound channel that waits takes effect on its write cycle:
    /// the cycles before it come first, then the write, then the rest.
    #[verifier::spinoff_prover]
    pub proof fn lemma_write_on_its_cycle(
        self,
        cycles: u32,
        mask: u32,
        addr: u16,
        value: u8,
        hit: nat,
    )
        requires
            self.quiet(),
            self.oam_call is None,
            self.deferred == seq![(0u32, addr, value)],
            0x4000 <= addr <= 0x400F,
            hit < cycles,
            hit < 32,
            crate::dma::writes_at(mask, hit as int),
            forall|k: int| 0 <= k < hit ==> !#[trigger] crate::dma::writes_at(mask, k),
        ensures
            ({
                let s = BusView { in_instruction: false, oam_call: None, deferred: Seq::empty(), ..self };
                self.instruction_run(cycles, mask) == s.cycles_on(hit).applied(
                    addr,
                    value,
                ).cycles_on((cycles - hit) as nat)
            }),
    {
        reveal(BusView::instruction_run);
        let s = BusView { in_instruction: false, oam_call: None, deferred: Seq::empty(), ..self };
        let placed = crate::walk::placed(self.deferred, mask, cycles);
        lemma_search(mask, 0, 0, hit);
        assert(placed =~= seq![(hit as u32, addr, value)]);
        s.lemma_walk_to(cycles as nat, mask, placed, 0, hit);
        let t = s.cycles_on(hit);
        let u = t.applied(addr, value);
        t.lemma_channel_write_is_quiet(addr, value);
        assert(t.deferred_applied(placed, hit, 1) == u) by {
            reveal_with_fuel(BusView::deferred_applied, 2);
        }
        t.lemma_quiet_walk(mask, placed, hit);
        u.lemma_quiet_cycle();
        u.ticked(1).lemma_walk_without_writes(cycles as nat, mask, placed, hit + 1);
        u.lemma_cycles_on((cycles - hit) as nat);
    }
}

} // verus!
