//! How a tune is put into the machine, and which device an address reaches.
use vstd::prelude::*;
use crate::apu::Apu2A03;
use crate::bus::{BusView, Machine, Memory};
use crate::expansion::Expansion;
use crate::header::{ExpansionChips, HeaderView};
use crate::nsfe::NsfeMixerEntry;
use crate::timer::Nsf2IrqTimer;

verus! {

/// No initial bank is set.
pub open spec fn unbanked(h: HeaderView) -> bool {
    forall|i: int| 0 <= i < h.bankswitch_init.len() ==> #[trigger] h.bankswitch_init[i] == 0
}

impl BusView {
    /// A tune without banks lies in memory from its load address on.
    #[verifier::spinoff_prover]
    pub proof fn lemma_program_is_loaded(self, h: HeaderView, k: int)
        requires
            self.sized(),
            unbanked(h),
            h.expansion.0 / 4 % 2 == 0,
            !self.mem.overlay_active,
            0 <= k < h.program.len(),
            0x6000 <= h.load_addr + k <= 0xFFFF,
        ensures
            self.configured(h).read_value((h.load_addr + k) as u16) == h.program[k],
    {
        reveal(BusView::configured);
        reveal(BusView::read_value);
        reveal(Memory::tune_loaded);
        crate::bits::lemma_byte_bits(h.expansion.0);
    }

    /// With banks, a window shows the bank of 4096 bytes that its register
    /// selects. The program starts in the first bank as far in as its load
    /// address is in its page of banks; around it there are zeros.
    #[verifier::spinoff_prover]
    pub proof fn lemma_banked_program(self, h: HeaderView, window: int, off: int)
        requires
            self.sized(),
            h.bankswitch_init.len() == 8,
            !unbanked(h),
            h.expansion.0 / 4 % 2 == 0,
            !self.mem.overlay_active,
            0 <= window < 8,
            0 <= off < 0x1000,
        ensures
            ({
                let bank = h.bankswitch_init[window] as int;
                let start = h.load_addr as int % 0x1000;
                let k = 0x1000 * bank + off - start;
                let seen = self.configured(h).read_value(
                    (0x8000 + 0x1000 * window + off) as u16,
                );
                &&& 0 <= k < h.program.len() ==> seen == h.program[k]
                &&& k < 0 ==> h.program.len() > 0 || start > 0 ==> seen == 0
                &&& 0x1000 * bank >= start + h.program.len() ==> seen == 0xFF
            }),
    {
        reveal(BusView::configured);
        reveal(BusView::read_value);
        reveal(Memory::tune_loaded);
        crate::bits::lemma_byte_bits(h.expansion.0);
        let w = choose|i: int|
            0 <= i < h.bankswitch_init.len() && #[trigger] h.bankswitch_init[i] != 0;
        assert(crate::loading::is_banked(h.bankswitch_init));
        let addr = (0x8000 + 0x1000 * window + off) as u16;
        assert((addr - 0x8000) / 0x1000 == window);
        assert((addr - 0x8000) % 0x1000 == off);
    }

    /// The laid-over vectors: the NMI vector at `$FFFA` and the reset vector at
    /// `$FFFC`, low byte first. The interrupt vector behind them can be written.
    #[verifier::spinoff_prover]
    pub proof fn lemma_overlay(self, nmi: u16, reset: u16, value: u8)
        requires
            self.sized(),
        ensures
            ({
                let s = self.with_mem(self.mem.overlay_armed(nmi, reset));
                &&& s.read_value(0xFFFA) + 0x100 * s.read_value(0xFFFB) == nmi
                &&& s.read_value(0xFFFC) + 0x100 * s.read_value(0xFFFD) == reset
                &&& s.read_value(0xFFFE) == self.mem.program_byte(0xFFFE)
                &&& s.read_value(0xFFFF) == self.mem.program_byte(0xFFFF)
                &&& s.applied(0xFFFE, value).read_value(0xFFFE) == value
                &&& s.applied(0xFFFF, value).read_value(0xFFFF) == value
                &&& s.applied(0xFFFA, value).read_value(0xFFFA) == s.read_value(0xFFFA)
            }),
    {
        reveal(BusView::read_value);
        reveal(BusView::applied);
        reveal(Memory::overlay_armed);
        reveal(crate::cpu::low);
        reveal(crate::cpu::high);
    }

    /// Which device a write reaches: `$4000..=$4013` the channels of the APU,
    /// `$4017` its frame counter, `$401B..=$401D` the timer of a tune that uses
    /// it, and the expansion chips elsewhere at `$4018..=$5FF5` and from
    /// `$8000` on.
    #[verifier::spinoff_prover]
    pub proof fn lemma_routes(self, addr: u16, value: u8)
        ensures
            ({
                let s = self.applied(addr, value).mach();
                let m = self.mach();
                let timer = m.timer.enabled && 0x401B <= addr <= 0x401D;
                &&& 0x4000 <= addr <= 0x4013 ==> s == (Machine {
                    apu: crate::bus::Whole(m.apu.0.register_written(addr, value)),
                    ..m
                })
                &&& addr == 0x4017 ==> s == (Machine {
                    apu: crate::bus::Whole(m.apu.0.frame_written(value)),
                    ..m
                })
                &&& timer ==> s == (Machine { timer: m.timer.written(addr, value), ..m })
                &&& 0x4018 <= addr <= 0x5FF5 && !timer ==> s == (Machine {
                    apu: crate::bus::Whole(m.apu.0.expansion_written(addr, value)),
                    ..m
                })
                &&& 0x8000 <= addr && !self.mem.overlay_active ==> s == (Machine {
                    apu: crate::bus::Whole(m.apu.0.expansion_written(addr, value)),
                    ..m
                })
                &&& addr < 0x4000 || addr == 0x4016 || 0x6000 <= addr < 0x8000 ==> s == m
            }),
    {
        reveal(BusView::applied);
    }

    /// The interrupt line is that of the timer, the frame counter, the DMC or
    /// the MMC5, whichever is on and asks.
    #[verifier::spinoff_prover]
    pub proof fn lemma_interrupt_line(self)
        ensures
            ({
                let m = self.mach();
                let chip = m.apu.0.expansion.mmc5;
                self.irq_asserted() <==> m.timer.enabled && m.timer.irq_flag
                    || m.apu.0.frame_irq_flag || m.apu.0.dmc.irq_flag || chip.enabled
                    && chip.irq_trip && chip.irq_enable
            }),
    {
        reveal(BusView::irq_asserted);
        reveal(Apu2A03::irq_asserted);
    }

    proof fn lemma_registers_cleared(self, n: nat)
        requires
            n <= 0x14,
            !self.in_instruction,
        ensures
            !self.registers_cleared(n).in_instruction,
        decreases n,
    {
        if n > 0 {
            self.lemma_registers_cleared((n - 1) as nat);
            reveal(BusView::written);
            reveal(BusView::applied);
        }
    }

    /// Before a tune starts, the four channels are on, the DMC is off, and the
    /// frame counter is in its 4-step mode without an interrupt.
    #[verifier::spinoff_prover]
    pub proof fn lemma_sound_before_a_tune(self)
        requires
            !self.in_instruction,
        ensures
            ({
                let a = self.sound_initialised().mach().apu.0;
                &&& a.pulse1.enabled && a.pulse2.enabled && a.triangle.enabled && a.noise.enabled
                &&& !a.dmc.enabled && a.dmc.bytes_remaining == 0
                &&& a.pulse1.length.counter == 0 && a.triangle.length.counter == 0
                &&& !a.five_step && a.frame_irq_inhibit && !a.frame_irq_flag
            }),
    {
        reveal(BusView::sound_initialised);
        reveal(BusView::written);
        reveal(BusView::applied);
        reveal(Apu2A03::status_written_except_dmc);
        reveal(Apu2A03::with_dmc_enabled);
        reveal(Apu2A03::frame_written);
        reveal(Apu2A03::fetch_cancelled);
        self.lemma_registers_cleared(0x14);
        crate::bits::lemma_byte_bits(0x00);
        crate::bits::lemma_byte_bits(0x0F);
        crate::bits::lemma_byte_bits(0x40);
    }
}

impl Expansion {
    /// The chips by the bits of the header byte: VRC6, VRC7, FDS, MMC5, N163
    /// and Sunsoft 5B from the lowest on.
    #[verifier::spinoff_prover]
    pub proof fn lemma_chip_bits(self, b: u8)
        ensures
            ({
                let s = self.with_flags(ExpansionChips(b));
                &&& s.vrc6.enabled == (b % 2 == 1)
                &&& s.vrc7.enabled == (b / 2 % 2 == 1)
                &&& s.fds.enabled == (b / 4 % 2 == 1)
                &&& s.mmc5.enabled == (b / 8 % 2 == 1)
                &&& s.n163.enabled == (b / 16 % 2 == 1)
                &&& s.s5b.enabled == (b / 32 % 2 == 1)
            }),
    {
        crate::bits::lemma_byte_bits(b);
    }

    /// Every chip that is on sees a write and the passing of time; one that is
    /// off sees neither.
    #[verifier::spinoff_prover]
    pub proof fn lemma_chips_work_alone(self, addr: u16, value: u8, n: nat)
        ensures
            ({
                let w = self.written(addr, value);
                let t = self.ticked(n);
                &&& self.vrc6.enabled ==> w.vrc6 == self.vrc6.written(addr, value) && t.vrc6
                    == self.vrc6.ticked(n)
                &&& self.vrc7.enabled ==> w.vrc7 == self.vrc7.written(addr, value) && t.vrc7
                    == self.vrc7.ticked(n)
                &&& self.mmc5.enabled ==> w.mmc5 == self.mmc5.written(addr, value) && t.mmc5
                    == self.mmc5.ticked(n)
                &&& self.n163.enabled ==> w.n163 == self.n163.written(addr, value) && t.n163
                    == self.n163.ticked(n)
                &&& self.s5b.enabled ==> w.s5b == self.s5b.written(addr, value) && t.s5b
                    == self.s5b.ticked(n)
                &&& self.fds.enabled ==> w.fds == self.fds.written(addr, value) && t.fds
                    == self.fds.ticked(n)
                &&& !self.vrc6.enabled ==> w.vrc6 == self.vrc6 && t.vrc6 == self.vrc6
                &&& !self.s5b.enabled ==> w.s5b == self.s5b && t.s5b == self.s5b
                &&& !self.fds.enabled ==> w.fds == self.fds && t.fds == self.fds
            }),
    {
    }

    /// Reads: the sound RAM of the N163 is at `$4800..=$4FFF`, the status of the
    /// MMC5 at `$5010` and `$5015`, and the FDS at `$4090` and up.
    #[verifier::spinoff_prover]
    pub proof fn lemma_reads(self, addr: u16)
        ensures
            self.n163.enabled && 0x4800 <= addr <= 0x4FFF && self.n163.read_value(addr) != 0xFF
                ==> self.read_value(addr) == self.n163.ram[self.n163.addr as int],
            self.mmc5.enabled ==> self.read_value(0x5015) == self.mmc5.read_value(0x5015)
                || self.mmc5.read_value(0x5015) == 0xFF,
            self.fds.enabled && 0x4090 <= addr <= 0x4097 ==> self.read_value(addr)
                == self.fds.read_value(addr),
            !self.mmc5.enabled && !self.n163.enabled && !self.fds.enabled ==> self.read_value(addr)
                == 0xFF,
    {
    }
}

impl Nsf2IrqTimer {
    /// The registers of the timer: the reload value, low byte first, reads back
    /// as it was written; bit 0 of the last one starts and stops the timer, and
    /// its top bit reads as the interrupt flag, which the read takes back.
    #[verifier::spinoff_prover]
    pub proof fn lemma_registers(self, lo: u8, hi: u8, control: u8)
        requires
            self.enabled,
        ensures
            ({
                let s = self.written(0x401B, lo).written(0x401C, hi);
                let c = self.written(0x401D, control);
                &&& s.reload == lo + 0x100 * hi
                &&& s.read_value(0x401B) == Some(lo) && s.read_value(0x401C) == Some(hi)
                &&& !self.active ==> s.counter == s.reload
                &&& c.active == (control % 2 == 1)
                &&& control % 2 == 0 ==> c.counter == self.reload
                &&& self.read_value(0x401D) matches Some(v) && (v >= 128 <==> self.irq_flag) && (v
                    % 2 == 1 <==> self.active)
                &&& !self.after_read(0x401D).irq_flag
                &&& self.after_read(0x401D).counter == self.counter
            }),
    {
        crate::bits::lemma_word_bits(self.reload, lo, hi);
        crate::bits::lemma_byte_bits(control);
        let r = self.written(0x401B, lo).written(0x401C, hi).reload;
        crate::bits::lemma_word_bits(r, lo, hi);
        assert(0u8 | 0u8 == 0 && 0x80u8 | 0u8 == 0x80 && 0u8 | 1u8 == 1 && 0x80u8 | 1u8 == 0x81)
            by (bit_vector);
    }
}

impl Apu2A03 {
    /// The clock of the CPU decides about the tables: below 1.7 MHz those of
    /// PAL machines hold.
    #[verifier::spinoff_prover]
    pub proof fn lemma_clock(self, hz: u32)
        ensures
            ({
                let s = self.with_cpu_hz(hz);
                &&& s.cpu_hz == hz && s.pal == (hz < 1_700_000)
                &&& s.noise.timer_period == crate::noise::period_of(self.noise.period_index, s.pal)
                &&& s.dmc.timer_period == crate::dmc::rate_of(self.dmc.rate_index, s.pal)
                &&& s.pulse1 == self.pulse1 && s.triangle == self.triangle
            }),
    {
        reveal(Apu2A03::with_cpu_hz);
    }
}

/// Of several mixing levels for a device the last one counts; a device that no
/// entry names keeps its level, and an entry for an unknown device has no
/// effect.
#[verifier::spinoff_prover]
pub proof fn lemma_mixing_levels(
    table: [i16; 8],
    entries: Seq<NsfeMixerEntry>,
    device: int,
    last: int,
)
    requires
        0 <= device < 8,
        -1 <= last < entries.len(),
        last >= 0 ==> entries[last].device == device,
        forall|i: int| last < i < entries.len() ==> #[trigger] entries[i].device != device,
    ensures
        crate::apu::levels_set(table, entries, entries.len())[device] == (if last >= 0 {
            entries[last].millibel
        } else {
            table[device]
        }),
{
    lemma_levels_before(table, entries, device, (last + 1) as nat);
    lemma_levels_stay(table, entries, device, (last + 1) as nat, entries.len());
}

proof fn lemma_levels_before(table: [i16; 8], entries: Seq<NsfeMixerEntry>, device: int, n: nat)
    requires
        0 <= device < 8,
        n <= entries.len(),
        n > 0 ==> entries[n - 1].device == device,
    ensures
        crate::apu::levels_set(table, entries, n)[device] == (if n > 0 {
            entries[n - 1].millibel
        } else {
            table[device]
        }),
{
}

proof fn lemma_levels_stay(
    table: [i16; 8],
    entries: Seq<NsfeMixerEntry>,
    device: int,
    from: nat,
    n: nat,
)
    requires
        0 <= device < 8,
        from <= n <= entries.len(),
        forall|i: int| from <= i < n ==> #[trigger] entries[i].device != device,
    ensures
        crate::apu::levels_set(table, entries, n)[device] == crate::apu::levels_set(
            table,
            entries,
            from,
        )[device],
    decreases n,
{
    if n > from {
        lemma_levels_stay(table, entries, device, from, (n - 1) as nat);
    }
}

} // verus!
