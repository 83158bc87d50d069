//! What holds of the CPU as a whole.
use vstd::prelude::*;
use crate::bus::{BusView, NesBus};
use crate::cpu::{Cpu6502, Located, System, FLAG_B, FLAG_D, FLAG_I, FLAG_U};
use crate::opcodes::{Mode, Op};

verus! {

impl BusView {
    /// A read changes no memory, and a read of RAM changes nothing.
    #[verifier::spinoff_prover]
    pub proof fn lemma_read_keeps_memory(self, addr: u16)
        ensures
            self.after_read(addr).mem == self.mem,
            addr < 0x2000 ==> self.after_read(addr) == self,
            addr >= 0x8000 && self.sized() ==> self.after_read(addr).sized(),
    {
        reveal(BusView::after_read);
    }

    /// The bus with one more write counted, if an instruction is under way.
    spec fn counted(self) -> Self {
        if self.in_instruction {
            BusView { calls: ((self.calls + 1) % 0x1_0000_0000) as u32, ..self }
        } else {
            self
        }
    }

    /// A write to RAM takes effect at once.
    #[verifier::spinoff_prover]
    proof fn lemma_ram_write(self, addr: u16, value: u8)
        requires
            addr < 0x2000,
        ensures
            self.written(addr, value) == self.counted().applied(addr, value),
    {
        reveal(BusView::written);
    }

    /// What is written to RAM is read back, also within an instruction.
    #[verifier::spinoff_prover]
    proof fn lemma_ram_write_read(self, a: u16, b: u16, value: u8)
        requires
            self.sized(),
            0x0100 <= a < 0x0200,
            0x0100 <= b < 0x0200,
        ensures
            self.written(a, value).read_value(a) == value,
            a != b ==> self.written(a, value).read_value(b) == self.read_value(b),
            self.written(a, value).sized(),
    {
        self.lemma_ram_write(a, value);
        self.counted().lemma_ram_holds_what_was_written(a, b, value);
        reveal(BusView::read_value);
    }
}

#[verifier::spinoff_prover]
proof fn lemma_stack_pointer(sp: u8)
    ensures
        crate::cpu::plus8(crate::cpu::minus_one8(sp), 1) == sp,
        0x0100 <= crate::cpu::stack_at(sp) < 0x0200,
        crate::cpu::stack_at(sp) != crate::cpu::stack_at(crate::cpu::minus_one8(sp)),
{
    reveal(crate::cpu::plus8);
    reveal(crate::cpu::minus_one8);
    reveal(crate::cpu::stack_at);
}

#[verifier::spinoff_prover]
proof fn lemma_halves(w: u16)
    ensures
        crate::cpu::word(crate::cpu::low(w), crate::cpu::high(w)) == w,
        crate::cpu::plus16(crate::cpu::minus_one(w), 1) == w,
{
    reveal(crate::cpu::word);
    reveal(crate::cpu::low);
    reveal(crate::cpu::high);
    reveal(crate::cpu::plus16);
    reveal(crate::cpu::minus_one);
}

impl System {
    /// A pop gives back what was pushed last, and puts the stack pointer back.
    #[verifier::spinoff_prover]
    pub proof fn lemma_push_pop(self, value: u8)
        requires
            self.bus.sized(),
        ensures
            self.pushed(value).pop_value() == value,
            self.pushed(value).popped().cpu == self.cpu,
            self.pushed(value).popped().bus == self.pushed(value).bus,
            self.pushed(value).bus.sized(),
    {
        reveal(System::pushed);
        reveal(System::popped);
        lemma_stack_pointer(self.cpu.sp);
        let at = crate::cpu::stack_at(self.cpu.sp);
        self.bus.lemma_ram_write_read(at, at, value);
        self.pushed(value).bus.lemma_read_keeps_memory(at);
    }

    /// Two pops give back the word that was pushed last.
    #[verifier::spinoff_prover]
    pub proof fn lemma_push_pop_word(self, value: u16)
        requires
            self.bus.sized(),
        ensures
            self.word_pushed(value).pop_word_value() == value,
            self.word_pushed(value).word_popped().cpu == self.cpu,
            self.word_pushed(value).bus.sized(),
    {
        reveal(System::word_pushed);
        reveal(System::word_popped);
        reveal(System::pop_word_value);
        reveal(System::pushed);
        reveal(System::popped);
        let h = self.pushed(crate::cpu::high(value));
        self.lemma_push_pop(crate::cpu::high(value));
        h.lemma_push_pop(crate::cpu::low(value));
        lemma_halves(value);
        lemma_stack_pointer(self.cpu.sp);
        lemma_stack_pointer(h.cpu.sp);
        let at = crate::cpu::stack_at(h.cpu.sp);
        let above = crate::cpu::stack_at(self.cpu.sp);
        h.bus.lemma_ram_write_read(at, above, crate::cpu::low(value));
        let p = self.word_pushed(value).popped();
        p.bus.lemma_read_keeps_memory(above);
    }

    /// Pops do not look at the program counter.
    #[verifier::spinoff_prover]
    proof fn lemma_pops_ignore_pc(self, pc: u16)
        ensures
            self.at(pc).pop_word_value() == self.pop_word_value(),
            self.at(pc).word_popped() == self.word_popped().at(pc),
    {
        reveal(System::popped);
        reveal(System::word_popped);
        reveal(System::pop_word_value);
    }

    #[verifier::spinoff_prover]
    proof fn lemma_jsr(self)
        ensures
            self.jump_done(Op::Jsr, Mode::Absolute) == self.word_fetched().word_pushed(
                crate::cpu::minus_one(self.word_fetched().cpu.pc),
            ).at(self.next_word()),
    {
        reveal(System::jump_done);
    }

    #[verifier::spinoff_prover]
    proof fn lemma_rts(self)
        ensures
            self.jump_done(Op::Rts, Mode::Implied) == self.word_popped().at(
                crate::cpu::plus16(self.pop_word_value(), 1),
            ),
    {
        reveal(System::jump_done);
    }

    #[verifier::spinoff_prover]
    proof fn lemma_fetch_keeps_size(self)
        requires
            self.bus.sized(),
        ensures
            self.word_fetched().bus.sized(),
    {
        reveal(System::fetched);
        reveal(System::word_fetched);
        self.bus.lemma_read_keeps_memory(self.cpu.pc);
        self.fetched().bus.lemma_read_keeps_memory(self.fetched().cpu.pc);
    }

    /// A return goes on behind the call, with the registers as they were.
    #[verifier::spinoff_prover]
    pub proof fn lemma_call_and_return(self)
        requires
            self.bus.sized(),
        ensures
            self.jump_done(Op::Jsr, Mode::Absolute).jump_done(Op::Rts, Mode::Implied).cpu
                == self.word_fetched().cpu,
    {
        let s = self.word_fetched();
        let back = crate::cpu::minus_one(s.cpu.pc);
        let p = s.word_pushed(back);
        self.lemma_fetch_keeps_size();
        lemma_halves(s.cpu.pc);
        s.lemma_push_pop_word(back);
        self.lemma_jsr();
        p.at(self.next_word()).lemma_rts();
        p.lemma_pops_ignore_pc(self.next_word());
    }

    #[verifier::spinoff_prover]
    proof fn lemma_rti(self)
        ensures
            self.jump_done(Op::Rti, Mode::Implied) == self.popped().word_popped().with_cpu(
                (Cpu6502 {
                    p: (self.pop_value() & !FLAG_B) | FLAG_U,
                    pc: self.popped().pop_word_value(),
                    ..self.popped().word_popped().cpu
                }),
            ),
    {
        reveal(System::jump_done);
    }

    /// The entry into an interrupt leaves the program counter and the flags on
    /// the stack.
    #[verifier::spinoff_prover]
    proof fn lemma_interrupt_stack(self, vector: u16)
        requires
            self.bus.sized(),
            vector >= 0x8000,
        ensures
            ({
                let i = self.interrupted(vector);
                let w = self.word_pushed(self.cpu.pc);
                let f = w.pushed((w.cpu.p & !FLAG_B) | FLAG_U);
                &&& i.bus.mem == f.bus.mem
                &&& i.cpu.sp == f.cpu.sp
                &&& i.cpu.a == self.cpu.a && i.cpu.x == self.cpu.x && i.cpu.y == self.cpu.y
                &&& i.cpu.halted == self.cpu.halted
            }),
    {
        reveal(System::vectored);
        reveal(System::read_two);
        reveal(System::word_pushed);
        reveal(System::pushed);
        reveal(System::interrupted);
        let w = self.word_pushed(self.cpu.pc);
        let f = w.pushed((w.cpu.p & !FLAG_B) | FLAG_U);
        let hi = crate::cpu::plus16(vector, 1);
        f.bus.lemma_read_keeps_memory(vector);
        f.bus.after_read(vector).lemma_read_keeps_memory(hi);
    }

    /// A return from an interrupt goes on where the program was, with the
    /// registers as they were; of the flags, the two that exist only on the
    /// stack come back fixed.
    #[verifier::spinoff_prover]
    pub proof fn lemma_interrupt_and_return(self, vector: u16)
        requires
            self.bus.sized(),
            vector >= 0x8000,
        ensures
            self.interrupted(vector).jump_done(Op::Rti, Mode::Implied).cpu == (Cpu6502 {
                p: (((self.cpu.p & !FLAG_B) | FLAG_U) & !FLAG_B) | FLAG_U,
                ..self.cpu
            }),
    {
        reveal(System::pushed);
        reveal(System::word_pushed);
        reveal(System::popped);
        reveal(System::word_popped);
        let pc = self.cpu.pc;
        let w = self.word_pushed(pc);
        let flags = (w.cpu.p & !FLAG_B) | FLAG_U;
        let f = w.pushed(flags);
        let i = self.interrupted(vector);
        self.lemma_push_pop_word(pc);
        w.lemma_push_pop(flags);
        self.lemma_interrupt_stack(vector);
        i.lemma_rti();
        lemma_same_ram_reads(i.bus, f.bus);
        lemma_stack_pointer(w.cpu.sp);
        assert(i.top() == f.top());
        assert(i.pop_value() == flags);
        let p = i.popped();
        assert(p.bus == i.bus);
        assert(p.cpu.sp == w.cpu.sp);
        lemma_pushed_below(w, flags);
        lemma_words_below(p, w, f);
        assert(p.pop_word_value() == pc);
        assert(p.word_popped().cpu.sp == self.cpu.sp);
    }

    /// A jammed CPU does nothing, for one cycle at a time.
    #[verifier::spinoff_prover]
    pub proof fn lemma_jammed(self)
        requires
            self.cpu.halted,
        ensures
            self.stepped() == (1u32, self),
    {
        reveal(System::stepped);
    }

    /// A requested NMI always comes; an interrupt request is kept out by the
    /// flag for it.
    #[verifier::spinoff_prover]
    pub proof fn lemma_interrupt_order(self)
        ensures
            self.bus.nmi_pending ==> self.interrupt_due() == Some(0xFFFAu16),
            !self.bus.nmi_pending && self.cpu.p & FLAG_I != 0 ==> self.interrupt_due() is None,
            !self.bus.nmi_pending && self.cpu.p & FLAG_I == 0 && self.bus.irq_asserted()
                ==> self.interrupt_due() == Some(0xFFFEu16),
    {
        reveal(BusView::irq_asserted);
    }

    /// The undocumented opcode `$EB` is the subtraction `$E9`.
    #[verifier::spinoff_prover]
    pub proof fn lemma_two_subtractions(self)
        ensures
            self.executed(0xEB) == self.executed(0xE9),
            self.cycles_of(0xEB) == self.cycles_of(0xE9),
    {
        reveal(System::executed);
        reveal(System::cycles_of);
        reveal(crate::opcodes::kind_of);
        reveal(crate::opcodes::op_of);
        reveal(crate::opcodes::mode_of);
        reveal(crate::opcodes::base_cycles_of);
    }
}

/// The opcodes that add to A or subtract from it.
pub open spec fn adds_or_subtracts(opcode: u8) -> bool {
    ||| opcode == 0x61 || opcode == 0x65 || opcode == 0x69 || opcode == 0x6D || opcode == 0x71
        || opcode == 0x75 || opcode == 0x79 || opcode == 0x7D
    ||| opcode == 0xE1 || opcode == 0xE5 || opcode == 0xE9 || opcode == 0xEB || opcode == 0xED
        || opcode == 0xF1 || opcode == 0xF5 || opcode == 0xF9 || opcode == 0xFD
}

#[verifier::spinoff_prover]
proof fn lemma_adding_opcodes(opcode: u8)
    requires
        adds_or_subtracts(opcode),
    ensures
        crate::opcodes::kind_of(opcode) is Read,
        crate::opcodes::op_of(opcode) is Adc || crate::opcodes::op_of(opcode) is Sbc,
{
    reveal(crate::opcodes::kind_of);
    reveal(crate::opcodes::op_of);
}

#[verifier::spinoff_prover]
proof fn lemma_call_opcodes()
    ensures
        crate::opcodes::kind_of(0x20) is Jump && crate::opcodes::kind_of(0x60) is Jump,
        crate::opcodes::op_of(0x20) is Jsr && crate::opcodes::op_of(0x60) is Rts,
        crate::opcodes::base_cycles_of(0x20) == 6 && crate::opcodes::base_cycles_of(0x60) == 6,
{
    reveal(crate::opcodes::kind_of);
    reveal(crate::opcodes::op_of);
    reveal(crate::opcodes::base_cycles_of);
}

/// Switching C, V, Z and N goes past the decimal flag.
proof fn lemma_flags_past_decimal(p: u8, c: bool, v: bool, r: u8)
    by (bit_vector)
    requires
        p & 0x08 == 0,
    ensures
        (p | 0x08) & 0x01 == p & 0x01,
        crate::cpu::with_zn(
            crate::cpu::with_flag(crate::cpu::with_flag(p | 0x08, 0x01, c), 0x40, v),
            r,
        ) == crate::cpu::with_zn(
            crate::cpu::with_flag(crate::cpu::with_flag(p, 0x01, c), 0x40, v),
            r,
        ) | 0x08,
        crate::cpu::with_zn(
            crate::cpu::with_flag(crate::cpu::with_flag(p, 0x01, c), 0x40, v),
            r,
        ) & 0x08 == 0,
{
}

impl Cpu6502 {
    /// The same registers with the decimal flag set.
    pub open spec fn decimal(self) -> Self {
        Cpu6502 { p: self.p | FLAG_D, ..self }
    }

    #[verifier::spinoff_prover]
    proof fn lemma_added_past_decimal(self, m: u8)
        requires
            self.p & FLAG_D == 0,
        ensures
            self.decimal().added(m) == self.added(m).decimal(),
            self.added(m).p & FLAG_D == 0,
    {
        let c: int = if self.p & 0x01 != 0 { 1 } else { 0 };
        let sum = self.a + m + c;
        let r = (sum % 256) as u8;
        let overflow = (self.a ^ r) & (m ^ r) & 0x80 != 0;
        lemma_flags_past_decimal(self.p, sum > 0xFF, overflow, r);
    }

    proof fn lemma_reading_past_decimal(self, op: Op, m: u8)
        requires
            op is Adc || op is Sbc,
            self.p & FLAG_D == 0,
        ensures
            self.decimal().after_reading(op, m) == self.after_reading(op, m).decimal(),
            self.after_reading(op, m).p & FLAG_D == 0,
    {
        reveal(Cpu6502::after_reading);
        self.lemma_added_past_decimal(m);
        self.lemma_added_past_decimal(!m);
    }
}

impl Located {
    /// The same place with the decimal flag set.
    pub open spec fn decimal(self) -> Self {
        Located { sys: self.sys.decimal(), ..self }
    }
}

impl System {
    /// The same system with the decimal flag set.
    pub open spec fn decimal(self) -> Self {
        self.with_cpu(self.cpu.decimal())
    }

    #[verifier::spinoff_prover]
    proof fn lemma_fetched_past_decimal(self)
        ensures
            self.decimal().next_byte() == self.next_byte(),
            self.decimal().fetched() == self.fetched().decimal(),
            self.fetched().cpu.p == self.cpu.p,
    {
        reveal(System::fetched);
    }

    #[verifier::spinoff_prover]
    proof fn lemma_word_past_decimal(self)
        ensures
            self.decimal().next_word() == self.next_word(),
            self.decimal().word_fetched() == self.word_fetched().decimal(),
            self.word_fetched().cpu.p == self.cpu.p,
    {
        reveal(System::next_word);
        reveal(System::word_fetched);
        self.lemma_fetched_past_decimal();
        self.fetched().lemma_fetched_past_decimal();
    }

    #[verifier::spinoff_prover]
    proof fn lemma_reads_past_decimal(self, lo: u16, hi: u16)
        ensures
            self.decimal().word_at(lo, hi) == self.word_at(lo, hi),
            self.decimal().read_two(lo, hi) == self.read_two(lo, hi).decimal(),
            self.read_two(lo, hi).cpu == self.cpu,
    {
        reveal(System::word_at);
        reveal(System::read_two);
    }

    #[verifier::spinoff_prover]
    proof fn lemma_zero_page_past_decimal(self, index: u8)
        ensures
            self.decimal().located_in_zero_page(index) == self.located_in_zero_page(
                index,
            ).decimal(),
            self.located_in_zero_page(index).sys.cpu.p == self.cpu.p,
    {
        reveal(System::located_in_zero_page);
        self.lemma_fetched_past_decimal();
    }

    #[verifier::spinoff_prover]
    proof fn lemma_absolute_past_decimal(self, index: u8)
        ensures
            self.decimal().located_absolute(index) == self.located_absolute(index).decimal(),
            self.located_absolute(index).sys.cpu.p == self.cpu.p,
    {
        reveal(System::located_absolute);
        self.lemma_word_past_decimal();
    }

    #[verifier::spinoff_prover]
    proof fn lemma_indirect_past_decimal(self, before: u8, after: u8)
        ensures
            self.decimal().located_through(before, after) == self.located_through(
                before,
                after,
            ).decimal(),
            self.located_through(before, after).sys.cpu.p == self.cpu.p,
    {
        reveal(System::located_through);
        self.lemma_fetched_past_decimal();
        let zp = crate::cpu::plus8(self.next_byte(), before);
        self.fetched().lemma_reads_past_decimal(
            zp as u16,
            crate::cpu::plus8(zp, 1) as u16,
        );
    }

    /// Where an operand is does not depend on the decimal flag.
    #[verifier::spinoff_prover]
    proof fn lemma_located_past_decimal(self, mode: Mode)
        ensures
            self.decimal().located(mode) == self.located(mode).decimal(),
            self.located(mode).sys.cpu.p == self.cpu.p,
    {
        reveal(System::located);
        match mode {
            Mode::ZeroPage => self.lemma_zero_page_past_decimal(0),
            Mode::ZeroPageX => self.lemma_zero_page_past_decimal(self.cpu.x),
            Mode::ZeroPageY => self.lemma_zero_page_past_decimal(self.cpu.y),
            Mode::Absolute => self.lemma_absolute_past_decimal(0),
            Mode::AbsoluteX => self.lemma_absolute_past_decimal(self.cpu.x),
            Mode::AbsoluteY => self.lemma_absolute_past_decimal(self.cpu.y),
            Mode::IndirectX => self.lemma_indirect_past_decimal(self.cpu.x, 0),
            Mode::IndirectY => self.lemma_indirect_past_decimal(0, self.cpu.y),
            _ => {},
        }
    }

    #[verifier::spinoff_prover]
    proof fn lemma_addition_past_decimal(self, op: Op, mode: Mode)
        requires
            op is Adc || op is Sbc,
            self.cpu.p & FLAG_D == 0,
        ensures
            self.decimal().read_done(op, mode) == self.read_done(op, mode).decimal(),
            self.read_done(op, mode).cpu.p & FLAG_D == 0,
    {
        reveal(System::read_done);
        self.lemma_located_past_decimal(mode);
        let at = self.located(mode);
        at.sys.cpu.lemma_reading_past_decimal(op, at.sys.bus.read_value(at.addr));
    }

    #[verifier::spinoff_prover]
    proof fn lemma_read_kind(self, opcode: u8)
        requires
            crate::opcodes::kind_of(opcode) is Read,
        ensures
            ({
                let mode = crate::opcodes::mode_of(opcode);
                let base = crate::opcodes::base_cycles_of(opcode);
                let at = self.located(mode);
                &&& self.executed(opcode) == self.read_done(crate::opcodes::op_of(opcode), mode)
                &&& self.cycles_of(opcode) == (if crate::cpu::crosses(at.base, at.addr) {
                    (base + 1) as u32
                } else {
                    base
                })
            }),
    {
        reveal(System::executed);
        reveal(System::cycles_of);
    }

    /// The decimal flag changes nothing in an addition or a subtraction, and is
    /// itself kept.
    #[verifier::spinoff_prover]
    pub proof fn lemma_decimal_is_inert(self, opcode: u8)
        requires
            adds_or_subtracts(opcode),
            self.cpu.p & FLAG_D == 0,
        ensures
            self.decimal().executed(opcode) == self.executed(opcode).decimal(),
            self.executed(opcode).cpu.p & FLAG_D == 0,
            self.decimal().cycles_of(opcode) == self.cycles_of(opcode),
    {
        lemma_adding_opcodes(opcode);
        self.lemma_read_kind(opcode);
        self.decimal().lemma_read_kind(opcode);
        let mode = crate::opcodes::mode_of(opcode);
        self.lemma_located_past_decimal(mode);
        self.lemma_addition_past_decimal(crate::opcodes::op_of(opcode), mode);
    }

    /// The call `$20` leaves the address of its last byte on the stack, and the
    /// return `$60` takes it from there: the registers are as before the call,
    /// and the program goes on behind it. Each takes six cycles.
    #[verifier::spinoff_prover]
    pub proof fn lemma_jsr_and_rts(self)
        requires
            self.bus.sized(),
        ensures
            ({
                let sp = self.cpu.sp;
                let below = crate::cpu::minus_one8(sp);
                let last = crate::cpu::plus16(self.cpu.pc, 1);
                let called = self.executed(0x20);
                let back = called.executed(0x60);
                &&& called.cpu == (Cpu6502 {
                    pc: self.next_word(),
                    sp: crate::cpu::minus_one8(below),
                    ..self.cpu
                })
                &&& called.bus.read_value(crate::cpu::stack_at(sp)) == crate::cpu::high(last)
                &&& called.bus.read_value(crate::cpu::stack_at(below)) == crate::cpu::low(last)
                &&& back.cpu == (Cpu6502 { pc: crate::cpu::plus16(self.cpu.pc, 2), ..self.cpu })
                &&& self.cycles_of(0x20) == 6 && called.cycles_of(0x60) == 6
            }),
    {
        reveal(System::executed);
        reveal(System::cycles_of);
        lemma_call_opcodes();
        let called = self.executed(0x20);
        self.lemma_jump_mode(Op::Jsr, crate::opcodes::mode_of(0x20), Mode::Absolute);
        called.lemma_jump_mode(Op::Rts, crate::opcodes::mode_of(0x60), Mode::Implied);
        self.lemma_call_and_return();
        self.lemma_jsr();
        self.lemma_fetched_word();
        self.lemma_fetch_keeps_size();
        let s = self.word_fetched();
        s.lemma_pushed_bytes(crate::cpu::plus16(self.cpu.pc, 1));
    }

    /// Only the jump `JMP` has more than one mode.
    proof fn lemma_jump_mode(self, op: Op, m: Mode, n: Mode)
        requires
            op != Op::Jmp,
        ensures
            self.jump_done(op, m) == self.jump_done(op, n),
    {
        reveal(System::jump_done);
    }

    proof fn lemma_fetched_word(self)
        ensures
            self.word_fetched().cpu == (Cpu6502 {
                pc: crate::cpu::plus16(self.cpu.pc, 2),
                ..self.cpu
            }),
            crate::cpu::minus_one(self.word_fetched().cpu.pc) == crate::cpu::plus16(
                self.cpu.pc,
                1,
            ),
    {
        reveal(System::fetched);
        reveal(System::word_fetched);
        reveal(crate::cpu::plus16);
        reveal(crate::cpu::minus_one);
    }

    /// A pushed word stands on the stack with its high byte on top of its low
    /// byte, and only the stack pointer moves.
    #[verifier::spinoff_prover]
    proof fn lemma_pushed_bytes(self, value: u16)
        requires
            self.bus.sized(),
        ensures
            ({
                let sp = self.cpu.sp;
                let below = crate::cpu::minus_one8(sp);
                let p = self.word_pushed(value);
                &&& p.cpu == (Cpu6502 { sp: crate::cpu::minus_one8(below), ..self.cpu })
                &&& p.bus.read_value(crate::cpu::stack_at(sp)) == crate::cpu::high(value)
                &&& p.bus.read_value(crate::cpu::stack_at(below)) == crate::cpu::low(value)
            }),
    {
        reveal(System::word_pushed);
        reveal(System::pushed);
        let sp = self.cpu.sp;
        let below = crate::cpu::minus_one8(sp);
        let h = self.pushed(crate::cpu::high(value));
        lemma_stack_pointer(sp);
        lemma_stack_pointer(below);
        let top = crate::cpu::stack_at(sp);
        self.bus.lemma_ram_write_read(top, top, crate::cpu::high(value));
        h.bus.lemma_ram_write_read(crate::cpu::stack_at(below), top, crate::cpu::low(value));
    }
}

/// The memory of a bus has its size.
#[verifier::spinoff_prover]
pub proof fn lemma_bus_is_sized(bus: NesBus)
    requires
        bus.wf(),
    ensures
        bus@.sized(),
        bus.contents().sized(),
{
    reveal(NesBus::wf);
    reveal(NesBus::contents);
}

/// Reads of the stack see only memory.
#[verifier::spinoff_prover]
proof fn lemma_same_ram_reads(a: BusView, b: BusView)
    requires
        a.mem == b.mem,
    ensures
        forall|addr: u16| addr < 0x2000 ==> #[trigger] a.read_value(addr) == b.read_value(addr),
        forall|addr: u16| addr < 0x2000 ==> #[trigger] a.after_read(addr) == a,
{
    reveal(BusView::read_value);
    reveal(BusView::after_read);
}

/// A push leaves the rest of the stack alone.
#[verifier::spinoff_prover]
proof fn lemma_pushed_below(w: System, value: u8)
    requires
        w.bus.sized(),
    ensures
        forall|addr: u16|
            0x0100 <= addr < 0x0200 && addr != crate::cpu::stack_at(w.cpu.sp)
                ==> #[trigger] w.pushed(value).bus.read_value(addr) == w.bus.read_value(addr),
{
    reveal(System::pushed);
    lemma_stack_pointer(w.cpu.sp);
    assert forall|addr: u16|
        0x0100 <= addr < 0x0200 && addr != crate::cpu::stack_at(
            w.cpu.sp,
        ) implies #[trigger] w.pushed(value).bus.read_value(addr) == w.bus.read_value(addr) by {
        w.bus.lemma_ram_write_read(crate::cpu::stack_at(w.cpu.sp), addr, value);
    }
}

/// The word below a pushed byte can still be popped.
#[verifier::spinoff_prover]
proof fn lemma_words_below(p: System, w: System, f: System)
    requires
        p.cpu.sp == w.cpu.sp,
        p.bus.mem == f.bus.mem,
        forall|addr: u16|
            0x0100 <= addr < 0x0200 && addr != crate::cpu::stack_at(w.cpu.sp)
                ==> #[trigger] f.bus.read_value(addr) == w.bus.read_value(addr),
    ensures
        p.pop_word_value() == w.pop_word_value(),
        p.word_popped().cpu.sp == w.word_popped().cpu.sp,
{
    reveal(System::popped);
    reveal(System::word_popped);
    reveal(System::pop_word_value);
    lemma_same_ram_reads(p.bus, f.bus);
    lemma_same_ram_reads(w.bus, w.bus);
    let one = crate::cpu::plus8(w.cpu.sp, 1);
    let two = crate::cpu::plus8(one, 1);
    lemma_stack_pointer(one);
    lemma_stack_pointer(two);
    assert(crate::cpu::stack_at(one) != crate::cpu::stack_at(w.cpu.sp)
        && crate::cpu::stack_at(two) != crate::cpu::stack_at(w.cpu.sp)) by {
        reveal(crate::cpu::plus8);
        reveal(crate::cpu::stack_at);
    }
}

} // verus!
