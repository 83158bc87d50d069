//! Instructions on registers, flags and the stack, jumps, and the undocumented
//! ones, stated on the opcode bytes; and what a step of the CPU does with them.
use vstd::prelude::*;
use crate::cpu::{Cpu6502, System};
use crate::instruction_laws::tells;

verus! {

proof fn lemma_flags_switched(p: u8, v: u8)
    by (bit_vector)
    ensures
        crate::cpu::with_flag(p, 0x01, false) == p & 0xFE,
        crate::cpu::with_flag(p, 0x01, true) == p | 0x01,
        crate::cpu::with_flag(p, 0x04, false) == p & 0xFB,
        crate::cpu::with_flag(p, 0x04, true) == p | 0x04,
        crate::cpu::with_flag(p, 0x08, false) == p & 0xF7,
        crate::cpu::with_flag(p, 0x08, true) == p | 0x08,
        crate::cpu::with_flag(p, 0x40, false) == p & 0xBF,
        (p & !0x10u8) | 0x20 == (p & 0xEF) | 0x20,
        p | 0x10 | 0x20 == p | 0x30,
        (crate::cpu::with_zn(p, v) & 0x02 != 0) == (v == 0),
        (crate::cpu::with_zn(p, v) & 0x80 != 0) == (v >= 0x80),
        crate::cpu::with_zn(p, v) & 0x7D == p & 0x7D,
{
}

/// The flags `q` tell of `v`, and are else as `p`.
pub open spec fn told(p: u8, q: u8, v: u8) -> bool {
    &&& tells(q, v)
    &&& q & 0x7D == p & 0x7D
}

impl System {
    #[verifier::spinoff_prover]
    proof fn lemma_register_kind(self, opcode: u8)
        requires
            crate::opcodes::kind_of(opcode) is Register,
        ensures
            self.executed(opcode).cpu == self.cpu.after_register_op(crate::opcodes::op_of(opcode)),
            self.executed(opcode).bus == self.bus,
            self.cycles_of(opcode) == crate::opcodes::base_cycles_of(opcode),
    {
        reveal(System::executed);
        reveal(System::cycles_of);
    }

    /// Transfers: `$AA` takes A to X, `$A8` A to Y, `$8A` X to A, `$98` Y to A,
    /// `$BA` the stack pointer to X, `$9A` X to the stack pointer. All but the
    /// last tell of the value.
    #[verifier::spinoff_prover]
    pub proof fn lemma_transfers(self)
        ensures
            ({
                let p = self.cpu.p;
                let tax = self.executed(0xAA).cpu;
                let tay = self.executed(0xA8).cpu;
                let txa = self.executed(0x8A).cpu;
                let tya = self.executed(0x98).cpu;
                let tsx = self.executed(0xBA).cpu;
                let txs = self.executed(0x9A).cpu;
                &&& tax == (Cpu6502 { x: self.cpu.a, p: tax.p, ..self.cpu }) && told(p, tax.p, tax.x)
                &&& tay == (Cpu6502 { y: self.cpu.a, p: tay.p, ..self.cpu }) && told(p, tay.p, tay.y)
                &&& txa == (Cpu6502 { a: self.cpu.x, p: txa.p, ..self.cpu }) && told(p, txa.p, txa.a)
                &&& tya == (Cpu6502 { a: self.cpu.y, p: tya.p, ..self.cpu }) && told(p, tya.p, tya.a)
                &&& tsx == (Cpu6502 { x: self.cpu.sp, p: tsx.p, ..self.cpu }) && told(
                    p,
                    tsx.p,
                    tsx.x,
                )
                &&& txs == (Cpu6502 { sp: self.cpu.x, ..self.cpu })
            }),
    {
        crate::opcode_laws::lemma_opcodes_of_one_byte();
        reveal(Cpu6502::after_register_op);
        self.lemma_register_kind(0xAA);
        self.lemma_register_kind(0xA8);
        self.lemma_register_kind(0x8A);
        self.lemma_register_kind(0x98);
        self.lemma_register_kind(0xBA);
        self.lemma_register_kind(0x9A);
        lemma_flags_switched(self.cpu.p, self.cpu.a);
        lemma_flags_switched(self.cpu.p, self.cpu.x);
        lemma_flags_switched(self.cpu.p, self.cpu.y);
        lemma_flags_switched(self.cpu.p, self.cpu.sp);
    }

    /// Counting: `$E8` and `$CA` count X up and down, `$C8` and `$88` Y; they
    /// wrap and tell of the result.
    #[verifier::spinoff_prover]
    pub proof fn lemma_index_counts(self)
        ensures
            ({
                let p = self.cpu.p;
                let inx = self.executed(0xE8).cpu;
                let dex = self.executed(0xCA).cpu;
                let iny = self.executed(0xC8).cpu;
                let dey = self.executed(0x88).cpu;
                &&& inx == (Cpu6502 { x: inx.x, p: inx.p, ..self.cpu }) && told(p, inx.p, inx.x)
                &&& dex == (Cpu6502 { x: dex.x, p: dex.p, ..self.cpu }) && told(p, dex.p, dex.x)
                &&& iny == (Cpu6502 { y: iny.y, p: iny.p, ..self.cpu }) && told(p, iny.p, iny.y)
                &&& dey == (Cpu6502 { y: dey.y, p: dey.p, ..self.cpu }) && told(p, dey.p, dey.y)
                &&& inx.x == (self.cpu.x + 1) % 0x100 && dex.x == (self.cpu.x - 1) % 0x100
                &&& iny.y == (self.cpu.y + 1) % 0x100 && dey.y == (self.cpu.y - 1) % 0x100
            }),
    {
        crate::opcode_laws::lemma_opcodes_of_one_byte();
        reveal(Cpu6502::after_register_op);
        self.lemma_register_kind(0xE8);
        self.lemma_register_kind(0xCA);
        self.lemma_register_kind(0xC8);
        self.lemma_register_kind(0x88);
        lemma_flags_switched(self.cpu.p, ((self.cpu.x + 1) % 256) as u8);
        lemma_flags_switched(self.cpu.p, ((self.cpu.x - 1) % 256) as u8);
        lemma_flags_switched(self.cpu.p, ((self.cpu.y + 1) % 256) as u8);
        lemma_flags_switched(self.cpu.p, ((self.cpu.y - 1) % 256) as u8);
    }

    /// Flags: `$18` and `$38` clear and set the carry in bit 0, `$58` and
    /// `$78` bit 2, which keeps interrupts out, `$D8` and `$F8` bit 3; `$B8`
    /// clears bit 6.
    #[verifier::spinoff_prover]
    pub proof fn lemma_flags(self)
        ensures
            self.executed(0x18).cpu == (Cpu6502 { p: self.cpu.p & 0xFE, ..self.cpu }),
            self.executed(0x38).cpu == (Cpu6502 { p: self.cpu.p | 0x01, ..self.cpu }),
            self.executed(0x58).cpu == (Cpu6502 { p: self.cpu.p & 0xFB, ..self.cpu }),
            self.executed(0x78).cpu == (Cpu6502 { p: self.cpu.p | 0x04, ..self.cpu }),
            self.executed(0xD8).cpu == (Cpu6502 { p: self.cpu.p & 0xF7, ..self.cpu }),
            self.executed(0xF8).cpu == (Cpu6502 { p: self.cpu.p | 0x08, ..self.cpu }),
            self.executed(0xB8).cpu == (Cpu6502 { p: self.cpu.p & 0xBF, ..self.cpu }),
    {
        crate::opcode_laws::lemma_opcodes_of_one_byte();
        reveal(Cpu6502::after_register_op);
        lemma_flags_switched(self.cpu.p, 0);
        self.lemma_register_kind(0x18);
        self.lemma_register_kind(0x38);
        self.lemma_register_kind(0x58);
        self.lemma_register_kind(0x78);
        self.lemma_register_kind(0xD8);
        self.lemma_register_kind(0xF8);
        self.lemma_register_kind(0xB8);
    }

    /// Twelve opcodes jam the CPU; it then does nothing any more.
    #[verifier::spinoff_prover]
    pub proof fn lemma_jamming_opcodes(self, opcode: u8)
        requires
            opcode % 32 == 0x12 || opcode == 0x02 || opcode == 0x22 || opcode == 0x42 || opcode
                == 0x62,
        ensures
            self.executed(opcode).cpu == (Cpu6502 { halted: true, ..self.cpu }),
    {
        crate::opcode_laws::lemma_idle_opcodes();
        reveal(Cpu6502::after_register_op);
        self.lemma_register_kind(opcode);
    }

    /// Pushes and pops: `$48` pushes A and `$68` pops it and tells of it; `$08`
    /// pushes the flags with bits 4 and 5 set, and `$28` pops them with bit 4
    /// clear and bit 5 set. The stack grows downwards in page 1.
    #[verifier::spinoff_prover]
    pub proof fn lemma_stack(self)
        ensures
            ({
                let sp = self.cpu.sp as int;
                let here = (0x100 + sp) as u16;
                let above = (0x100 + (sp + 1) % 0x100) as u16;
                let top = self.bus.read_value(above);
                let pha = self.executed(0x48);
                let php = self.executed(0x08);
                let pla = self.executed(0x68).cpu;
                let plp = self.executed(0x28).cpu;
                &&& pha.bus == self.bus.written(here, self.cpu.a)
                &&& php.bus == self.bus.written(here, self.cpu.p | 0x30)
                &&& pha.cpu == (Cpu6502 { sp: ((sp - 1) % 0x100) as u8, ..self.cpu })
                &&& php.cpu == pha.cpu
                &&& pla == (Cpu6502 {
                    a: top,
                    p: pla.p,
                    sp: ((sp + 1) % 0x100) as u8,
                    ..self.cpu
                })
                &&& told(self.cpu.p, pla.p, top)
                &&& plp == (Cpu6502 {
                    p: (top & 0xEF) | 0x20,
                    sp: ((sp + 1) % 0x100) as u8,
                    ..self.cpu
                })
            }),
    {
        crate::opcode_laws::lemma_opcodes_of_one_byte();
        reveal(System::executed);
        reveal(System::stack_done);
        reveal(System::pushed);
        reveal(System::popped);
        reveal(crate::cpu::stack_at);
        reveal(crate::cpu::minus_one8);
        reveal(crate::cpu::plus8);
        let top = self.pop_value();
        lemma_flags_switched(self.cpu.p, top);
        lemma_flags_switched(top, top);
    }

    /// Jumps: `$4C` goes to the word behind it, and `$6C` to the word that
    /// this one points to, whose high byte is fetched from the same page.
    #[verifier::spinoff_prover]
    pub proof fn lemma_jumps(self)
        ensures
            ({
                let next = ((self.cpu.pc + 1) % 0x1_0000) as u16;
                let bus = self.bus.after_read(self.cpu.pc);
                let w = self.bus.read_value(self.cpu.pc) + 0x100 * bus.read_value(next);
                let there = bus.after_read(next);
                let second = (w / 0x100 * 0x100 + (w + 1) % 0x100) as u16;
                let jmp = self.executed(0x4C).cpu;
                let through = self.executed(0x6C).cpu;
                &&& jmp == (Cpu6502 { pc: w as u16, ..self.cpu })
                &&& through == (Cpu6502 { pc: through.pc, ..self.cpu })
                &&& through.pc == there.read_value(w as u16) + 0x100 * there.after_read(
                    w as u16,
                ).read_value(second)
            }),
    {
        crate::opcode_laws::lemma_opcodes_that_jump();
        reveal(System::executed);
        reveal(System::jump_done);
        reveal(System::next_word);
        reveal(System::word_fetched);
        reveal(System::fetched);
        reveal(System::read_two);
        reveal(System::word_at);
        reveal(crate::cpu::word);
        reveal(crate::cpu::plus16);
        reveal(crate::cpu::after_in_page);
    }

    /// Three bytes pushed: the word `ret`, high byte first, then the flags.
    pub open spec fn three_pushed(self, ret: int, flags: u8) -> crate::bus::BusView {
        let sp = self.cpu.sp as int;
        self.bus.written((0x100 + sp) as u16, (ret / 0x100) as u8).written(
            (0x100 + (sp - 1) % 0x100) as u16,
            (ret % 0x100) as u8,
        ).written((0x100 + (sp - 2) % 0x100) as u16, flags)
    }

    /// State after a jump through a vector with three bytes pushed: bit 2 of
    /// the flags keeps interrupts out.
    pub open spec fn entered(self, s: System, ret: int, flags: u8, vector: u16) -> bool {
        let bus = self.three_pushed(ret, flags);
        &&& s.cpu == (Cpu6502 {
            p: self.cpu.p | 0x04,
            sp: ((self.cpu.sp - 3) % 0x100) as u8,
            pc: s.cpu.pc,
            ..self.cpu
        })
        &&& s.cpu.pc == bus.read_value(vector) + 0x100 * bus.after_read(vector).read_value(
            (vector + 1) as u16,
        )
    }

    proof fn lemma_word_push_keeps_flags(self, w: u16)
        ensures
            self.word_pushed(w).cpu.p == self.cpu.p,
    {
        reveal(System::word_pushed);
        reveal(System::pushed);
    }

    #[verifier::spinoff_prover]
    proof fn lemma_three_pushed(self, ret: u16, flags: u8)
        ensures
            ({
                let s = self.word_pushed(ret).pushed(flags);
                &&& s.bus == self.three_pushed(ret as int, flags)
                &&& s.cpu == (Cpu6502 { sp: ((self.cpu.sp - 3) % 0x100) as u8, ..self.cpu })
            }),
    {
        reveal(System::word_pushed);
        reveal(System::pushed);
        reveal(crate::cpu::stack_at);
        reveal(crate::cpu::minus_one8);
        reveal(crate::cpu::high);
        reveal(crate::cpu::low);
    }

    #[verifier::spinoff_prover]
    proof fn lemma_entered(self, ret: u16, flags: u8, vector: u16)
        requires
            vector < 0xFFFF,
        ensures
            self.entered(
                self.word_pushed(ret).pushed(flags).vectored(vector),
                ret as int,
                flags,
                vector,
            ),
    {
        self.lemma_three_pushed(ret, flags);
        reveal(System::vectored);
        reveal(System::word_at);
        reveal(System::read_two);
        reveal(crate::cpu::word);
        reveal(crate::cpu::plus16);
    }

    /// `$00` pushes the address two bytes behind it and the flags with bits 4
    /// and 5 set, and goes on where `$FFFE` points. An interrupt pushes the
    /// address of the next instruction and the flags with bit 4 clear and bit 5
    /// set, and goes on where its vector points.
    #[verifier::spinoff_prover]
    pub proof fn lemma_interrupts(self, vector: u16)
        requires
            vector < 0xFFFF,
        ensures
            self.entered(
                self.executed(0x00),
                (self.cpu.pc + 1) % 0x1_0000,
                self.cpu.p | 0x30,
                0xFFFE,
            ),
            self.entered(
                self.interrupted(vector),
                self.cpu.pc as int,
                (self.cpu.p & 0xEF) | 0x20,
                vector,
            ),
    {
        crate::opcode_laws::lemma_opcodes_that_jump();
        reveal(System::executed);
        reveal(System::jump_done);
        reveal(System::interrupted);
        reveal(crate::cpu::plus16);
        lemma_flags_switched(self.cpu.p, 0);
        let behind = crate::cpu::plus16(self.cpu.pc, 1);
        self.lemma_entered(behind, self.cpu.p | 0x30, 0xFFFE);
        self.lemma_entered(self.cpu.pc, (self.cpu.p & 0xEF) | 0x20, vector);
        self.lemma_word_push_keeps_flags(behind);
        self.lemma_word_push_keeps_flags(self.cpu.pc);
    }

    /// `$40` takes the flags and the address from the stack, and goes on at
    /// that address.
    #[verifier::spinoff_prover]
    pub proof fn lemma_return_from_interrupt(self)
        ensures
            ({
                let sp = self.cpu.sp as int;
                let a1 = (0x100 + (sp + 1) % 0x100) as u16;
                let a2 = (0x100 + (sp + 2) % 0x100) as u16;
                let a3 = (0x100 + (sp + 3) % 0x100) as u16;
                let c = self.executed(0x40).cpu;
                &&& c == (Cpu6502 {
                    p: (self.bus.read_value(a1) & 0xEF) | 0x20,
                    sp: ((sp + 3) % 0x100) as u8,
                    pc: c.pc,
                    ..self.cpu
                })
                &&& c.pc == self.bus.after_read(a1).read_value(a2) + 0x100 * self.bus.after_read(
                    a1,
                ).after_read(a2).read_value(a3)
            }),
    {
        crate::opcode_laws::lemma_opcodes_that_jump();
        reveal(System::executed);
        reveal(System::jump_done);
        reveal(System::popped);
        reveal(System::word_popped);
        reveal(System::pop_word_value);
        reveal(crate::cpu::word);
        reveal(crate::cpu::stack_at);
        reveal(crate::cpu::plus8);
        lemma_flags_switched(self.pop_value(), 0);
    }

    /// The cycles of an instruction: what its kind and mode say, and one more
    /// where an instruction that only reads or skips its operand finds it in
    /// another page than the index was added to.
    #[verifier::spinoff_prover]
    pub proof fn lemma_cycles(self, opcode: u8)
        ensures
            ({
                let kind = crate::opcodes::kind_of(opcode);
                let mode = crate::opcodes::mode_of(opcode);
                let at = self.located(mode);
                let crossed = if at.base / 0x100 != at.addr / 0x100 { 1int } else { 0 };
                &&& kind is Read || kind is Skip ==> self.cycles_of(opcode)
                    == crate::opcode_laws::memory_cycles(kind, mode) + crossed
                &&& kind is Store || kind is Modify ==> self.cycles_of(opcode)
                    == crate::opcode_laws::memory_cycles(kind, mode)
                &&& kind is Accumulator || kind is Register ==> self.cycles_of(opcode) == 2
            }),
    {
        crate::opcode_laws::lemma_base_cycles(opcode);
        reveal(System::cycles_of);
        reveal(crate::cpu::crosses);
    }

    /// A step without an interrupt carries out the instruction whose opcode the
    /// program counter points at, with the program counter behind it, and takes
    /// its cycles and those that were stolen.
    #[verifier::spinoff_prover]
    pub proof fn lemma_step_executes(self)
        requires
            !self.cpu.halted,
            self.interrupt_due() is None,
        ensures
            ({
                let opcode = self.bus.read_value(self.cpu.pc);
                let f = self.nmi_taken().begun().fetched();
                &&& f.cpu == (Cpu6502 { pc: ((self.cpu.pc + 1) % 0x1_0000) as u16, ..self.cpu })
                &&& f.bus.mem == self.bus.mem
                &&& self.stepped().1.cpu == f.executed(opcode).cpu
                &&& self.stepped().0 >= f.cycles_of(opcode)
            }),
    {
        reveal(System::stepped);
        reveal(System::fetched);
        reveal(crate::bus::BusView::instruction_begun);
        reveal(crate::bus::BusView::read_value);
        reveal(crate::bus::BusView::after_read);
        reveal(crate::cpu::plus16);
    }
}

} // verus!
