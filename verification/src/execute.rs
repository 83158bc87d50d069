//! Instructions at work on the bus.
use vstd::prelude::*;
use crate::bus::{BusView, NesBus};
use crate::cpu::{add16, add8, decremented, high_byte, low_byte, make_word, stack_addr, Cpu6502,
    Located, System, FLAG_B, FLAG_I, FLAG_U, INTERRUPT_WRITE_MASK};
use crate::opcodes::{Kind, Mode, Op};

verus! {

/// A CPU and the contents of its bus.
pub open spec fn system(cpu: Cpu6502, bus: NesBus) -> System {
    System { cpu, bus: bus.contents() }
}

impl NesBus {
    /// The contents of the bus, as one value.
    #[verifier::opaque]
    pub open spec fn contents(self) -> BusView {
        self@
    }

    #[verifier::spinoff_prover]
    pub(crate) fn cpu_read(&mut self, addr: u16) -> (r: u8)
        requires
            old(self).wf(),
        ensures
            r == old(self).contents().read_value(addr),
            final(self).contents() == old(self).contents().after_read(addr),
            final(self).wf(),
    {
        reveal(NesBus::contents);
        self.read(addr)
    }

    #[verifier::spinoff_prover]
    pub(crate) fn cpu_write(&mut self, addr: u16, value: u8)
        requires
            old(self).wf(),
        ensures
            final(self).contents() == old(self).contents().written(addr, value),
            final(self).wf(),
    {
        reveal(NesBus::contents);
        self.write(addr, value);
    }

    #[verifier::spinoff_prover]
    pub(crate) fn cpu_begin(&mut self)
        requires
            old(self).wf(),
        ensures
            final(self).contents() == old(self).contents().instruction_begun(),
            final(self).wf(),
    {
        reveal(NesBus::contents);
        self.begin_instruction();
    }

    /// Let the time of an instruction pass; returns the stolen cycles.
    #[verifier::spinoff_prover]
    pub(crate) fn cpu_run(&mut self, cycles: u32, write_mask: u32) -> (r: u32)
        requires
            old(self).wf(),
        ensures
            r == old(self).contents().instruction_run(cycles, write_mask).mach().stall,
            final(self).contents() == old(self).contents().instruction_run(
                cycles,
                write_mask,
            ).stall_taken(),
            final(self).wf(),
    {
        reveal(NesBus::contents);
        self.run_instruction(cycles, write_mask);
        self.take_dma_stall()
    }

    #[verifier::spinoff_prover]
    pub(crate) fn cpu_take_nmi(&mut self) -> (r: bool)
        requires
            old(self).wf(),
        ensures
            r == old(self).contents().nmi_pending,
            final(self).contents() == (BusView {
                nmi_pending: false,
                ..old(self).contents()
            }),
            final(self).wf(),
    {
        reveal(NesBus::contents);
        self.take_nmi()
    }

    #[verifier::spinoff_prover]
    pub(crate) fn cpu_irq_line(&self) -> (r: bool)
        ensures
            r == self.contents().irq_asserted(),
    {
        reveal(NesBus::contents);
        self.irq_line()
    }
}

impl System {
    /// The same system with other registers.
    pub open spec fn with_cpu(self, cpu: Cpu6502) -> Self {
        System { cpu, ..self }
    }

    /// The program counter elsewhere.
    pub open spec fn at(self, pc: u16) -> Self {
        System { cpu: Cpu6502 { pc, ..self.cpu }, ..self }
    }

    /// A read.
    pub open spec fn read(self, addr: u16) -> Self {
        System { bus: self.bus.after_read(addr), ..self }
    }

    /// A write.
    pub open spec fn write(self, addr: u16, value: u8) -> Self {
        System { bus: self.bus.written(addr, value), ..self }
    }

    /// The next byte of the program.
    pub open spec fn next_byte(self) -> u8 {
        self.bus.read_value(self.cpu.pc)
    }

    /// State after the next byte of the program has been fetched.
    #[verifier::opaque]
    pub open spec fn fetched(self) -> Self {
        self.read(self.cpu.pc).at(crate::cpu::plus16(self.cpu.pc, 1))
    }

    /// The next word of the program.
    #[verifier::opaque]
    pub open spec fn next_word(self) -> u16 {
        crate::cpu::word(self.next_byte(), self.fetched().next_byte())
    }

    /// State after the next word of the program has been fetched.
    #[verifier::opaque]
    pub open spec fn word_fetched(self) -> Self {
        self.fetched().fetched()
    }

    /// Two reads.
    #[verifier::opaque]
    pub open spec fn read_two(self, lo: u16, hi: u16) -> Self {
        self.read(lo).read(hi)
    }

    /// The word that two reads return.
    #[verifier::opaque]
    pub open spec fn word_at(self, lo: u16, hi: u16) -> u16 {
        crate::cpu::word(self.bus.read_value(lo), self.read(lo).bus.read_value(hi))
    }

    /// A byte is pushed.
    #[verifier::opaque]
    pub open spec fn pushed(self, value: u8) -> Self {
        self.write(crate::cpu::stack_at(self.cpu.sp), value).with_cpu(
            (Cpu6502 { sp: crate::cpu::minus_one8(self.cpu.sp), ..self.cpu }),
        )
    }

    /// The low byte of a word is pushed last.
    #[verifier::opaque]
    pub open spec fn word_pushed(self, value: u16) -> Self {
        self.pushed(crate::cpu::high(value)).pushed(crate::cpu::low(value))
    }

    /// Address that a pop reads.
    pub open spec fn top(self) -> u16 {
        crate::cpu::stack_at(crate::cpu::plus8(self.cpu.sp, 1))
    }

    /// State after a pop.
    #[verifier::opaque]
    pub open spec fn popped(self) -> Self {
        self.read(self.top()).with_cpu(
            (Cpu6502 { sp: crate::cpu::plus8(self.cpu.sp, 1), ..self.cpu }),
        )
    }

    /// The byte that a pop returns.
    pub open spec fn pop_value(self) -> u8 {
        self.bus.read_value(self.top())
    }

    /// The word that two pops return.
    #[verifier::opaque]
    pub open spec fn pop_word_value(self) -> u16 {
        crate::cpu::word(self.pop_value(), self.popped().pop_value())
    }

    /// State after two pops.
    #[verifier::opaque]
    pub open spec fn word_popped(self) -> Self {
        self.popped().popped()
    }

    /// Where the operand of an instruction is.
    #[verifier::opaque]
    pub open spec fn located(self, mode: Mode) -> Located {
        match mode {
            Mode::Immediate => Located {
                base: self.cpu.pc,
                addr: self.cpu.pc,
                sys: self.at(crate::cpu::plus16(self.cpu.pc, 1)),
            },
            Mode::ZeroPage => self.located_in_zero_page(0),
            Mode::ZeroPageX => self.located_in_zero_page(self.cpu.x),
            Mode::ZeroPageY => self.located_in_zero_page(self.cpu.y),
            Mode::Absolute => self.located_absolute(0),
            Mode::AbsoluteX => self.located_absolute(self.cpu.x),
            Mode::AbsoluteY => self.located_absolute(self.cpu.y),
            Mode::IndirectX => self.located_through(self.cpu.x, 0),
            Mode::IndirectY => self.located_through(0, self.cpu.y),
            _ => Located { base: 0, addr: 0, sys: self },
        }
    }

    /// An operand in the zero page, where indexing wraps.
    #[verifier::opaque]
    pub open spec fn located_in_zero_page(self, index: u8) -> Located {
        let addr = crate::cpu::plus8(self.next_byte(), index) as u16;
        Located { base: addr, addr, sys: self.fetched() }
    }

    /// An operand whose address the instruction holds.
    #[verifier::opaque]
    pub open spec fn located_absolute(self, index: u8) -> Located {
        let base = self.next_word();
        Located { base, addr: crate::cpu::plus16(base, index), sys: self.word_fetched() }
    }

    /// An operand whose address stands in the zero page, where indexing and
    /// the second read wrap.
    #[verifier::opaque]
    pub open spec fn located_through(self, before: u8, after: u8) -> Located {
        let zp = crate::cpu::plus8(self.next_byte(), before);
        let lo = zp as u16;
        let hi = crate::cpu::plus8(zp, 1) as u16;
        let base = self.fetched().word_at(lo, hi);
        Located {
            base,
            addr: crate::cpu::plus16(base, after),
            sys: self.fetched().read_two(lo, hi),
        }
    }

    /// An instruction that reads its operand.
    #[verifier::opaque]
    pub open spec fn read_done(self, op: Op, mode: Mode) -> Self {
        let at = self.located(mode);
        let s = at.sys.read(at.addr);
        s.with_cpu(s.cpu.after_reading(op, at.sys.bus.read_value(at.addr)))
    }

    /// An instruction that writes its operand.
    #[verifier::opaque]
    pub open spec fn store_done(self, op: Op, mode: Mode) -> Self {
        let at = self.located(mode);
        at.sys.write(at.addr, at.sys.cpu.stored(op, at.base)).with_cpu(
            at.sys.cpu.after_storing(op),
        )
    }

    /// An instruction that changes its operand.
    #[verifier::opaque]
    pub open spec fn modify_done(self, op: Op, mode: Mode) -> Self {
        let at = self.located(mode);
        let s = at.sys.read(at.addr);
        let (v, cpu) = s.cpu.after_modifying(op, at.sys.bus.read_value(at.addr));
        s.write(at.addr, v).with_cpu(cpu)
    }

    /// An instruction that changes A.
    #[verifier::opaque]
    pub open spec fn accumulator_done(self, op: Op) -> Self {
        let (v, cpu) = self.cpu.after_modifying(op, self.cpu.a);
        self.with_cpu((Cpu6502 { a: v, ..cpu }))
    }

    /// An instruction that pushes or pops a byte. Bit 4 of the flags exists
    /// only on the stack, and bit 5 is always set.
    #[verifier::opaque]
    pub open spec fn stack_done(self, op: Op) -> Self {
        match op {
            Op::Pha => self.pushed(self.cpu.a),
            Op::Php => self.pushed(self.cpu.p | FLAG_B | FLAG_U),
            Op::Pla => {
                let s = self.popped();
                s.with_cpu(s.cpu.with_a(self.pop_value()))
            },
            Op::Plp => {
                let s = self.popped();
                s.with_cpu((Cpu6502 { p: (self.pop_value() & !FLAG_B) | FLAG_U, ..s.cpu }))
            },
            _ => self,
        }
    }

    /// Target of a branch, counted from the next instruction.
    pub open spec fn branch_target(self) -> u16 {
        crate::cpu::moved(self.fetched().cpu.pc, self.next_byte())
    }

    /// A branch.
    #[verifier::opaque]
    pub open spec fn branch_done(self, op: Op) -> Self {
        if self.cpu.branches(op) { self.fetched().at(self.branch_target()) } else {
            self.fetched()
        }
    }

    /// Cycles that a branch adds: one if it is taken, one more if it leaves
    /// the page.
    #[verifier::opaque]
    pub open spec fn branch_extra(self, op: Op) -> u32 {
        if !self.cpu.branches(op) {
            0
        } else if crate::cpu::crosses(self.fetched().cpu.pc, self.branch_target()) {
            2
        } else {
            1
        }
    }

    /// Interrupts are kept out and the CPU goes on where a vector points.
    #[verifier::opaque]
    pub open spec fn vectored(self, vector: u16) -> Self {
        let hi = crate::cpu::plus16(vector, 1);
        let s = self.with_cpu((Cpu6502 { p: self.cpu.p | FLAG_I, ..self.cpu }));
        s.read_two(vector, hi).at(s.word_at(vector, hi))
    }

    /// A jump. The pointer of an indirect one does not leave its page.
    #[verifier::opaque]
    pub open spec fn jump_done(self, op: Op, mode: Mode) -> Self {
        match op {
            Op::Jmp => {
                let w = self.next_word();
                let s = self.word_fetched();
                if mode == Mode::Indirect {
                    let hi = crate::cpu::after_in_page(w);
                    s.read_two(w, hi).at(s.word_at(w, hi))
                } else {
                    s.at(w)
                }
            },
            Op::Jsr => {
                let s = self.word_fetched();
                s.word_pushed(crate::cpu::minus_one(s.cpu.pc)).at(self.next_word())
            },
            Op::Rts => self.word_popped().at(crate::cpu::plus16(self.pop_word_value(), 1)),
            Op::Rti => {
                let s = self.popped();
                let t = s.word_popped();
                t.with_cpu(
                    (Cpu6502 {
                        p: (self.pop_value() & !FLAG_B) | FLAG_U,
                        pc: s.pop_word_value(),
                        ..t.cpu
                    }),
                )
            },
            Op::Brk => {
                let s = self.word_pushed(crate::cpu::plus16(self.cpu.pc, 1));
                s.pushed(s.cpu.p | FLAG_B | FLAG_U).vectored(0xFFFE)
            },
            _ => self,
        }
    }

    /// An instruction that passes over its operand.
    #[verifier::opaque]
    pub open spec fn skip_done(self, mode: Mode) -> Self {
        if mode == Mode::Immediate { self.fetched() } else { self.located(mode).sys }
    }

    /// State after an instruction whose opcode has been fetched.
    #[verifier::opaque]
    pub open spec fn executed(self, opcode: u8) -> Self {
        let op = crate::opcodes::op_of(opcode);
        let mode = crate::opcodes::mode_of(opcode);
        match crate::opcodes::kind_of(opcode) {
            Kind::Read => self.read_done(op, mode),
            Kind::Store => self.store_done(op, mode),
            Kind::Modify => self.modify_done(op, mode),
            Kind::Accumulator => self.accumulator_done(op),
            Kind::Register => self.with_cpu(self.cpu.after_register_op(op)),
            Kind::Stack => self.stack_done(op),
            Kind::Branch => self.branch_done(op),
            Kind::Jump => self.jump_done(op, mode),
            Kind::Skip => self.skip_done(mode),
        }
    }

    /// Cycles that an instruction takes whose opcode has been fetched. One
    /// that only reads takes one more if indexing leaves the page.
    #[verifier::opaque]
    pub open spec fn cycles_of(self, opcode: u8) -> u32 {
        let base = crate::opcodes::base_cycles_of(opcode);
        let mode = crate::opcodes::mode_of(opcode);
        match crate::opcodes::kind_of(opcode) {
            Kind::Read | Kind::Skip => {
                let at = self.located(mode);
                if crate::cpu::crosses(at.base, at.addr) { (base + 1) as u32 } else { base }
            },
            Kind::Branch => (base + self.branch_extra(crate::opcodes::op_of(opcode))) as u32,
            _ => base,
        }
    }

    /// State after the entry into an interrupt: the program counter and the
    /// flags are pushed, bit 4 clear.
    #[verifier::opaque]
    pub open spec fn interrupted(self, vector: u16) -> Self {
        let s = self.word_pushed(self.cpu.pc);
        s.pushed((s.cpu.p & !FLAG_B) | FLAG_U).vectored(vector)
    }

    /// An instruction or interrupt begins on the bus.
    pub open spec fn begun(self) -> Self {
        System { bus: self.bus.instruction_begun(), ..self }
    }

    /// The time of an instruction or interrupt passes, and the stolen cycles
    /// are taken.
    pub open spec fn timed(self, cycles: u32, write_mask: u32) -> Self {
        System { bus: self.bus.instruction_run(cycles, write_mask).stall_taken(), ..self }
    }

    /// Cycles that an instruction or interrupt took, with the stolen ones.
    pub open spec fn time_of(self, cycles: u32, write_mask: u32) -> u32 {
        let total = cycles + self.bus.instruction_run(cycles, write_mask).mach().stall;
        if total > u32::MAX { u32::MAX } else { total as u32 }
    }

    /// The request for an NMI is taken.
    pub open spec fn nmi_taken(self) -> Self {
        System { bus: BusView { nmi_pending: false, ..self.bus }, ..self }
    }

    /// The vector of the interrupt that comes before the next instruction, if
    /// any. An NMI comes first and cannot be kept out.
    pub open spec fn interrupt_due(self) -> Option<u16> {
        if self.bus.nmi_pending {
            Some(0xFFFA)
        } else if self.cpu.p & FLAG_I == 0 && self.nmi_taken().bus.irq_asserted() {
            Some(0xFFFE)
        } else {
            None
        }
    }

    /// State after one step, and the cycles that it took: an interrupt, or
    /// else an instruction. A jammed CPU does nothing for a cycle.
    #[verifier::opaque]
    pub open spec fn stepped(self) -> (u32, Self) {
        if self.cpu.halted {
            (1, self)
        } else {
            let b = self.nmi_taken().begun();
            match self.interrupt_due() {
                Some(vector) => {
                    let s = b.interrupted(vector);
                    (s.time_of(7, INTERRUPT_WRITE_MASK), s.timed(7, INTERRUPT_WRITE_MASK))
                },
                None => {
                    let opcode = b.next_byte();
                    let f = b.fetched();
                    let cycles = f.cycles_of(opcode);
                    let mask = crate::cpu::writes_of(opcode, cycles);
                    let s = f.executed(opcode);
                    (s.time_of(cycles, mask), s.timed(cycles, mask))
                },
            }
        }
    }
}

impl Cpu6502 {
    #[verifier::spinoff_prover]
    pub(crate) fn fetch_byte(&mut self, bus: &mut NesBus) -> (r: u8)
        requires
            old(bus).wf(),
        ensures
            r == system(*old(self), *old(bus)).next_byte(),
            system(*final(self), *final(bus)) == system(*old(self), *old(bus)).fetched(),
            final(bus).wf(),
    {
        reveal(System::fetched);
        let b: u8 = bus.cpu_read(self.pc);
        self.pc = add16(self.pc, 1);
        b
    }

    #[verifier::spinoff_prover]
    pub(crate) fn fetch_word(&mut self, bus: &mut NesBus) -> (r: u16)
        requires
            old(bus).wf(),
        ensures
            r == system(*old(self), *old(bus)).next_word(),
            system(*final(self), *final(bus)) == system(*old(self), *old(bus)).word_fetched(),
            final(bus).wf(),
    {
        reveal(System::next_word);
        reveal(System::word_fetched);
        let lo: u8 = self.fetch_byte(bus);
        let hi: u8 = self.fetch_byte(bus);
        make_word(lo, hi)
    }

    #[verifier::spinoff_prover]
    pub(crate) fn read_word(&self, bus: &mut NesBus, lo: u16, hi: u16) -> (r: u16)
        requires
            old(bus).wf(),
        ensures
            r == system(*self, *old(bus)).word_at(lo, hi),
            system(*self, *final(bus)) == system(*self, *old(bus)).read_two(lo, hi),
            final(bus).wf(),
    {
        reveal(System::read_two);
        reveal(System::word_at);
        let l: u8 = bus.cpu_read(lo);
        let h: u8 = bus.cpu_read(hi);
        make_word(l, h)
    }

    #[verifier::spinoff_prover]
    pub(crate) fn push(&mut self, bus: &mut NesBus, value: u8)
        requires
            old(bus).wf(),
        ensures
            system(*final(self), *final(bus)) == system(*old(self), *old(bus)).pushed(value),
            final(bus).wf(),
    {
        reveal(System::pushed);
        bus.cpu_write(stack_addr(self.sp), value);
        self.sp = decremented(self.sp);
    }

    #[verifier::spinoff_prover]
    pub(crate) fn pop(&mut self, bus: &mut NesBus) -> (r: u8)
        requires
            old(bus).wf(),
        ensures
            r == system(*old(self), *old(bus)).pop_value(),
            system(*final(self), *final(bus)) == system(*old(self), *old(bus)).popped(),
            final(bus).wf(),
    {
        reveal(System::popped);
        self.sp = add8(self.sp, 1);
        bus.cpu_read(stack_addr(self.sp))
    }

    #[verifier::spinoff_prover]
    pub(crate) fn push_word(&mut self, bus: &mut NesBus, value: u16)
        requires
            old(bus).wf(),
        ensures
            system(*final(self), *final(bus)) == system(*old(self), *old(bus)).word_pushed(value),
            final(bus).wf(),
    {
        reveal(System::word_pushed);
        self.push(bus, high_byte(value));
        self.push(bus, low_byte(value));
    }

    #[verifier::spinoff_prover]
    pub(crate) fn pop_word(&mut self, bus: &mut NesBus) -> (r: u16)
        requires
            old(bus).wf(),
        ensures
            r == system(*old(self), *old(bus)).pop_word_value(),
            system(*final(self), *final(bus)) == system(*old(self), *old(bus)).word_popped(),
            final(bus).wf(),
    {
        reveal(System::pop_word_value);
        reveal(System::word_popped);
        let lo: u8 = self.pop(bus);
        let hi: u8 = self.pop(bus);
        make_word(lo, hi)
    }

    /// Push a word, as a return address for a routine that is called from
    /// outside.
    #[verifier::spinoff_prover]
    pub fn push_word_pub(&mut self, bus: &mut NesBus, value: u16)
        requires
            old(bus).wf(),
        ensures
            system(*final(self), *final(bus)) == system(*old(self), *old(bus)).word_pushed(value),
            final(bus).wf(),
    {
        self.push_word(bus, value);
    }

    /// Take the program counter from the reset vector and put the other
    /// registers that a reset touches back.
    #[verifier::spinoff_prover]
    pub fn reset(&mut self, bus: &mut NesBus)
        requires
            old(bus).wf(),
        ensures
            system(*final(self), *final(bus)) == ({
                let s = system(*old(self), *old(bus));
                System {
                    cpu: Cpu6502 {
                        pc: s.word_at(0xFFFC, 0xFFFD),
                        sp: 0xFD,
                        p: FLAG_I | FLAG_U,
                        halted: false,
                        ..s.cpu
                    },
                    ..s.read_two(0xFFFC, 0xFFFD)
                }
            }),
            final(bus).wf(),
    {
        self.pc = self.read_word(bus, 0xFFFC, 0xFFFD);
        self.sp = 0xFD;
        self.p = FLAG_I | FLAG_U;
        self.halted = false;
    }

    #[verifier::spinoff_prover]
    pub(crate) fn addr_zp_indexed(&mut self, bus: &mut NesBus, index: u8) -> (r: (u16, u16))
        requires
            old(bus).wf(),
        ensures
            ({
                let at = system(*old(self), *old(bus)).located_in_zero_page(index);
                r == (at.base, at.addr) && system(*final(self), *final(bus)) == at.sys
            }),
            final(bus).wf(),
    {
        reveal(System::located_in_zero_page);
        let addr: u16 = add8(self.fetch_byte(bus), index) as u16;
        (addr, addr)
    }

    #[verifier::spinoff_prover]
    pub(crate) fn addr_abs_indexed(&mut self, bus: &mut NesBus, index: u8) -> (r: (u16, u16))
        requires
            old(bus).wf(),
        ensures
            ({
                let at = system(*old(self), *old(bus)).located_absolute(index);
                r == (at.base, at.addr) && system(*final(self), *final(bus)) == at.sys
            }),
            final(bus).wf(),
    {
        reveal(System::located_absolute);
        let base: u16 = self.fetch_word(bus);
        (base, add16(base, index))
    }

    #[verifier::spinoff_prover]
    pub(crate) fn addr_ind_indexed(&mut self, bus: &mut NesBus, before: u8, after: u8) -> (r: (u16, u16))
        requires
            old(bus).wf(),
        ensures
            ({
                let at = system(*old(self), *old(bus)).located_through(before, after);
                r == (at.base, at.addr) && system(*final(self), *final(bus)) == at.sys
            }),
            final(bus).wf(),
    {
        reveal(System::located_through);
        let zp: u8 = add8(self.fetch_byte(bus), before);
        let base: u16 = self.read_word(bus, zp as u16, add8(zp, 1) as u16);
        (base, add16(base, after))
    }

    /// Find the operand: the address before and after indexing.
    #[verifier::spinoff_prover]
    pub(crate) fn locate(&mut self, bus: &mut NesBus, mode: Mode) -> (r: (u16, u16))
        requires
            old(bus).wf(),
        ensures
            ({
                let at = system(*old(self), *old(bus)).located(mode);
                r == (at.base, at.addr) && system(*final(self), *final(bus)) == at.sys
            }),
            final(bus).wf(),
    {
        reveal(System::located);
        match mode {
            Mode::Immediate => {
                let addr: u16 = self.pc;
                self.pc = add16(self.pc, 1);
                (addr, addr)
            },
            Mode::ZeroPage => self.addr_zp_indexed(bus, 0),
            Mode::ZeroPageX => self.addr_zp_indexed(bus, self.x),
            Mode::ZeroPageY => self.addr_zp_indexed(bus, self.y),
            Mode::Absolute => self.addr_abs_indexed(bus, 0),
            Mode::AbsoluteX => self.addr_abs_indexed(bus, self.x),
            Mode::AbsoluteY => self.addr_abs_indexed(bus, self.y),
            Mode::IndirectX => self.addr_ind_indexed(bus, self.x, 0),
            Mode::IndirectY => self.addr_ind_indexed(bus, 0, self.y),
            _ => (0, 0),
        }
    }
}

} // verus!
