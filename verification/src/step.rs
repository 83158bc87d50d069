//! One step of the CPU.
use vstd::prelude::*;
use crate::bus::NesBus;
use crate::cpu::{add16, move_by, next_in_page, page_crossed, previous, write_cycle_mask, Cpu6502,
    System, FLAG_B, FLAG_I, FLAG_U, INTERRUPT_WRITE_MASK};
use crate::opcodes::{base_cycles, kind, mode, operation, Kind, Mode, Op};

verus! {

/// Only one kind of jump has more than one mode; other operations do nothing.
proof fn lemma_mode_matters_to_jmp_only(s: System, op: Op, mode: Mode)
    ensures
        op != Op::Jmp ==> s.jump_done(op, mode) == s.jump_done(op, Mode::Implied),
        op != Op::Jmp && op != Op::Jsr && op != Op::Rts && op != Op::Rti && op != Op::Brk
            ==> s.jump_done(op, mode) == s,
{
    reveal(System::jump_done);
}

/// What an instruction with an operand in memory does and takes.
proof fn lemma_memory_kinds(s: System, opcode: u8)
    ensures
        ({
            let op = crate::opcodes::op_of(opcode);
            let mode = crate::opcodes::mode_of(opcode);
            let base = crate::opcodes::base_cycles_of(opcode);
            let at = s.located(mode);
            let crossed = crate::cpu::crosses(at.base, at.addr);
            &&& crate::opcodes::kind_of(opcode) is Read ==> s.executed(opcode) == s.read_done(
                op,
                mode,
            ) && s.cycles_of(opcode) == (if crossed { (base + 1) as u32 } else { base })
            &&& crate::opcodes::kind_of(opcode) is Store ==> s.executed(opcode) == s.store_done(
                op,
                mode,
            ) && s.cycles_of(opcode) == base
            &&& crate::opcodes::kind_of(opcode) is Modify ==> s.executed(opcode)
                == s.modify_done(op, mode) && s.cycles_of(opcode) == base
            &&& crate::opcodes::kind_of(opcode) is Skip ==> s.executed(opcode) == s.skip_done(
                mode,
            ) && s.cycles_of(opcode) == (if crossed { (base + 1) as u32 } else { base })
        }),
{
    reveal(System::executed);
    reveal(System::cycles_of);
}

/// What an instruction on registers, the stack or the program counter does and
/// takes.
proof fn lemma_control_kinds(s: System, opcode: u8)
    ensures
        ({
            let kind = crate::opcodes::kind_of(opcode);
            let op = crate::opcodes::op_of(opcode);
            let base = crate::opcodes::base_cycles_of(opcode);
            &&& kind is Accumulator ==> s.executed(opcode) == s.accumulator_done(op)
            &&& kind is Register ==> s.executed(opcode) == s.with_cpu(
                s.cpu.after_register_op(op),
            )
            &&& kind is Stack ==> s.executed(opcode) == s.stack_done(op)
            &&& kind is Branch ==> s.executed(opcode) == s.branch_done(op)
            &&& kind is Jump ==> s.executed(opcode) == s.jump_done(
                op,
                crate::opcodes::mode_of(opcode),
            )
            &&& kind is Branch ==> s.cycles_of(opcode) == (base + s.branch_extra(op)) as u32
            &&& kind is Accumulator || kind is Register || kind is Stack || kind is Jump
                ==> s.cycles_of(opcode) == base
        }),
{
    reveal(System::executed);
    reveal(System::cycles_of);
}

impl Cpu6502 {
    /// An instruction that reads its operand; returns whether indexing left
    /// the page.
    #[verifier::spinoff_prover]
    fn run_read(&mut self, bus: &mut NesBus, op: Op, mode: Mode) -> (crossed: bool)
        requires
            old(bus).wf(),
        ensures
            crate::execute::system(*final(self), *final(bus)) == crate::execute::system(
                *old(self),
                *old(bus),
            ).read_done(
                op,
                mode,
            ),
            ({
                let at = crate::execute::system(*old(self), *old(bus)).located(mode);
                crossed == crate::cpu::crosses(at.base, at.addr)
            }),
            final(bus).wf(),
    {
        reveal(System::read_done);
        let (base, addr): (u16, u16) = self.locate(bus, mode);
        let m: u8 = bus.cpu_read(addr);
        self.apply_read(op, m);
        page_crossed(base, addr)
    }

    /// An instruction that writes its operand.
    #[verifier::spinoff_prover]
    fn run_store(&mut self, bus: &mut NesBus, op: Op, mode: Mode)
        requires
            old(bus).wf(),
        ensures
            crate::execute::system(*final(self), *final(bus)) == crate::execute::system(
                *old(self),
                *old(bus),
            ).store_done(
                op,
                mode,
            ),
            final(bus).wf(),
    {
        reveal(System::store_done);
        let (base, addr): (u16, u16) = self.locate(bus, mode);
        let v: u8 = self.apply_store(op, base);
        bus.cpu_write(addr, v);
    }

    /// An instruction that changes its operand.
    #[verifier::spinoff_prover]
    fn run_modify(&mut self, bus: &mut NesBus, op: Op, mode: Mode)
        requires
            old(bus).wf(),
        ensures
            crate::execute::system(*final(self), *final(bus)) == crate::execute::system(
                *old(self),
                *old(bus),
            ).modify_done(
                op,
                mode,
            ),
            final(bus).wf(),
    {
        reveal(System::modify_done);
        let (_, addr): (u16, u16) = self.locate(bus, mode);
        let m: u8 = bus.cpu_read(addr);
        let v: u8 = self.apply_modify(op, m);
        bus.cpu_write(addr, v);
    }

    /// An instruction that changes A.
    #[verifier::spinoff_prover]
    fn run_accumulator(&mut self, bus: &mut NesBus, op: Op)
        ensures
            crate::execute::system(*final(self), *final(bus)) == crate::execute::system(
                *old(self),
                *old(bus),
            ).accumulator_done(
                op,
            ),
            *final(bus) == *old(bus),
    {
        reveal(System::accumulator_done);
        let v: u8 = self.apply_modify(op, self.a);
        self.a = v;
    }

    /// An instruction that pushes or pops a byte.
    #[verifier::spinoff_prover]
    fn run_stack(&mut self, bus: &mut NesBus, op: Op)
        requires
            old(bus).wf(),
        ensures
            crate::execute::system(*final(self), *final(bus)) == crate::execute::system(
                *old(self),
                *old(bus),
            ).stack_done(op),
            final(bus).wf(),
    {
        reveal(System::stack_done);
        match op {
            Op::Pha => self.push(bus, self.a),
            Op::Php => self.push(bus, self.p | FLAG_B | FLAG_U),
            Op::Pla => {
                let v: u8 = self.pop(bus);
                self.set_a(v);
            },
            Op::Plp => {
                let v: u8 = self.pop(bus);
                self.p = (v & !FLAG_B) | FLAG_U;
            },
            _ => {},
        }
    }

    /// A branch; returns the cycles that it adds.
    #[verifier::spinoff_prover]
    fn do_branch(&mut self, bus: &mut NesBus, op: Op) -> (extra: u32)
        requires
            old(bus).wf(),
        ensures
            crate::execute::system(*final(self), *final(bus)) == crate::execute::system(
                *old(self),
                *old(bus),
            ).branch_done(op),
            extra == crate::execute::system(*old(self), *old(bus)).branch_extra(op),
            extra <= 2,
            final(bus).wf(),
    {
        reveal(System::branch_done);
        reveal(System::branch_extra);
        let take = self.takes_branch(op);
        let offset: u8 = self.fetch_byte(bus);
        if !take {
            return 0;
        }
        let from: u16 = self.pc;
        self.pc = move_by(from, offset);
        if page_crossed(from, self.pc) {
            2
        } else {
            1
        }
    }

    /// Go on where a vector points, with interrupts kept out.
    #[verifier::spinoff_prover]
    fn go_through_vector(&mut self, bus: &mut NesBus, vector: u16)
        requires
            old(bus).wf(),
        ensures
            crate::execute::system(*final(self), *final(bus)) == crate::execute::system(
                *old(self),
                *old(bus),
            ).vectored(vector),
            final(bus).wf(),
    {
        reveal(System::vectored);
        self.p = self.p | FLAG_I;
        self.pc = self.read_word(bus, vector, add16(vector, 1));
    }

    /// A jump.
    #[verifier::spinoff_prover]
    fn run_jump(&mut self, bus: &mut NesBus, op: Op, mode: Mode)
        requires
            old(bus).wf(),
        ensures
            crate::execute::system(*final(self), *final(bus)) == crate::execute::system(
                *old(self),
                *old(bus),
            ).jump_done(
                op,
                mode,
            ),
            final(bus).wf(),
    {
        proof {
            lemma_mode_matters_to_jmp_only(
                crate::execute::system(*old(self), *old(bus)),
                op,
                mode,
            );
        }
        if op == Op::Jmp {
            self.run_jmp(bus, mode);
            return ;
        }
        if op == Op::Jsr {
            self.run_jsr(bus);
            return ;
        }
        if op == Op::Rts {
            self.run_rts(bus);
            return ;
        }
        if op == Op::Rti {
            self.run_rti(bus);
            return ;
        }
        if op == Op::Brk {
            self.run_brk(bus);
        }
    }

    /// Go elsewhere.
    #[verifier::spinoff_prover]
    fn run_jmp(&mut self, bus: &mut NesBus, mode: Mode)
        requires
            old(bus).wf(),
        ensures
            crate::execute::system(*final(self), *final(bus)) == crate::execute::system(
                *old(self),
                *old(bus),
            ).jump_done(Op::Jmp, mode),
            final(bus).wf(),
    {
        reveal(System::jump_done);
        let w: u16 = self.fetch_word(bus);
        if mode == Mode::Indirect {
            self.pc = self.read_word(bus, w, next_in_page(w));
        } else {
            self.pc = w;
        }
    }

    /// Call a routine.
    #[verifier::spinoff_prover]
    fn run_jsr(&mut self, bus: &mut NesBus)
        requires
            old(bus).wf(),
        ensures
            crate::execute::system(*final(self), *final(bus)) == crate::execute::system(
                *old(self),
                *old(bus),
            ).jump_done(Op::Jsr, Mode::Implied),
            final(bus).wf(),
    {
        reveal(System::jump_done);
        let target: u16 = self.fetch_word(bus);
        self.push_word(bus, previous(self.pc));
        self.pc = target;
    }

    /// Return from a routine.
    #[verifier::spinoff_prover]
    fn run_rts(&mut self, bus: &mut NesBus)
        requires
            old(bus).wf(),
        ensures
            crate::execute::system(*final(self), *final(bus)) == crate::execute::system(
                *old(self),
                *old(bus),
            ).jump_done(Op::Rts, Mode::Implied),
            final(bus).wf(),
    {
        reveal(System::jump_done);
        let w: u16 = self.pop_word(bus);
        self.pc = add16(w, 1);
    }

    /// Return from an interrupt.
    #[verifier::spinoff_prover]
    fn run_rti(&mut self, bus: &mut NesBus)
        requires
            old(bus).wf(),
        ensures
            crate::execute::system(*final(self), *final(bus)) == crate::execute::system(
                *old(self),
                *old(bus),
            ).jump_done(Op::Rti, Mode::Implied),
            final(bus).wf(),
    {
        reveal(System::jump_done);
        let p: u8 = self.pop(bus);
        let pc: u16 = self.pop_word(bus);
        self.p = (p & !FLAG_B) | FLAG_U;
        self.pc = pc;
    }

    /// Interrupt the program.
    #[verifier::spinoff_prover]
    fn run_brk(&mut self, bus: &mut NesBus)
        requires
            old(bus).wf(),
        ensures
            crate::execute::system(*final(self), *final(bus)) == crate::execute::system(
                *old(self),
                *old(bus),
            ).jump_done(Op::Brk, Mode::Implied),
            final(bus).wf(),
    {
        reveal(System::jump_done);
        self.push_word(bus, add16(self.pc, 1));
        self.push(bus, self.p | FLAG_B | FLAG_U);
        self.go_through_vector(bus, 0xFFFE);
    }

    /// An instruction that passes over its operand; returns whether indexing
    /// left the page.
    #[verifier::spinoff_prover]
    fn run_skip(&mut self, bus: &mut NesBus, mode: Mode) -> (crossed: bool)
        requires
            old(bus).wf(),
        ensures
            crate::execute::system(*final(self), *final(bus)) == crate::execute::system(
                *old(self),
                *old(bus),
            ).skip_done(mode),
            ({
                let at = crate::execute::system(*old(self), *old(bus)).located(mode);
                crossed == crate::cpu::crosses(at.base, at.addr)
            }),
            final(bus).wf(),
    {
        reveal(System::skip_done);
        if mode == Mode::Immediate {
            reveal(System::located);
            reveal(crate::cpu::crosses);
            self.fetch_byte(bus);
            false
        } else {
            let (base, addr): (u16, u16) = self.locate(bus, mode);
            page_crossed(base, addr)
        }
    }

    /// Carry out an instruction whose opcode has been fetched; returns its
    /// cycles.
    #[verifier::spinoff_prover]
    #[verifier::rlimit(60)]
    pub fn dispatch(&mut self, bus: &mut NesBus, opcode: u8) -> (cycles: u32)
        requires
            old(bus).wf(),
        ensures
            crate::execute::system(*final(self), *final(bus)) == crate::execute::system(
                *old(self),
                *old(bus),
            ).executed(opcode),
            cycles == crate::execute::system(*old(self), *old(bus)).cycles_of(opcode),
            2 <= cycles <= 10,
            final(bus).wf(),
    {
        let kind = kind(opcode);
        if kind == Kind::Read || kind == Kind::Store || kind == Kind::Modify || kind
            == Kind::Skip {
            return self.dispatch_memory(bus, opcode);
        }
        self.dispatch_control(bus, opcode)
    }

    /// Carry out an instruction with an operand in memory.
    #[verifier::spinoff_prover]
    #[verifier::rlimit(60)]
    fn dispatch_memory(&mut self, bus: &mut NesBus, opcode: u8) -> (cycles: u32)
        requires
            old(bus).wf(),
            crate::opcodes::kind_of(opcode) is Read || crate::opcodes::kind_of(opcode) is Store
                || crate::opcodes::kind_of(opcode) is Modify || crate::opcodes::kind_of(opcode) is Skip,
        ensures
            crate::execute::system(*final(self), *final(bus)) == crate::execute::system(
                *old(self),
                *old(bus),
            ).executed(opcode),
            cycles == crate::execute::system(*old(self), *old(bus)).cycles_of(opcode),
            2 <= cycles <= 10,
            final(bus).wf(),
    {
        proof {
            lemma_memory_kinds(crate::execute::system(*self, *bus), opcode);
        }
        let op = operation(opcode);
        let mode = mode(opcode);
        let base: u32 = base_cycles(opcode);
        let kind = kind(opcode);
        if kind == Kind::Read {
            let crossed = self.run_read(bus, op, mode);
            return if crossed { base + 1 } else { base };
        }
        if kind == Kind::Store {
            self.run_store(bus, op, mode);
            return base;
        }
        if kind == Kind::Modify {
            self.run_modify(bus, op, mode);
            return base;
        }
        let crossed = self.run_skip(bus, mode);
        if crossed {
            base + 1
        } else {
            base
        }
    }

    /// Carry out an instruction on registers, the stack or the program counter.
    #[verifier::spinoff_prover]
    #[verifier::rlimit(60)]
    fn dispatch_control(&mut self, bus: &mut NesBus, opcode: u8) -> (cycles: u32)
        requires
            old(bus).wf(),
            !(crate::opcodes::kind_of(opcode) is Read) && !(crate::opcodes::kind_of(opcode) is Store)
                && !(crate::opcodes::kind_of(opcode) is Modify) && !(crate::opcodes::kind_of(
                opcode,
            ) is Skip),
        ensures
            crate::execute::system(*final(self), *final(bus)) == crate::execute::system(
                *old(self),
                *old(bus),
            ).executed(opcode),
            cycles == crate::execute::system(*old(self), *old(bus)).cycles_of(opcode),
            2 <= cycles <= 10,
            final(bus).wf(),
    {
        proof {
            lemma_control_kinds(crate::execute::system(*self, *bus), opcode);
        }
        let op = operation(opcode);
        let mode = mode(opcode);
        let base: u32 = base_cycles(opcode);
        let kind = kind(opcode);
        if kind == Kind::Accumulator {
            self.run_accumulator(bus, op);
            return base;
        }
        if kind == Kind::Register {
            self.apply_register(op);
            return base;
        }
        if kind == Kind::Stack {
            self.run_stack(bus, op);
            return base;
        }
        if kind == Kind::Branch {
            let extra: u32 = self.do_branch(bus, op);
            return base + extra;
        }
        self.run_jump(bus, op, mode);
        base
    }

    /// Enter an interrupt through a vector; it takes seven cycles.
    #[verifier::spinoff_prover]
    fn service_interrupt(&mut self, bus: &mut NesBus, vector: u16) -> (cycles: u32)
        requires
            old(bus).wf(),
        ensures
            crate::execute::system(*final(self), *final(bus)) == crate::execute::system(
                *old(self),
                *old(bus),
            ).interrupted(
                vector,
            ),
            cycles == 7,
            final(bus).wf(),
    {
        reveal(System::interrupted);
        self.push_word(bus, self.pc);
        self.push(bus, (self.p & !FLAG_B) | FLAG_U);
        self.go_through_vector(bus, vector);
        7
    }

    /// Enter an interrupt and let its time pass.
    #[verifier::spinoff_prover]
    fn step_interrupt(&mut self, bus: &mut NesBus, vector: u16) -> (r: u32)
        requires
            old(bus).wf(),
        ensures
            ({
                let s = crate::execute::system(*old(self), *old(bus)).begun().interrupted(vector);
                r == s.time_of(7, INTERRUPT_WRITE_MASK) && crate::execute::system(*final(self), *final(bus))
                    == s.timed(7, INTERRUPT_WRITE_MASK)
            }),
            final(bus).wf(),
    {
        bus.cpu_begin();
        let cycles: u32 = self.service_interrupt(bus, vector);
        let stall: u32 = bus.cpu_run(cycles, INTERRUPT_WRITE_MASK);
        cycles.saturating_add(stall)
    }

    /// Fetch an instruction, carry it out and let its time pass.
    #[verifier::spinoff_prover]
    fn step_instruction(&mut self, bus: &mut NesBus) -> (r: u32)
        requires
            old(bus).wf(),
        ensures
            ({
                let b = crate::execute::system(*old(self), *old(bus)).begun();
                let opcode = b.next_byte();
                let f = b.fetched();
                let cycles = f.cycles_of(opcode);
                let mask = crate::cpu::writes_of(opcode, cycles);
                let s = f.executed(opcode);
                r == s.time_of(cycles, mask) && crate::execute::system(*final(self), *final(bus)) == s.timed(
                    cycles,
                    mask,
                )
            }),
            final(bus).wf(),
    {
        bus.cpu_begin();
        let opcode: u8 = self.fetch_byte(bus);
        let cycles: u32 = self.dispatch(bus, opcode);
        let stall: u32 = bus.cpu_run(cycles, write_cycle_mask(opcode, cycles));
        cycles.saturating_add(stall)
    }

    /// Carry out an interrupt that is due, or else the next instruction.
    /// Returns the cycles that it took, with those that DMAs have stolen.
    #[verifier::spinoff_prover]
    pub fn step(&mut self, bus: &mut NesBus) -> (r: u32)
        requires
            old(bus).wf(),
        ensures
            (r, crate::execute::system(*final(self), *final(bus))) == crate::execute::system(
                *old(self),
                *old(bus),
            ).stepped(),
            final(bus).wf(),
    {
        reveal(System::stepped);
        if self.halted {
            return 1;
        }
        let nmi = bus.cpu_take_nmi();
        if nmi {
            return self.step_interrupt(bus, 0xFFFA);
        }
        if self.p & FLAG_I == 0 && bus.cpu_irq_line() {
            return self.step_interrupt(bus, 0xFFFE);
        }
        self.step_instruction(bus)
    }
}

} // verus!
