//! Branches, stated on the opcode bytes.
use vstd::prelude::*;
use crate::cpu::{Cpu6502, System};

verus! {

/// A byte as a distance: from -128 to 127.
pub open spec fn distance(b: u8) -> int {
    if b >= 0x80 { b - 0x100 } else { b as int }
}

/// Whether two addresses differ in their high byte.
pub open spec fn other_page(a: int, b: int) -> bool {
    a / 0x100 != b / 0x100
}

#[verifier::spinoff_prover]
proof fn lemma_branch_opcodes()
    ensures
        forall|k: u8|
            k == 0x10 || k == 0x30 || k == 0x50 || k == 0x70 || k == 0x90 || k == 0xB0 || k == 0xD0
                || k == 0xF0 ==> #[trigger] crate::opcodes::kind_of(k) is Branch
                && crate::opcodes::base_cycles_of(k) == 2,
        crate::opcodes::op_of(0x10) is Bpl && crate::opcodes::op_of(0x30) is Bmi,
        crate::opcodes::op_of(0x50) is Bvc && crate::opcodes::op_of(0x70) is Bvs,
        crate::opcodes::op_of(0x90) is Bcc && crate::opcodes::op_of(0xB0) is Bcs,
        crate::opcodes::op_of(0xD0) is Bne && crate::opcodes::op_of(0xF0) is Beq,
{
    reveal(crate::opcodes::kind_of);
    reveal(crate::opcodes::op_of);
    reveal(crate::opcodes::base_cycles_of);
}

impl System {
    /// The program goes on at `target` after a two-byte instruction that
    /// otherwise only fetches its second byte.
    pub open spec fn goes_to(self, opcode: u8, target: int) -> bool {
        &&& self.executed(opcode).cpu.pc == target
        &&& self.executed(opcode).cpu == (Cpu6502 {
            pc: self.executed(opcode).cpu.pc,
            ..self.cpu
        })
        &&& self.executed(opcode).bus == self.bus.after_read(self.cpu.pc)
    }

    /// `opcode` branches exactly if `taken` holds. A branch that is taken goes
    /// from the instruction behind it by the signed operand, and takes one
    /// cycle more, or two more into another page; else the program goes on
    /// behind the operand after two cycles.
    pub open spec fn branches_if(self, opcode: u8, taken: bool) -> bool {
        let next = (self.cpu.pc + 1) % 0x1_0000;
        let target = (next + distance(self.bus.read_value(self.cpu.pc))) % 0x1_0000;
        if taken {
            &&& self.goes_to(opcode, target)
            &&& self.cycles_of(opcode) == (if other_page(next, target) { 4int } else { 3int })
        } else {
            &&& self.goes_to(opcode, next)
            &&& self.cycles_of(opcode) == 2
        }
    }

    #[verifier::spinoff_prover]
    proof fn lemma_branch_outcome(self, opcode: u8)
        requires
            crate::opcodes::kind_of(opcode) is Branch,
            crate::opcodes::base_cycles_of(opcode) == 2,
        ensures
            self.branches_if(opcode, self.cpu.branches(crate::opcodes::op_of(opcode))),
    {
        reveal(System::executed);
        reveal(System::cycles_of);
        reveal(System::branch_done);
        reveal(System::branch_extra);
        reveal(System::fetched);
        reveal(crate::cpu::moved);
        reveal(crate::cpu::plus16);
        reveal(crate::cpu::crosses);
    }

    /// The eight branches: `$10` and `$30` test bit 7 of the flags, `$50` and
    /// `$70` bit 6, `$90` and `$B0` bit 0, `$D0` and `$F0` bit 1; the first of
    /// each pair branches while the bit is clear, the second while it is set.
    #[verifier::spinoff_prover]
    pub proof fn lemma_branches(self)
        ensures
            self.branches_if(0x10, self.cpu.p & 0x80 == 0),
            self.branches_if(0x30, self.cpu.p & 0x80 != 0),
            self.branches_if(0x50, self.cpu.p & 0x40 == 0),
            self.branches_if(0x70, self.cpu.p & 0x40 != 0),
            self.branches_if(0x90, self.cpu.p & 0x01 == 0),
            self.branches_if(0xB0, self.cpu.p & 0x01 != 0),
            self.branches_if(0xD0, self.cpu.p & 0x02 == 0),
            self.branches_if(0xF0, self.cpu.p & 0x02 != 0),
    {
        lemma_branch_opcodes();
        reveal(Cpu6502::branches);
        self.lemma_branch_outcome(0x10);
        self.lemma_branch_outcome(0x30);
        self.lemma_branch_outcome(0x50);
        self.lemma_branch_outcome(0x70);
        self.lemma_branch_outcome(0x90);
        self.lemma_branch_outcome(0xB0);
        self.lemma_branch_outcome(0xD0);
        self.lemma_branch_outcome(0xF0);
    }

    /// Of the two branches of a pair exactly one is taken, and after a load of
    /// A (`$A9`) it is the zero that decides between `$F0` and `$D0`, and the
    /// sign between `$30` and `$10`.
    #[verifier::spinoff_prover]
    pub proof fn lemma_load_then_branch(self, later: System)
        requires
            later.cpu.p == self.executed(0xA9).cpu.p,
        ensures
            ({
                let loaded = self.bus.read_value(self.cpu.pc);
                &&& later.branches_if(0xF0, loaded == 0)
                &&& later.branches_if(0xD0, loaded != 0)
                &&& later.branches_if(0x30, loaded >= 0x80)
                &&& later.branches_if(0x10, loaded < 0x80)
            }),
    {
        self.lemma_lda(0xA9);
        self.lemma_operand_place();
        crate::opcode_laws::lemma_column_01(0xA9);
        assert(self.located(crate::opcodes::Mode::Immediate).sys.bus == self.bus) by {
            reveal(System::located);
        }
        later.lemma_branches();
    }
}

} // verus!
