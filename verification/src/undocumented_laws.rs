//! The undocumented instructions, stated on the opcode bytes.
use vstd::prelude::*;
use crate::cpu::{Cpu6502, System};
use crate::instruction_laws::{carry_of, signed_of, tells};
use crate::opcodes::{Mode, Op};

verus! {

/// The flags tell of `v`; apart from them and the carry they are as before.
pub open spec fn told_with_carry(p: u8, q: u8, v: u8) -> bool {
    &&& tells(q, v)
    &&& q & 0x7C == p & 0x7C
}


proof fn lemma_odd_flags(p: u8, v: u8, c: bool)
    by (bit_vector)
    ensures
        (crate::cpu::with_flag(crate::cpu::with_zn(p, v), 0x01, c) & 0x01 != 0) == c,
        (crate::cpu::with_flag(crate::cpu::with_zn(p, v), 0x01, c) & 0x02 != 0) == (v == 0),
        (crate::cpu::with_flag(crate::cpu::with_zn(p, v), 0x01, c) & 0x80 != 0) == (v >= 0x80),
        crate::cpu::with_flag(crate::cpu::with_zn(p, v), 0x01, c) & 0x7C == p & 0x7C,
        (v & 0x80 != 0) == (v >= 0x80),
{
}

impl System {
    /// `$A3` and the like load A and X; `$AB` does so too, and `$BB` loads A, X
    /// and the stack pointer with what the operand has in common with it.
    #[verifier::spinoff_prover]
    pub proof fn lemma_double_loads(self, opcode: u8)
        ensures
            ({
                let c = self.executed(opcode).cpu;
                let m = self.operand(opcode);
                let v = m & self.cpu.sp;
                &&& opcode == 0xA3 || opcode == 0xA7 || opcode == 0xAF || opcode == 0xB3 || opcode
                    == 0xB7 || opcode == 0xBF || opcode == 0xAB ==> {
                    &&& c == (Cpu6502 { a: m, x: m, p: c.p, pc: c.pc, ..self.cpu })
                    &&& tells(c.p, m) && c.p & 0x7D == self.cpu.p & 0x7D
                }
                &&& opcode == 0xBB ==> {
                    &&& c == (Cpu6502 { a: v, x: v, sp: v, p: c.p, pc: c.pc, ..self.cpu })
                    &&& tells(c.p, v) && c.p & 0x7D == self.cpu.p & 0x7D
                }
            }),
    {
        crate::opcode_laws::lemma_odd_opcodes();
        reveal(Cpu6502::after_reading);
        let m = self.operand(opcode);
        crate::instruction_laws::lemma_zn(self.cpu.p, false, false, m);
        crate::instruction_laws::lemma_zn(self.cpu.p, false, false, m & self.cpu.sp);
        if opcode == 0xA3 || opcode == 0xA7 || opcode == 0xAF || opcode == 0xB3 || opcode == 0xB7
            || opcode == 0xBF {
            crate::opcode_laws::lemma_column_11(opcode);
            self.lemma_read(opcode);
            self.lemma_operand_bytes(crate::opcodes::mode_of(opcode));
        } else if opcode == 0xAB || opcode == 0xBB {
            self.lemma_read(opcode);
            self.lemma_operand_bytes(crate::opcodes::mode_of(opcode));
        }
    }

    /// The rows of the double instructions that change memory and then work on
    /// A with the result `v`: shift left and or, rotate left and and, shift
    /// right and exclusive or, rotate right and add, count down and compare,
    /// count up and subtract.
    pub open spec fn changed_then_used(self, row: int, c: Cpu6502, m: u8, v: u8) -> bool {
        let p = self.cpu.p;
        let a = self.cpu.a;
        &&& c == (Cpu6502 { a: c.a, p: c.p, pc: c.pc, ..self.cpu })
        &&& row == 0 ==> v + 0x100 * carry_of(c.p) == 2 * m && c.a == a | v && told_with_carry(
            p,
            c.p,
            c.a,
        )
        &&& row == 1 ==> v + 0x100 * carry_of(c.p) == 2 * m + carry_of(p) && c.a == a & v
            && told_with_carry(p, c.p, c.a)
        &&& row == 2 ==> 2 * v + carry_of(c.p) == m && c.a == a ^ v && told_with_carry(
            p,
            c.p,
            c.a,
        )
        &&& row == 3 ==> {
            let out = m + 0x100 * carry_of(p) - 2 * v;
            let s = signed_of(a) + signed_of(v) + out;
            &&& 0 <= out <= 1
            &&& c.a + 0x100 * carry_of(c.p) == a + v + out
            &&& (c.p & 0x40 != 0 <==> s < -128 || s > 127)
            &&& tells(c.p, c.a)
        }
        &&& row == 6 ==> {
            &&& v == (m - 1) % 0x100 && c.a == a
            &&& (c.p & 0x01 != 0 <==> a >= v) && (c.p & 0x02 != 0 <==> a == v)
            &&& (c.p & 0x80 != 0 <==> (a - v) % 0x100 >= 0x80)
        }
        &&& row == 7 ==> {
            let s = signed_of(a) - signed_of(v) - (1 - carry_of(p));
            &&& v == (m + 1) % 0x100
            &&& c.a - 0x100 * (1 - carry_of(c.p)) == a - v - (1 - carry_of(p))
            &&& (c.p & 0x40 != 0 <==> s < -128 || s > 127)
            &&& tells(c.p, c.a)
        }
    }

    /// The double instructions of the column that ends in bits 11.
    #[verifier::spinoff_prover]
    pub proof fn lemma_double_changes(self, opcode: u8)
        requires
            opcode % 4 == 3,
            opcode / 4 % 8 != 2,
            opcode / 32 != 4 && opcode / 32 != 5,
        ensures
            exists|v: u8| #[trigger]
                self.leaves(opcode, v) && self.changed_then_used(
                    opcode as int / 32,
                    self.executed(opcode).cpu,
                    self.operand(opcode),
                    v,
                ),
    {
        crate::opcode_laws::lemma_column_11(opcode);
        self.lemma_modify(opcode);
        self.lemma_operand_bytes(crate::opcodes::mode_of(opcode));
        let m = self.operand(opcode);
        let at = self.located(crate::opcodes::mode_of(opcode));
        let op = crate::opcodes::op_of(opcode);
        let (v, cpu) = at.sys.cpu.after_modifying(op, m);
        at.sys.cpu.lemma_shift_and_logic(op, m);
        at.sys.cpu.lemma_count_and_sum(op, m);
        assert(self.leaves(opcode, v));
    }

    /// `$0B` and `$2B`: A and the operand, with the sign in the carry too.
    /// `$4B`: the same shifted right. `$CB`: what A and X have in common less
    /// the operand, into X. `$8B`: what X and the operand have in common, into
    /// A.
    #[verifier::spinoff_prover]
    pub proof fn lemma_odd_immediates(self)
        ensures
            ({
                let p = self.cpu.p;
                let m = self.bus.read_value(self.cpu.pc);
                let both = self.cpu.a & self.cpu.x;
                let anc = self.executed(0x0B).cpu;
                let alr = self.executed(0x4B).cpu;
                let sbx = self.executed(0xCB).cpu;
                let ane = self.executed(0x8B).cpu;
                &&& self.executed(0x2B).cpu == anc
                &&& anc == (Cpu6502 { a: self.cpu.a & m, p: anc.p, pc: anc.pc, ..self.cpu })
                &&& told_with_carry(p, anc.p, anc.a) && (anc.p & 0x01 != 0 <==> anc.a >= 0x80)
                &&& alr == (Cpu6502 { a: alr.a, p: alr.p, pc: alr.pc, ..self.cpu })
                &&& 2 * alr.a + carry_of(alr.p) == self.cpu.a & m && told_with_carry(
                    p,
                    alr.p,
                    alr.a,
                )
                &&& sbx == (Cpu6502 { x: sbx.x, p: sbx.p, pc: sbx.pc, ..self.cpu })
                &&& sbx.x == (both - m) % 0x100 && told_with_carry(p, sbx.p, sbx.x)
                &&& (sbx.p & 0x01 != 0 <==> both >= m)
                &&& ane == (Cpu6502 { a: self.cpu.x & m, p: ane.p, pc: ane.pc, ..self.cpu })
                &&& tells(ane.p, ane.a) && ane.p & 0x7D == p & 0x7D
            }),
    {
        crate::opcode_laws::lemma_odd_opcodes();
        reveal(Cpu6502::after_reading);
        self.lemma_read(0x0B);
        self.lemma_read(0x2B);
        self.lemma_read(0x4B);
        self.lemma_read(0xCB);
        self.lemma_read(0x8B);
        self.lemma_operand_bytes(crate::opcodes::Mode::Immediate);
        self.lemma_operand_place();
        let m = self.bus.read_value(self.cpu.pc);
        let at = self.located(crate::opcodes::Mode::Immediate);
        assert(at.sys.bus == self.bus) by {
            reveal(System::located);
        }
        let both = self.cpu.a & self.cpu.x;
        lemma_odd_flags(self.cpu.p, self.cpu.a & m, (self.cpu.a & m) & 0x80 != 0);
        at.sys.cpu.lemma_shifted(self.cpu.a & m, false);
        crate::instruction_laws::lemma_zn(
            self.cpu.p,
            both >= m,
            false,
            ((both - m) % 256) as u8,
        );
        crate::instruction_laws::lemma_zn(self.cpu.p, false, false, self.cpu.x & m);
    }
}

proof fn lemma_arr_bits(p: u8, a: u8, v: u8, c: bool, o: bool)
    by (bit_vector)
    ensures
        (crate::cpu::with_flag(crate::cpu::with_flag(crate::cpu::with_zn(p, v), 0x01, c), 0x40, o)
            & 0x01 != 0) == c,
        (crate::cpu::with_flag(crate::cpu::with_flag(crate::cpu::with_zn(p, v), 0x01, c), 0x40, o)
            & 0x40 != 0) == o,
        (crate::cpu::with_flag(crate::cpu::with_flag(crate::cpu::with_zn(p, v), 0x01, c), 0x40, o)
            & 0x02 != 0) == (v == 0),
        (crate::cpu::with_flag(crate::cpu::with_flag(crate::cpu::with_zn(p, v), 0x01, c), 0x40, o)
            & 0x80 != 0) == (v >= 0x80),
        crate::cpu::with_flag(crate::cpu::with_flag(crate::cpu::with_zn(p, v), 0x01, c), 0x40, o)
            & 0x3C == p & 0x3C,
        (v & 0x40 != 0) == (v / 64u8 % 2 == 1),
        (((v >> 6) ^ (v >> 5)) & 0x01 != 0) == (v / 64u8 % 2 != v / 32u8 % 2),
        (a >> 1) | 0u8 == a / 2u8,
        (a >> 1) | 0x80u8 == (a / 2u8 + 128u8) as u8,
{
}

impl System {
    /// `$6B`: A and the operand, rotated right into A; the carry is bit 6 of
    /// the result, and V says whether bits 6 and 5 differ.
    #[verifier::spinoff_prover]
    pub proof fn lemma_arr(self)
        ensures
            ({
                let c = self.executed(0x6B).cpu;
                let both = self.cpu.a & self.bus.read_value(self.cpu.pc);
                &&& c == (Cpu6502 { a: c.a, p: c.p, pc: c.pc, ..self.cpu })
                &&& c.a == both / 2 + 0x80 * carry_of(self.cpu.p)
                &&& tells(c.p, c.a)
                &&& (c.p & 0x01 != 0 <==> c.a / 64 % 2 == 1)
                &&& (c.p & 0x40 != 0 <==> c.a / 64 % 2 != c.a / 32 % 2)
                &&& c.p & 0x3C == self.cpu.p & 0x3C
            }),
    {
        crate::opcode_laws::lemma_odd_opcodes();
        reveal(Cpu6502::after_reading);
        self.lemma_read(0x6B);
        self.lemma_operand_bytes(crate::opcodes::Mode::Immediate);
        self.lemma_operand_place();
        assert(self.located(crate::opcodes::Mode::Immediate).sys.bus == self.bus) by {
            reveal(System::located);
        }
        let both = self.cpu.a & self.bus.read_value(self.cpu.pc);
        let v = self.executed(0x6B).cpu.a;
        lemma_arr_bits(
            self.cpu.p,
            both,
            v,
            v & 0x40 != 0,
            ((v >> 6) ^ (v >> 5)) & 0x01 != 0,
        );
    }

    /// The stores that mask with the page behind the one that the operand
    /// names: `$93` and `$9F` store what A and X have in common, `$9E` X, `$9C`
    /// Y, and `$9B` A and X again, which it keeps in the stack pointer too.
    #[verifier::spinoff_prover]
    pub proof fn lemma_masked_stores(self, opcode: u8)
        requires
            opcode == 0x93 || opcode == 0x9F || opcode == 0x9E || opcode == 0x9C || opcode == 0x9B,
        ensures
            ({
                let at = self.located(crate::opcodes::mode_of(opcode));
                let page = ((at.base / 0x100 + 1) % 0x100) as u8;
                let both = self.cpu.a & self.cpu.x;
                let v = if opcode == 0x9E {
                    self.cpu.x & page
                } else if opcode == 0x9C {
                    self.cpu.y & page
                } else {
                    both & page
                };
                let c = self.executed(opcode).cpu;
                &&& self.executed(opcode).bus == at.sys.bus.written(at.addr, v)
                &&& c == (Cpu6502 {
                    sp: if opcode == 0x9B { both } else { self.cpu.sp },
                    pc: c.pc,
                    ..self.cpu
                })
            }),
    {
        crate::opcode_laws::lemma_odd_opcodes();
        self.lemma_store(opcode);
        self.lemma_operand_bytes(crate::opcodes::mode_of(opcode));
        reveal(Cpu6502::stored);
        reveal(Cpu6502::after_storing);
    }
}

impl Cpu6502 {
    #[verifier::spinoff_prover]
    proof fn lemma_shift_and_logic(self, op: Op, m: u8)
        ensures
            ({
                let (v, c) = self.after_modifying(op, m);
                let p = self.p;
                &&& op is Slo || op is Rla || op is Sre ==> c == (Cpu6502 { a: c.a, p: c.p, ..self })
                    && told_with_carry(p, c.p, c.a)
                &&& op is Slo ==> v + 0x100 * carry_of(c.p) == 2 * m && c.a == self.a | v
                &&& op is Rla ==> v + 0x100 * carry_of(c.p) == 2 * m + carry_of(p) && c.a == self.a
                    & v
                &&& op is Sre ==> 2 * v + carry_of(c.p) == m && c.a == self.a ^ v
            }),
    {
        reveal(Cpu6502::after_modifying);
        self.lemma_shifted(m, false);
        self.lemma_shifted(m, true);
        let (v, c) = self.after_modifying(op, m);
        let s = if op is Slo {
            self.shifted_left(m, false).1
        } else if op is Rla {
            self.shifted_left(m, self.carry()).1
        } else {
            self.shifted_right(m, false).1
        };
        crate::instruction_laws::lemma_zn(s.p, false, false, c.a);
        crate::instruction_laws::lemma_carry_kept(s.p, c.a);
    }

    #[verifier::spinoff_prover]
    proof fn lemma_count_and_sum(self, op: Op, m: u8)
        ensures
            ({
                let (v, c) = self.after_modifying(op, m);
                let p = self.p;
                let out = m + 0x100 * carry_of(p) - 2 * v;
                let sum = signed_of(self.a) + signed_of(v) + out;
                let difference = signed_of(self.a) - signed_of(v) - (1 - carry_of(p));
                &&& op is Rra || op is Dcp || op is Isb ==> c == (Cpu6502 {
                    a: c.a,
                    p: c.p,
                    ..self
                })
                &&& op is Rra ==> 0 <= out <= 1 && c.a + 0x100 * carry_of(c.p) == self.a + v + out
                    && (c.p & 0x40 != 0 <==> sum < -128 || sum > 127) && tells(c.p, c.a)
                &&& op is Dcp ==> v == (m - 1) % 0x100 && c.a == self.a && (c.p & 0x01 != 0
                    <==> self.a >= v) && (c.p & 0x02 != 0 <==> self.a == v) && (c.p & 0x80 != 0
                    <==> (self.a - v) % 0x100 >= 0x80)
                &&& op is Isb ==> v == (m + 1) % 0x100 && c.a - 0x100 * (1 - carry_of(c.p))
                    == self.a - v - (1 - carry_of(p)) && (c.p & 0x40 != 0 <==> difference < -128
                    || difference > 127) && tells(c.p, c.a)
            }),
    {
        reveal(Cpu6502::after_modifying);
        self.lemma_shifted(m, false);
        self.lemma_shifted(m, true);
        let (v, c) = self.after_modifying(op, m);
        if op is Rra {
            let s = self.shifted_right(m, self.carry()).1;
            s.lemma_added(v);
        } else if op is Isb {
            self.lemma_added(!v);
            crate::instruction_laws::lemma_overflow(0, v, 0, v);
        } else if op is Dcp {
            crate::instruction_laws::lemma_zn(
                self.p,
                self.a >= v,
                false,
                ((self.a - v) % 256) as u8,
            );
        }
    }
}

impl System {
    /// The opcodes that do nothing pass over their operand and change nothing
    /// but the program counter: no byte in the column of `$1A`, two bytes in
    /// that of `$0C`, and one in the others.
    #[verifier::spinoff_prover]
    pub proof fn lemma_skipped_operands(self, opcode: u8)
        ensures
            ({
                let moved_by = |n: int|
                    Cpu6502 { pc: ((self.cpu.pc + n) % 0x1_0000) as u16, ..self.cpu };
                let s = self.executed(opcode);
                &&& opcode == 0x1A || opcode == 0x3A || opcode == 0x5A || opcode == 0x7A || opcode
                    == 0xDA || opcode == 0xEA || opcode == 0xFA ==> s.cpu == moved_by(0)
                    && s.bus == self.bus
                &&& opcode == 0x80 || opcode == 0x82 || opcode == 0x89 || opcode == 0xC2 || opcode
                    == 0xE2 || opcode == 0x04 || opcode == 0x44 || opcode == 0x64 || opcode == 0x14
                    || opcode == 0x34 || opcode == 0x54 || opcode == 0x74 || opcode == 0xD4 || opcode
                    == 0xF4 ==> s.cpu == moved_by(1) && s.bus.mem == self.bus.mem
                &&& opcode == 0x0C || opcode == 0x1C || opcode == 0x3C || opcode == 0x5C || opcode
                    == 0x7C || opcode == 0xDC || opcode == 0xFC ==> s.cpu == moved_by(2)
                    && s.bus.mem == self.bus.mem
            }),
    {
        crate::opcode_laws::lemma_opcodes_that_skip();
        crate::opcode_laws::lemma_idle_opcodes();
        reveal(System::executed);
        reveal(System::skip_done);
        let mode = crate::opcodes::mode_of(opcode);
        if !(mode is Implied) && !(mode is Indirect) && !(mode is Relative) {
            self.lemma_operand_bytes(mode);
        }
        assert(self.located(Mode::Implied).sys == self) by {
            reveal(System::located);
        }
        assert(self.fetched().cpu == self.located(Mode::ZeroPage).sys.cpu
            && self.fetched().bus.mem == self.bus.mem) by {
            self.lemma_operand_bytes(Mode::ZeroPage);
            reveal(System::fetched);
            reveal(crate::bus::BusView::after_read);
            reveal(crate::cpu::plus16);
        }
        self.lemma_operand_bytes(Mode::ZeroPage);
    }
}

} // verus!
