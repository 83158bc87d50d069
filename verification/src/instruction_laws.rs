//! What instructions do, stated on the opcode bytes: where the operand is, and
//! how registers, flags and the operand come out of it.
use vstd::prelude::*;
use crate::cpu::{Cpu6502, System};
use crate::opcodes::{Mode, Op};

verus! {

/// Z says whether `v` is zero, and N is its sign bit.
pub open spec fn tells(p: u8, v: u8) -> bool {
    &&& (p & 0x02 != 0 <==> v == 0)
    &&& (p & 0x80 != 0 <==> v >= 0x80)
}

/// The carry flag as a number.
pub open spec fn carry_of(p: u8) -> int {
    if p & 0x01 != 0 { 1 } else { 0 }
}

/// A byte as a signed number.
pub open spec fn signed_of(b: u8) -> int {
    if b >= 0x80 { b - 0x100 } else { b as int }
}

/// What the shifts, rotations and counts make of a byte `m`: `v` and the flags
/// `q` that were `p`. The rows are `$0x`/`$1x` a shift to the left, `$2x`/`$3x`
/// a rotation to the left, `$4x`/`$5x` and `$6x`/`$7x` the same to the right,
/// `$Cx`/`$Dx` one less, `$Ex`/`$Fx` one more.
pub open spec fn changed(row: int, p: u8, q: u8, m: u8, v: u8) -> bool {
    &&& row == 0 ==> v + 0x100 * carry_of(q) == 2 * m
    &&& row == 1 ==> v + 0x100 * carry_of(q) == 2 * m + carry_of(p)
    &&& row == 2 ==> 2 * v + carry_of(q) == m
    &&& row == 3 ==> 2 * v + carry_of(q) == m + 0x100 * carry_of(p)
    &&& row == 6 ==> v == (m - 1) % 0x100 && carry_of(q) == carry_of(p)
    &&& row == 7 ==> v == (m + 1) % 0x100 && carry_of(q) == carry_of(p)
    &&& tells(q, v)
    &&& q & 0x7C == p & 0x7C
}

pub(crate) proof fn lemma_zn(p: u8, c: bool, o: bool, v: u8)
    by (bit_vector)
    ensures
        (crate::cpu::with_zn(p, v) & 0x02 != 0) == (v == 0),
        (crate::cpu::with_zn(p, v) & 0x80 != 0) == (v >= 0x80),
        crate::cpu::with_zn(p, v) & 0x7D == p & 0x7D,
        (crate::cpu::with_zn(crate::cpu::with_flag(p, 0x01, c), v) & 0x02 != 0) == (v == 0),
        (crate::cpu::with_zn(crate::cpu::with_flag(p, 0x01, c), v) & 0x80 != 0) == (v >= 0x80),
        (crate::cpu::with_zn(crate::cpu::with_flag(p, 0x01, c), v) & 0x01 != 0) == c,
        crate::cpu::with_zn(crate::cpu::with_flag(p, 0x01, c), v) & 0x7C == p & 0x7C,
        (crate::cpu::with_zn(crate::cpu::with_flag(crate::cpu::with_flag(p, 0x01, c), 0x40, o), v)
            & 0x02 != 0) == (v == 0),
        (crate::cpu::with_zn(crate::cpu::with_flag(crate::cpu::with_flag(p, 0x01, c), 0x40, o), v)
            & 0x80 != 0) == (v >= 0x80),
        (crate::cpu::with_zn(crate::cpu::with_flag(crate::cpu::with_flag(p, 0x01, c), 0x40, o), v)
            & 0x01 != 0) == c,
        (crate::cpu::with_zn(crate::cpu::with_flag(crate::cpu::with_flag(p, 0x01, c), 0x40, o), v)
            & 0x40 != 0) == o,
        crate::cpu::with_zn(crate::cpu::with_flag(crate::cpu::with_flag(p, 0x01, c), 0x40, o), v)
            & 0x3C == p & 0x3C,
{
}

proof fn lemma_bit_test(p: u8, z: bool, n: bool, o: bool)
    by (bit_vector)
    ensures
        (crate::cpu::with_flag(crate::cpu::with_flag(crate::cpu::with_flag(p, 0x02, z), 0x80, n), 0x40, o)
            & 0x02 != 0) == z,
        (crate::cpu::with_flag(crate::cpu::with_flag(crate::cpu::with_flag(p, 0x02, z), 0x80, n), 0x40, o)
            & 0x80 != 0) == n,
        (crate::cpu::with_flag(crate::cpu::with_flag(crate::cpu::with_flag(p, 0x02, z), 0x80, n), 0x40, o)
            & 0x40 != 0) == o,
        crate::cpu::with_flag(crate::cpu::with_flag(crate::cpu::with_flag(p, 0x02, z), 0x80, n), 0x40, o)
            & 0x3D == p & 0x3D,
{
}

pub(crate) proof fn lemma_overflow(a: u8, m: u8, c: u8, r: u8)
    by (bit_vector)
    requires
        c <= 1,
        r == ((a + m + c) % 256) as u8,
    ensures
        ((a ^ r) & (m ^ r) & 0x80 != 0) == ((a < 128 && m < 128 && a + m + c >= 128) || (a >= 128
            && m >= 128 && a + m + c < 384)),
        !m == (255 - m) as u8,
{
}

proof fn lemma_shifts(m: u8)
    by (bit_vector)
    ensures
        (m & 0x80 != 0) == (m >= 128),
        (m & 0x01 != 0) == (m % 2 == 1),
        (m << 1) | 0u8 == ((2 * m) % 256) as u8,
        (m << 1) | 1u8 == ((2 * m + 1) % 256) as u8,
        (m >> 1) | 0u8 == m / 2u8,
        (m >> 1) | 0x80u8 == (m / 2u8 + 128u8) as u8,
{
}

impl System {
    /// The operand of an instruction.
    pub open spec fn operand(self, opcode: u8) -> u8 {
        let at = self.located(crate::opcodes::mode_of(opcode));
        at.sys.bus.read_value(at.addr)
    }

    /// Where an operand is. An immediate one follows the opcode. In the zero
    /// page the index is added without a carry. An absolute address is a word,
    /// low byte first, to which the index is added. A pointer stands in the
    /// zero page, low byte first, and does not leave it: X is added to where
    /// the pointer is, Y to where it points. Apart from the program counter
    /// the registers stay as they are.
    #[verifier::spinoff_prover]
    pub proof fn lemma_operand_place(self)
        ensures
            ({
                let pc = self.cpu.pc as int;
                let next = ((pc + 1) % 0x1_0000) as u16;
                let first = self.bus.read_value(self.cpu.pc) as int;
                let bus = self.bus.after_read(self.cpu.pc);
                let word = first + 0x100 * bus.read_value(next);
                let x = self.cpu.x as int;
                let y = self.cpu.y as int;
                &&& self.located(Mode::Immediate).addr == pc
                &&& self.located(Mode::ZeroPage).addr == first
                &&& self.located(Mode::ZeroPageX).addr == (first + x) % 0x100
                &&& self.located(Mode::ZeroPageY).addr == (first + y) % 0x100
                &&& self.located(Mode::Absolute).addr == word
                &&& self.located(Mode::AbsoluteX).addr == (word + x) % 0x1_0000
                &&& self.located(Mode::AbsoluteY).addr == (word + y) % 0x1_0000
                &&& self.located(Mode::AbsoluteX).base == word
                &&& self.located(Mode::AbsoluteY).base == word
            }),
    {
        reveal(System::located);
        reveal(System::located_in_zero_page);
        reveal(System::located_absolute);
        reveal(System::fetched);
        reveal(System::next_word);
        reveal(crate::cpu::plus8);
        reveal(crate::cpu::plus16);
        reveal(crate::cpu::word);
    }

    /// Where an operand is that a pointer in the zero page points to.
    #[verifier::spinoff_prover]
    pub proof fn lemma_operand_behind_pointer(self)
        ensures
            ({
                let bus = self.bus.after_read(self.cpu.pc);
                let first = self.bus.read_value(self.cpu.pc) as int;
                let at_x = ((first + self.cpu.x) % 0x100) as u16;
                let behind_x = ((first + self.cpu.x + 1) % 0x100) as u16;
                let at = first as u16;
                let behind = ((first + 1) % 0x100) as u16;
                let by_x = bus.read_value(at_x) + 0x100 * bus.after_read(at_x).read_value(behind_x);
                let by_y = bus.read_value(at) + 0x100 * bus.after_read(at).read_value(behind);
                &&& self.located(Mode::IndirectX).addr == by_x
                &&& self.located(Mode::IndirectX).base == by_x
                &&& self.located(Mode::IndirectY).base == by_y
                &&& self.located(Mode::IndirectY).addr == (by_y + self.cpu.y) % 0x1_0000
            }),
    {
        reveal(System::located);
        reveal(System::located_through);
        reveal(System::word_at);
        reveal(System::fetched);
        reveal(crate::cpu::plus8);
        reveal(crate::cpu::plus16);
        reveal(crate::cpu::word);
    }

    /// Finding an operand moves the program counter past the instruction: over
    /// no byte, one byte or two. Other registers stay as they are.
    #[verifier::spinoff_prover]
    pub proof fn lemma_operand_bytes(self, mode: Mode)
        requires
            !(mode is Implied) && !(mode is Indirect) && !(mode is Relative),
        ensures
            ({
                let bytes = if mode is Absolute || mode is AbsoluteX || mode is AbsoluteY {
                    2int
                } else {
                    1
                };
                self.located(mode).sys.cpu == (Cpu6502 {
                    pc: ((self.cpu.pc + bytes) % 0x1_0000) as u16,
                    ..self.cpu
                })
            }),
            self.located(mode).sys.bus.mem == self.bus.mem,
    {
        reveal(System::located);
        reveal(System::located_in_zero_page);
        reveal(System::located_absolute);
        reveal(System::located_through);
        reveal(System::fetched);
        reveal(System::word_fetched);
        reveal(System::read_two);
        reveal(crate::bus::BusView::after_read);
        reveal(crate::cpu::plus16);
    }

    #[verifier::spinoff_prover]
    pub(crate) proof fn lemma_read(self, opcode: u8)
        requires
            crate::opcodes::kind_of(opcode) is Read,
        ensures
            self.executed(opcode).cpu == self.located(
                crate::opcodes::mode_of(opcode),
            ).sys.cpu.after_reading(crate::opcodes::op_of(opcode), self.operand(opcode)),
    {
        reveal(System::executed);
        reveal(System::read_done);
    }

    #[verifier::spinoff_prover]
    proof fn lemma_regular_read(self, opcode: u8)
        requires
            opcode % 4 == 1,
            opcode / 32 != 4,
        ensures
            ({
                let at = self.located(crate::opcodes::mode_of(opcode));
                &&& self.executed(opcode).cpu == at.sys.cpu.after_reading(
                    crate::opcodes::op_of(opcode),
                    self.operand(opcode),
                )
                &&& at.sys.cpu == (Cpu6502 { pc: at.sys.cpu.pc, ..self.cpu })
            }),
    {
        crate::opcode_laws::lemma_column_01(opcode);
        self.lemma_read(opcode);
        self.lemma_operand_bytes(crate::opcodes::mode_of(opcode));
    }

    /// A load of A (`$A1` and the like) takes the operand into A.
    #[verifier::spinoff_prover]
    pub proof fn lemma_lda(self, opcode: u8)
        requires
            opcode % 4 == 1,
            opcode / 32 == 5,
        ensures
            ({
                let c = self.executed(opcode).cpu;
                &&& c == (Cpu6502 { a: self.operand(opcode), p: c.p, pc: c.pc, ..self.cpu })
                &&& tells(c.p, c.a)
                &&& c.p & 0x7D == self.cpu.p & 0x7D
            }),
    {
        crate::opcode_laws::lemma_column_01(opcode);
        self.lemma_regular_read(opcode);
        reveal(Cpu6502::after_reading);
        lemma_zn(self.cpu.p, false, false, self.operand(opcode));
    }

    /// An addition (`$61` and the like): the sum of A, the operand and the
    /// carry stands in A and the carry behind it; V says whether the sum of the
    /// signed numbers is out of range.
    #[verifier::spinoff_prover]
    pub proof fn lemma_adc(self, opcode: u8)
        requires
            opcode % 4 == 1,
            opcode / 32 == 3,
        ensures
            ({
                let c = self.executed(opcode).cpu;
                let m = self.operand(opcode);
                let s = signed_of(self.cpu.a) + signed_of(m) + carry_of(self.cpu.p);
                &&& c == (Cpu6502 { a: c.a, p: c.p, pc: c.pc, ..self.cpu })
                &&& c.a + 0x100 * carry_of(c.p) == self.cpu.a + m + carry_of(self.cpu.p)
                &&& (c.p & 0x40 != 0 <==> s < -128 || s > 127)
                &&& tells(c.p, c.a)
                &&& c.p & 0x3C == self.cpu.p & 0x3C
            }),
    {
        crate::opcode_laws::lemma_column_01(opcode);
        self.lemma_regular_read(opcode);
        reveal(Cpu6502::after_reading);
        self.cpu.lemma_added(self.operand(opcode));
    }

    /// A subtraction (`$E1` and the like): A less the operand less a borrow,
    /// which is a carry that is clear; the carry comes out clear if another
    /// borrow is needed.
    #[verifier::spinoff_prover]
    pub proof fn lemma_sbc(self, opcode: u8)
        requires
            opcode % 4 == 1,
            opcode / 32 == 7,
        ensures
            ({
                let c = self.executed(opcode).cpu;
                let m = self.operand(opcode);
                let s = signed_of(self.cpu.a) - signed_of(m) - (1 - carry_of(self.cpu.p));
                &&& c == (Cpu6502 { a: c.a, p: c.p, pc: c.pc, ..self.cpu })
                &&& c.a - 0x100 * (1 - carry_of(c.p)) == self.cpu.a - m - (1 - carry_of(
                    self.cpu.p,
                ))
                &&& (c.p & 0x40 != 0 <==> s < -128 || s > 127)
                &&& tells(c.p, c.a)
                &&& c.p & 0x3C == self.cpu.p & 0x3C
            }),
    {
        crate::opcode_laws::lemma_column_01(opcode);
        self.lemma_regular_read(opcode);
        reveal(Cpu6502::after_reading);
        let m = self.operand(opcode);
        self.cpu.lemma_added(!m);
        lemma_overflow(0, m, 0, m);
    }
}

impl Cpu6502 {
    #[verifier::spinoff_prover]
    pub(crate) proof fn lemma_added(self, m: u8)
        ensures
            ({
                let c = self.added(m);
                let s = signed_of(self.a) + signed_of(m) + carry_of(self.p);
                &&& c == (Cpu6502 { a: c.a, p: c.p, ..self })
                &&& c.a + 0x100 * carry_of(c.p) == self.a + m + carry_of(self.p)
                &&& (c.p & 0x40 != 0 <==> s < -128 || s > 127)
                &&& tells(c.p, c.a)
                &&& c.p & 0x3C == self.p & 0x3C
            }),
    {
        let cin: int = if self.p & 0x01 != 0 { 1 } else { 0 };
        let sum = self.a + m + cin;
        let r = (sum % 256) as u8;
        let overflow = (self.a ^ r) & (m ^ r) & 0x80 != 0;
        lemma_overflow(self.a, m, cin as u8, r);
        lemma_zn(self.p, sum > 0xFF, overflow, r);
    }
}

impl System {
    /// The logical instructions `$01`, `$21` and `$41` and the like: or, and,
    /// exclusive or, into A.
    #[verifier::spinoff_prover]
    pub proof fn lemma_logic(self, opcode: u8)
        requires
            opcode % 4 == 1,
            opcode / 32 <= 2,
        ensures
            ({
                let c = self.executed(opcode).cpu;
                let a = self.cpu.a;
                let m = self.operand(opcode);
                &&& c == (Cpu6502 { a: c.a, p: c.p, pc: c.pc, ..self.cpu })
                &&& opcode / 32 == 0 ==> c.a == a | m
                &&& opcode / 32 == 1 ==> c.a == a & m
                &&& opcode / 32 == 2 ==> c.a == a ^ m
                &&& tells(c.p, c.a)
                &&& c.p & 0x7D == self.cpu.p & 0x7D
            }),
    {
        crate::opcode_laws::lemma_column_01(opcode);
        self.lemma_regular_read(opcode);
        reveal(Cpu6502::after_reading);
        let m = self.operand(opcode);
        lemma_zn(self.cpu.p, false, false, self.cpu.a | m);
        lemma_zn(self.cpu.p, false, false, self.cpu.a & m);
        lemma_zn(self.cpu.p, false, false, self.cpu.a ^ m);
    }

    /// Whether the flags tell how a register compares with `m`: carry if it is
    /// not below, Z if it is equal, N by the sign of the difference.
    pub open spec fn compares(self, c: Cpu6502, reg: u8, m: u8) -> bool {
        &&& c == (Cpu6502 { p: c.p, pc: c.pc, ..self.cpu })
        &&& (c.p & 0x01 != 0 <==> reg >= m)
        &&& (c.p & 0x02 != 0 <==> reg == m)
        &&& (c.p & 0x80 != 0 <==> (reg - m) % 0x100 >= 0x80)
        &&& c.p & 0x7C == self.cpu.p & 0x7C
    }

    /// The comparison of A (`$C1` and the like).
    #[verifier::spinoff_prover]
    pub proof fn lemma_compare_a(self, opcode: u8)
        requires
            opcode % 4 == 1,
            opcode / 32 == 6,
        ensures
            self.compares(self.executed(opcode).cpu, self.cpu.a, self.operand(opcode)),
    {
        crate::opcode_laws::lemma_column_01(opcode);
        self.lemma_regular_read(opcode);
        reveal(Cpu6502::after_reading);
        let m = self.operand(opcode);
        lemma_zn(self.cpu.p, self.cpu.a >= m, false, ((self.cpu.a - m) % 256) as u8);
    }

    /// The comparisons of X (`$E0`, `$E4`, `$EC`) and Y (`$C0`, `$C4`, `$CC`).
    #[verifier::spinoff_prover]
    pub proof fn lemma_compare_index(self, opcode: u8)
        requires
            opcode == 0xE0 || opcode == 0xE4 || opcode == 0xEC || opcode == 0xC0 || opcode == 0xC4
                || opcode == 0xCC,
        ensures
            self.compares(
                self.executed(opcode).cpu,
                if opcode >= 0xE0 { self.cpu.x } else { self.cpu.y },
                self.operand(opcode),
            ),
    {
        crate::opcode_laws::lemma_opcodes_of_y();
        self.lemma_read(opcode);
        self.lemma_operand_bytes(crate::opcodes::mode_of(opcode));
        reveal(Cpu6502::after_reading);
        let m = self.operand(opcode);
        let reg = if opcode >= 0xE0 { self.cpu.x } else { self.cpu.y };
        lemma_zn(self.cpu.p, reg >= m, false, ((reg - m) % 256) as u8);
    }

    /// The loads of X (`$A2`, `$A6`, `$AE`, `$B6`, `$BE`) and Y (`$A0`, `$A4`,
    /// `$AC`, `$B4`, `$BC`).
    #[verifier::spinoff_prover]
    pub proof fn lemma_load_index(self, opcode: u8)
        ensures
            ({
                let c = self.executed(opcode).cpu;
                let m = self.operand(opcode);
                &&& opcode == 0xA2 || opcode == 0xA6 || opcode == 0xAE || opcode == 0xB6 || opcode
                    == 0xBE ==> c == (Cpu6502 { x: m, p: c.p, pc: c.pc, ..self.cpu }) && tells(
                    c.p,
                    m,
                ) && c.p & 0x7D == self.cpu.p & 0x7D
                &&& opcode == 0xA0 || opcode == 0xA4 || opcode == 0xAC || opcode == 0xB4 || opcode
                    == 0xBC ==> c == (Cpu6502 { y: m, p: c.p, pc: c.pc, ..self.cpu }) && tells(
                    c.p,
                    m,
                ) && c.p & 0x7D == self.cpu.p & 0x7D
            }),
    {
        crate::opcode_laws::lemma_opcodes_of_y();
        reveal(Cpu6502::after_reading);
        lemma_zn(self.cpu.p, false, false, self.operand(opcode));
        if opcode == 0xA6 || opcode == 0xAE || opcode == 0xB6 || opcode == 0xBE {
            crate::opcode_laws::lemma_column_10(opcode);
            self.lemma_read(opcode);
            self.lemma_operand_bytes(crate::opcodes::mode_of(opcode));
        } else if opcode == 0xA2 || opcode == 0xA0 || opcode == 0xA4 || opcode == 0xAC || opcode
            == 0xB4 || opcode == 0xBC {
            self.lemma_read(opcode);
            self.lemma_operand_bytes(crate::opcodes::mode_of(opcode));
        }
    }

    /// The bit test (`$24`, `$2C`): Z says whether A and the operand have no
    /// bit in common, N and V are the top two bits of the operand.
    #[verifier::spinoff_prover]
    pub proof fn lemma_bit(self, opcode: u8)
        requires
            opcode == 0x24 || opcode == 0x2C,
        ensures
            ({
                let c = self.executed(opcode).cpu;
                let m = self.operand(opcode);
                &&& c == (Cpu6502 { p: c.p, pc: c.pc, ..self.cpu })
                &&& (c.p & 0x02 != 0 <==> self.cpu.a & m == 0)
                &&& (c.p & 0x80 != 0 <==> m >= 0x80)
                &&& (c.p & 0x40 != 0 <==> m / 0x40 % 2 == 1)
                &&& c.p & 0x3D == self.cpu.p & 0x3D
            }),
    {
        crate::opcode_laws::lemma_opcodes_of_y();
        self.lemma_read(opcode);
        self.lemma_operand_bytes(crate::opcodes::mode_of(opcode));
        reveal(Cpu6502::after_reading);
        let m = self.operand(opcode);
        crate::bits::lemma_byte_bits(m);
        lemma_bit_test(self.cpu.p, self.cpu.a & m == 0, m & 0x80 != 0, m & 0x40 != 0);
    }

    #[verifier::spinoff_prover]
    pub(crate) proof fn lemma_store(self, opcode: u8)
        requires
            crate::opcodes::kind_of(opcode) is Store,
        ensures
            ({
                let at = self.located(crate::opcodes::mode_of(opcode));
                let op = crate::opcodes::op_of(opcode);
                &&& self.executed(opcode).cpu == at.sys.cpu.after_storing(op)
                &&& self.executed(opcode).bus == at.sys.bus.written(
                    at.addr,
                    at.sys.cpu.stored(op, at.base),
                )
            }),
    {
        reveal(System::executed);
        reveal(System::store_done);
    }

    /// Whether an instruction writes `v` where its operand is, and changes no
    /// register but the program counter.
    pub open spec fn stores(self, opcode: u8, v: u8) -> bool {
        let at = self.located(crate::opcodes::mode_of(opcode));
        let c = self.executed(opcode).cpu;
        &&& c == (Cpu6502 { pc: c.pc, ..self.cpu })
        &&& self.executed(opcode).bus == at.sys.bus.written(at.addr, v)
    }

    /// The stores of A (`$81` and the like), X (`$86`, `$8E`, `$96`) and Y
    /// (`$84`, `$8C`, `$94`), and of what A and X have in common (`$83`, `$87`,
    /// `$8F`, `$97`).
    #[verifier::spinoff_prover]
    pub proof fn lemma_stores(self, opcode: u8)
        ensures
            opcode % 4 == 1 && opcode / 32 == 4 && opcode != 0x89 ==> self.stores(
                opcode,
                self.cpu.a,
            ),
            opcode == 0x86 || opcode == 0x8E || opcode == 0x96 ==> self.stores(opcode, self.cpu.x),
            opcode == 0x84 || opcode == 0x8C || opcode == 0x94 ==> self.stores(opcode, self.cpu.y),
            opcode == 0x83 || opcode == 0x87 || opcode == 0x8F || opcode == 0x97 ==> self.stores(
                opcode,
                self.cpu.a & self.cpu.x,
            ),
    {
        crate::opcode_laws::lemma_opcodes_of_y();
        reveal(Cpu6502::stored);
        reveal(Cpu6502::after_storing);
        if opcode % 4 == 1 && opcode / 32 == 4 && opcode != 0x89 {
            crate::opcode_laws::lemma_column_01(opcode);
            self.lemma_store(opcode);
            self.lemma_operand_bytes(crate::opcodes::mode_of(opcode));
        } else if opcode == 0x86 || opcode == 0x8E || opcode == 0x96 {
            crate::opcode_laws::lemma_column_10(opcode);
            self.lemma_store(opcode);
            self.lemma_operand_bytes(crate::opcodes::mode_of(opcode));
        } else if opcode == 0x83 || opcode == 0x87 || opcode == 0x8F || opcode == 0x97 {
            crate::opcode_laws::lemma_column_11(opcode);
            self.lemma_store(opcode);
            self.lemma_operand_bytes(crate::opcodes::mode_of(opcode));
        } else if opcode == 0x84 || opcode == 0x8C || opcode == 0x94 {
            self.lemma_store(opcode);
            self.lemma_operand_bytes(crate::opcodes::mode_of(opcode));
        }
    }

    #[verifier::spinoff_prover]
    pub(crate) proof fn lemma_modify(self, opcode: u8)
        requires
            crate::opcodes::kind_of(opcode) is Modify,
        ensures
            ({
                let at = self.located(crate::opcodes::mode_of(opcode));
                let (v, cpu) = at.sys.cpu.after_modifying(
                    crate::opcodes::op_of(opcode),
                    self.operand(opcode),
                );
                &&& self.executed(opcode).cpu == cpu
                &&& self.executed(opcode).bus == at.sys.bus.after_read(at.addr).written(at.addr, v)
            }),
    {
        reveal(System::executed);
        reveal(System::modify_done);
    }

    /// The byte that an instruction leaves where its operand was.
    pub open spec fn leaves(self, opcode: u8, v: u8) -> bool {
        let at = self.located(crate::opcodes::mode_of(opcode));
        self.executed(opcode).bus == at.sys.bus.after_read(at.addr).written(at.addr, v)
    }

    /// Shifts, rotations and counts in memory.
    #[verifier::spinoff_prover]
    pub proof fn lemma_changes_in_memory(self, opcode: u8)
        requires
            opcode % 4 == 2,
            opcode / 4 % 2 == 1,
            opcode / 32 != 4 && opcode / 32 != 5,
        ensures
            exists|v: u8| #[trigger]
                self.leaves(opcode, v) && changed(
                    opcode as int / 32,
                    self.cpu.p,
                    self.executed(opcode).cpu.p,
                    self.operand(opcode),
                    v,
                ),
            ({
                let c = self.executed(opcode).cpu;
                c == (Cpu6502 { p: c.p, pc: c.pc, ..self.cpu })
            }),
    {
        crate::opcode_laws::lemma_column_10(opcode);
        self.lemma_modify(opcode);
        self.lemma_operand_bytes(crate::opcodes::mode_of(opcode));
        let m = self.operand(opcode);
        let at = self.located(crate::opcodes::mode_of(opcode));
        let (v, cpu) = at.sys.cpu.after_modifying(crate::opcodes::op_of(opcode), m);
        at.sys.cpu.lemma_modified(crate::opcodes::op_of(opcode), m);
        assert(self.leaves(opcode, v));
    }

    /// The same on A: `$0A`, `$2A`, `$4A` and `$6A`.
    #[verifier::spinoff_prover]
    pub proof fn lemma_changes_of_a(self, opcode: u8)
        requires
            opcode == 0x0A || opcode == 0x2A || opcode == 0x4A || opcode == 0x6A,
        ensures
            ({
                let c = self.executed(opcode).cpu;
                &&& c == (Cpu6502 { a: c.a, p: c.p, ..self.cpu })
                &&& changed(opcode as int / 32, self.cpu.p, c.p, self.cpu.a, c.a)
                &&& self.executed(opcode).bus == self.bus
            }),
    {
        crate::opcode_laws::lemma_opcodes_of_one_byte();
        reveal(System::executed);
        reveal(System::accumulator_done);
        self.cpu.lemma_modified(crate::opcodes::op_of(opcode), self.cpu.a);
    }
}

pub(crate) proof fn lemma_carry_kept(p: u8, v: u8)
    by (bit_vector)
    ensures
        (crate::cpu::with_zn(p, v) & 0x01 != 0) == (p & 0x01 != 0),
        crate::cpu::with_zn(p, v) & 0x7C == p & 0x7C,
{
}

impl Cpu6502 {
    #[verifier::spinoff_prover]
    pub(crate) proof fn lemma_shifted(self, m: u8, carry_in: bool)
        ensures
            ({
                let (v, c) = self.shifted_left(m, carry_in);
                &&& c == (Cpu6502 { p: c.p, ..self })
                &&& v + 0x100 * carry_of(c.p) == 2 * m + (if carry_in { 1int } else { 0 })
                &&& tells(c.p, v)
                &&& c.p & 0x7C == self.p & 0x7C
            }),
            ({
                let (v, c) = self.shifted_right(m, carry_in);
                &&& c == (Cpu6502 { p: c.p, ..self })
                &&& 2 * v + carry_of(c.p) == m + (if carry_in { 0x100int } else { 0 })
                &&& tells(c.p, v)
                &&& c.p & 0x7C == self.p & 0x7C
            }),
    {
        lemma_shifts(m);
        lemma_zn(self.p, m & 0x80 != 0, false, self.shifted_left(m, carry_in).0);
        lemma_zn(self.p, m & 0x01 != 0, false, self.shifted_right(m, carry_in).0);
    }

    #[verifier::spinoff_prover]
    proof fn lemma_modified(self, op: Op, m: u8)
        ensures
            ({
                let (v, c) = self.after_modifying(op, m);
                let documented = op is Asl || op is Rol || op is Lsr || op is Ror || op is Dec
                    || op is Inc;
                &&& documented ==> c == (Cpu6502 { p: c.p, ..self })
                &&& op is Asl ==> changed(0, self.p, c.p, m, v)
                &&& op is Rol ==> changed(1, self.p, c.p, m, v)
                &&& op is Lsr ==> changed(2, self.p, c.p, m, v)
                &&& op is Ror ==> changed(3, self.p, c.p, m, v)
                &&& op is Dec ==> changed(6, self.p, c.p, m, v)
                &&& op is Inc ==> changed(7, self.p, c.p, m, v)
            }),
    {
        reveal(Cpu6502::after_modifying);
        self.lemma_shifted(m, false);
        self.lemma_shifted(m, true);
        let up = ((m + 1) % 256) as u8;
        let down = ((m - 1) % 256) as u8;
        lemma_zn(self.p, false, false, up);
        lemma_zn(self.p, false, false, down);
        lemma_carry_kept(self.p, up);
        lemma_carry_kept(self.p, down);
    }
}

} // verus!
