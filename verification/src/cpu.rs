//! The 6502 core, as the 2A03 has it: no decimal mode, all 256 opcodes.
//!
//! An instruction changes the registers and the bus at once; the time that it
//! takes passes afterwards, along the pattern of its read and write cycles, so
//! that DMAs halt the CPU where they would.
//!
//! Where the outcome of an undocumented opcode varies from chip to chip, the
//! bits that vary read as ones.
use vstd::prelude::*;
use crate::bus::BusView;
use crate::opcodes::{kind, operation, Kind, Op};

verus! {

/// Write cycles of an interrupt: the three pushes.
pub const INTERRUPT_WRITE_MASK: u32 = 0b001_1100;

pub const FLAG_C: u8 = 0x01;
pub const FLAG_Z: u8 = 0x02;
pub const FLAG_I: u8 = 0x04;
pub const FLAG_D: u8 = 0x08;
pub const FLAG_B: u8 = 0x10;
pub const FLAG_U: u8 = 0x20;
pub const FLAG_V: u8 = 0x40;
pub const FLAG_N: u8 = 0x80;

#[derive(Clone, Copy, Debug, PartialEq, Eq, Structural)]
pub struct Cpu6502 {
    pub a: u8,
    pub x: u8,
    pub y: u8,
    pub sp: u8,
    pub pc: u16,
    pub p: u8,
    /// An opcode that jams the CPU has been met.
    pub halted: bool,
}

/// The CPU and the bus that it works on.
pub struct System {
    pub cpu: Cpu6502,
    pub bus: BusView,
}

/// Where an operand is: the address before and after indexing, and the state
/// once it has been worked out.
pub struct Located {
    pub base: u16,
    pub addr: u16,
    pub sys: System,
}

/// The write cycles of an opcode that takes `cycles` cycles, as a bit mask. A
/// store or a push writes in its last cycle; a read-modify-write instruction
/// writes in its last two, first the value that it read.
pub open spec fn writes_of(opcode: u8, cycles: u32) -> u32 {
    let kind = crate::opcodes::kind_of(opcode);
    let op = crate::opcodes::op_of(opcode);
    if op == Op::Brk {
        0b001_1100
    } else if op == Op::Jsr {
        0b001_1000
    } else if kind == Kind::Store || op == Op::Pha || op == Op::Php {
        1u32 << ((cycles - 1) as u32)
    } else if kind == Kind::Modify {
        0b11u32 << ((cycles - 2) as u32)
    } else {
        0
    }
}

/// Write cycles of an opcode that takes `cycles` cycles, as a bit mask.
pub fn write_cycle_mask(opcode: u8, cycles: u32) -> (r: u32)
    requires
        crate::opcodes::kind_of(opcode) == Kind::Store || crate::opcodes::op_of(opcode) == Op::Pha
            || crate::opcodes::op_of(opcode) == Op::Php ==> 1 <= cycles <= 32,
        crate::opcodes::kind_of(opcode) == Kind::Modify ==> 2 <= cycles <= 33,
    ensures
        r == writes_of(opcode, cycles),
{
    let kind = kind(opcode);
    let op = operation(opcode);
    if op == Op::Brk {
        0b001_1100
    } else if op == Op::Jsr {
        0b001_1000
    } else if kind == Kind::Store || op == Op::Pha || op == Op::Php {
        1u32 << (cycles - 1)
    } else if kind == Kind::Modify {
        0b11u32 << (cycles - 2)
    } else {
        0
    }
}

/// A word from its two bytes.
#[verifier::opaque]
pub open spec fn word(lo: u8, hi: u8) -> u16 {
    (256 * hi + lo) as u16
}

/// Flags with those under `mask` switched.
pub open spec fn with_flag(p: u8, mask: u8, on: bool) -> u8 {
    if on { p | mask } else { p & !mask }
}

/// Flags with Z and N set by a value.
pub open spec fn with_zn(p: u8, value: u8) -> u8 {
    let q = p & !(FLAG_Z | FLAG_N);
    let r = if value == 0 { q | FLAG_Z } else { q };
    if value & 0x80 != 0 { r | FLAG_N } else { r }
}

/// Whether two addresses lie in different pages.
#[verifier::opaque]
pub open spec fn crosses(base: u16, addr: u16) -> bool {
    base / 256 != addr / 256
}

/// The word before; it wraps.
#[verifier::opaque]
pub open spec fn minus_one(a: u16) -> u16 {
    ((a - 1) % 0x1_0000) as u16
}

/// The address after another within its page.
#[verifier::opaque]
pub open spec fn after_in_page(a: u16) -> u16 {
    (if a % 256 == 255 { a - 255 } else { a + 1 }) as u16
}

/// An address moved by a signed byte; it wraps.
#[verifier::opaque]
pub open spec fn moved(a: u16, by: u8) -> u16 {
    ((a + signed(by)) % 0x1_0000) as u16
}

/// The word before; it wraps.
pub fn previous(a: u16) -> (r: u16)
    ensures
        r == minus_one(a),
{
    reveal(minus_one);
    a.wrapping_sub(1)
}

/// The address after another within its page.
pub fn next_in_page(a: u16) -> (r: u16)
    ensures
        r == after_in_page(a),
{
    reveal(after_in_page);
    if a % 256 == 255 {
        a - 255
    } else {
        a + 1
    }
}

/// An address moved by a signed byte; it wraps.
pub fn move_by(a: u16, by: u8) -> (r: u16)
    ensures
        r == moved(a, by),
{
    reveal(moved);
    if by < 128 {
        a.wrapping_add(by as u16)
    } else {
        a.wrapping_sub(256 - by as u16)
    }
}

/// Whether two addresses lie in different pages.
pub fn page_crossed(base: u16, addr: u16) -> (r: bool)
    ensures
        r == crosses(base, addr),
{
    reveal(crosses);
    base / 256 != addr / 256
}

/// A byte in two's complement.
pub open spec fn signed(b: u8) -> int {
    if b < 128 { b as int } else { b - 256 }
}

/// Subtraction of one from a byte; it wraps.
#[verifier::opaque]
pub open spec fn minus_one8(a: u8) -> u8 {
    ((a - 1) % 256) as u8
}

/// Where the stack pointer points.
#[verifier::opaque]
pub open spec fn stack_at(sp: u8) -> u16 {
    (0x0100 + sp) as u16
}

/// High byte of a word.
#[verifier::opaque]
pub open spec fn high(w: u16) -> u8 {
    (w / 256) as u8
}

/// Low byte of a word.
#[verifier::opaque]
pub open spec fn low(w: u16) -> u8 {
    (w % 256) as u8
}

/// Subtraction of one from a byte; it wraps.
pub fn decremented(a: u8) -> (r: u8)
    ensures
        r == minus_one8(a),
{
    reveal(minus_one8);
    a.wrapping_sub(1)
}

/// Where the stack pointer points.
pub fn stack_addr(sp: u8) -> (r: u16)
    ensures
        r == stack_at(sp),
{
    reveal(stack_at);
    0x0100 + sp as u16
}

/// High byte of a word.
pub fn high_byte(w: u16) -> (r: u8)
    ensures
        r == high(w),
{
    reveal(high);
    (w / 256) as u8
}

/// Low byte of a word.
pub fn low_byte(w: u16) -> (r: u8)
    ensures
        r == low(w),
{
    reveal(low);
    (w % 256) as u8
}

/// Addition of bytes; it wraps.
#[verifier::opaque]
pub open spec fn plus8(a: u8, b: u8) -> u8 {
    ((a + b) % 256) as u8
}

/// Addition of a byte to a word; it wraps.
#[verifier::opaque]
pub open spec fn plus16(a: u16, b: u8) -> u16 {
    ((a + b) % 0x1_0000) as u16
}

/// Addition of bytes; it wraps.
pub fn add8(a: u8, b: u8) -> (r: u8)
    ensures
        r == plus8(a, b),
{
    reveal(plus8);
    a.wrapping_add(b)
}

/// Addition of a byte to a word; it wraps.
pub fn add16(a: u16, b: u8) -> (r: u16)
    ensures
        r == plus16(a, b),
{
    reveal(plus16);
    a.wrapping_add(b as u16)
}

/// A word from its two bytes.
pub fn make_word(lo: u8, hi: u8) -> (r: u16)
    ensures
        r == word(lo, hi),
{
    reveal(word);
    256 * hi as u16 + lo as u16
}

impl Cpu6502 {
    pub open spec fn power_on() -> Self {
        Cpu6502 { a: 0, x: 0, y: 0, sp: 0xFD, pc: 0, p: FLAG_I | FLAG_U, halted: false }
    }

    pub open spec fn zn_set(self, value: u8) -> Self {
        Cpu6502 { p: with_zn(self.p, value), ..self }
    }

    /// Binary addition with carry.
    pub open spec fn added(self, m: u8) -> Self {
        let c: int = if self.p & FLAG_C != 0 { 1 } else { 0 };
        let sum = self.a + m + c;
        let r = (sum % 256) as u8;
        let overflow = (self.a ^ r) & (m ^ r) & 0x80 != 0;
        let p = with_flag(with_flag(self.p, FLAG_C, sum > 0xFF), FLAG_V, overflow);
        Cpu6502 { a: r, p: with_zn(p, r), ..self }
    }

    pub open spec fn compared(self, reg: u8, m: u8) -> Self {
        Cpu6502 {
            p: with_zn(
                with_flag(self.p, FLAG_C, reg >= m),
                ((reg - m) % 256) as u8,
            ),
            ..self
        }
    }

    pub open spec fn bits_tested(self, m: u8) -> Self {
        Cpu6502 {
            p: with_flag(
                with_flag(
                    with_flag(self.p, FLAG_Z, self.a & m == 0),
                    FLAG_N,
                    m & 0x80 != 0,
                ),
                FLAG_V,
                m & 0x40 != 0,
            ),
            ..self
        }
    }

    /// A in place of the rest of the flags and registers.
    pub open spec fn with_a(self, v: u8) -> Self {
        Cpu6502 { a: v, p: with_zn(self.p, v), ..self }
    }

    pub open spec fn with_x(self, v: u8) -> Self {
        Cpu6502 { x: v, p: with_zn(self.p, v), ..self }
    }

    pub open spec fn with_y(self, v: u8) -> Self {
        Cpu6502 { y: v, p: with_zn(self.p, v), ..self }
    }

    /// A shift or rotation to the left: the value, and the flags.
    pub open spec fn shifted_left(self, m: u8, carry_in: bool) -> (u8, Self) {
        let v = (m << 1) | (if carry_in { 0x01u8 } else { 0u8 });
        (
            v,
            Cpu6502 {
                p: with_zn(with_flag(self.p, FLAG_C, m & 0x80 != 0), v),
                ..self
            },
        )
    }

    /// A shift or rotation to the right: the value, and the flags.
    pub open spec fn shifted_right(self, m: u8, carry_in: bool) -> (u8, Self) {
        let v = (m >> 1) | (if carry_in { 0x80u8 } else { 0u8 });
        (
            v,
            Cpu6502 {
                p: with_zn(with_flag(self.p, FLAG_C, m & 0x01 != 0), v),
                ..self
            },
        )
    }

    pub open spec fn carry(self) -> bool {
        self.p & FLAG_C != 0
    }

    /// Registers after an operation that reads `m`.
    #[verifier::opaque]
    pub open spec fn after_reading(self, op: Op, m: u8) -> Self {
        match op {
            Op::Lda => self.with_a(m),
            Op::Ldx => self.with_x(m),
            Op::Ldy => self.with_y(m),
            Op::And => self.with_a(self.a & m),
            Op::Ora => self.with_a(self.a | m),
            Op::Eor => self.with_a(self.a ^ m),
            Op::Adc => self.added(m),
            Op::Sbc => self.added(!m),
            Op::Cpa => self.compared(self.a, m),
            Op::Cpx => self.compared(self.x, m),
            Op::Cpy => self.compared(self.y, m),
            Op::Bit => self.bits_tested(m),
            Op::Lax => Cpu6502 { x: m, ..self.with_a(m) },
            Op::Anc => {
                let s = self.with_a(self.a & m);
                Cpu6502 { p: with_flag(s.p, FLAG_C, s.a & 0x80 != 0), ..s }
            },
            Op::Alr => {
                let (v, s) = self.shifted_right(self.a & m, false);
                Cpu6502 { a: v, ..s }
            },
            Op::Arr => {
                let (v, _) = self.shifted_right(self.a & m, self.carry());
                let p = with_flag(with_zn(self.p, v), FLAG_C, v & 0x40 != 0);
                Cpu6502 {
                    a: v,
                    p: with_flag(p, FLAG_V, ((v >> 6) ^ (v >> 5)) & 0x01 != 0),
                    ..self
                }
            },
            Op::Sbx => Cpu6502 {
                x: (((self.a & self.x) - m) % 256) as u8,
                ..self.compared(self.a & self.x, m)
            },
            Op::Lxa => Cpu6502 { x: m, ..self.with_a(m) },
            Op::Ane => self.with_a(self.x & m),
            Op::Las => {
                let v = m & self.sp;
                Cpu6502 { x: v, sp: v, ..self.with_a(v) }
            },
            _ => self,
        }
    }

    /// What an operation makes of the byte `m` that it changes, and the
    /// registers after it.
    #[verifier::opaque]
    pub open spec fn after_modifying(self, op: Op, m: u8) -> (u8, Self) {
        match op {
            Op::Asl => self.shifted_left(m, false),
            Op::Lsr => self.shifted_right(m, false),
            Op::Rol => self.shifted_left(m, self.carry()),
            Op::Ror => self.shifted_right(m, self.carry()),
            Op::Inc => {
                let v = ((m + 1) % 256) as u8;
                (v, self.zn_set(v))
            },
            Op::Dec => {
                let v = ((m - 1) % 256) as u8;
                (v, self.zn_set(v))
            },
            Op::Slo => {
                let (v, s) = self.shifted_left(m, false);
                (v, s.with_a(s.a | v))
            },
            Op::Rla => {
                let (v, s) = self.shifted_left(m, self.carry());
                (v, s.with_a(s.a & v))
            },
            Op::Sre => {
                let (v, s) = self.shifted_right(m, false);
                (v, s.with_a(s.a ^ v))
            },
            Op::Rra => {
                let (v, s) = self.shifted_right(m, self.carry());
                (v, s.added(v))
            },
            Op::Dcp => {
                let v = ((m - 1) % 256) as u8;
                (v, self.compared(self.a, v))
            },
            Op::Isb => {
                let v = ((m + 1) % 256) as u8;
                (v, self.added(!v))
            },
            _ => (m, self),
        }
    }

    /// The byte that a store writes. Some undocumented ones mask it with the
    /// page after the one that the operand names.
    #[verifier::opaque]
    pub open spec fn stored(self, op: Op, base: u16) -> u8 {
        let page = ((base / 256 + 1) % 256) as u8;
        match op {
            Op::Sta => self.a,
            Op::Stx => self.x,
            Op::Sty => self.y,
            Op::Sax => self.a & self.x,
            Op::Sha => self.a & self.x & page,
            Op::Shx => self.x & page,
            Op::Shy => self.y & page,
            Op::Tas => self.a & self.x & page,
            _ => 0,
        }
    }

    /// Registers after a store.
    #[verifier::opaque]
    pub open spec fn after_storing(self, op: Op) -> Self {
        if op == Op::Tas { Cpu6502 { sp: self.a & self.x, ..self } } else { self }
    }

    /// Registers after an operation on registers and flags.
    #[verifier::opaque]
    pub open spec fn after_register_op(self, op: Op) -> Self {
        match op {
            Op::Tax => self.with_x(self.a),
            Op::Tay => self.with_y(self.a),
            Op::Txa => self.with_a(self.x),
            Op::Tya => self.with_a(self.y),
            Op::Tsx => self.with_x(self.sp),
            Op::Txs => Cpu6502 { sp: self.x, ..self },
            Op::Inx => self.with_x(((self.x + 1) % 256) as u8),
            Op::Iny => self.with_y(((self.y + 1) % 256) as u8),
            Op::Dex => self.with_x(((self.x - 1) % 256) as u8),
            Op::Dey => self.with_y(((self.y - 1) % 256) as u8),
            Op::Clc => Cpu6502 { p: with_flag(self.p, FLAG_C, false), ..self },
            Op::Sec => Cpu6502 { p: with_flag(self.p, FLAG_C, true), ..self },
            Op::Cli => Cpu6502 { p: with_flag(self.p, FLAG_I, false), ..self },
            Op::Sei => Cpu6502 { p: with_flag(self.p, FLAG_I, true), ..self },
            Op::Clv => Cpu6502 { p: with_flag(self.p, FLAG_V, false), ..self },
            Op::Cld => Cpu6502 { p: with_flag(self.p, FLAG_D, false), ..self },
            Op::Sed => Cpu6502 { p: with_flag(self.p, FLAG_D, true), ..self },
            Op::Kil => Cpu6502 { halted: true, ..self },
            _ => self,
        }
    }

    /// Whether a branch is taken.
    #[verifier::opaque]
    pub open spec fn branches(self, op: Op) -> bool {
        match op {
            Op::Bpl => self.p & FLAG_N == 0,
            Op::Bmi => self.p & FLAG_N != 0,
            Op::Bvc => self.p & FLAG_V == 0,
            Op::Bvs => self.p & FLAG_V != 0,
            Op::Bcc => self.p & FLAG_C == 0,
            Op::Bcs => self.p & FLAG_C != 0,
            Op::Bne => self.p & FLAG_Z == 0,
            Op::Beq => self.p & FLAG_Z != 0,
            _ => false,
        }
    }

    pub(crate) fn set_zn(&mut self, value: u8)
        ensures
            *final(self) == old(self).zn_set(value),
    {
        self.p = self.p & !(FLAG_Z | FLAG_N);
        if value == 0 {
            self.p = self.p | FLAG_Z;
        }
        if value & 0x80 != 0 {
            self.p = self.p | FLAG_N;
        }
    }

    pub(crate) fn set_flag(&mut self, mask: u8, on: bool)
        ensures
            *final(self) == (Cpu6502 { p: with_flag(old(self).p, mask, on), ..*old(self) }),
    {
        if on {
            self.p = self.p | mask;
        } else {
            self.p = self.p & !mask;
        }
    }

    pub(crate) fn set_a(&mut self, v: u8)
        ensures
            *final(self) == old(self).with_a(v),
    {
        self.a = v;
        self.set_zn(v);
    }

    pub(crate) fn set_x(&mut self, v: u8)
        ensures
            *final(self) == old(self).with_x(v),
    {
        self.x = v;
        self.set_zn(v);
    }

    pub(crate) fn set_y(&mut self, v: u8)
        ensures
            *final(self) == old(self).with_y(v),
    {
        self.y = v;
        self.set_zn(v);
    }

    pub(crate) fn op_adc(&mut self, m: u8)
        ensures
            *final(self) == old(self).added(m),
    {
        let c: u16 = if self.p & FLAG_C != 0 { 1 } else { 0 };
        let sum: u16 = self.a as u16 + m as u16 + c;
        let r: u8 = (sum % 256) as u8;
        let overflow = (self.a ^ r) & (m ^ r) & 0x80 != 0;
        self.a = r;
        self.set_flag(FLAG_C, sum > 0xFF);
        self.set_flag(FLAG_V, overflow);
        self.set_zn(r);
    }

    pub(crate) fn op_sbc(&mut self, m: u8)
        ensures
            *final(self) == old(self).added(!m),
    {
        self.op_adc(!m);
    }

    pub(crate) fn op_and(&mut self, m: u8)
        ensures
            *final(self) == old(self).with_a(old(self).a & m),
    {
        self.set_a(self.a & m);
    }

    pub(crate) fn op_ora(&mut self, m: u8)
        ensures
            *final(self) == old(self).with_a(old(self).a | m),
    {
        self.set_a(self.a | m);
    }

    pub(crate) fn op_eor(&mut self, m: u8)
        ensures
            *final(self) == old(self).with_a(old(self).a ^ m),
    {
        self.set_a(self.a ^ m);
    }

    /// Compare a register with a value.
    pub(crate) fn op_compare(&mut self, reg: u8, m: u8)
        ensures
            *final(self) == old(self).compared(reg, m),
    {
        let r: u8 = reg.wrapping_sub(m);
        self.set_flag(FLAG_C, reg >= m);
        self.set_zn(r);
    }

    pub(crate) fn op_bit(&mut self, m: u8)
        ensures
            *final(self) == old(self).bits_tested(m),
    {
        self.set_flag(FLAG_Z, self.a & m == 0);
        self.set_flag(FLAG_N, m & 0x80 != 0);
        self.set_flag(FLAG_V, m & 0x40 != 0);
    }

    pub(crate) fn shift_left(&mut self, m: u8, carry_in: bool) -> (v: u8)
        ensures
            (v, *final(self)) == old(self).shifted_left(m, carry_in),
    {
        let low: u8 = if carry_in { 0x01 } else { 0 };
        let v: u8 = (m << 1) | low;
        self.set_flag(FLAG_C, m & 0x80 != 0);
        self.set_zn(v);
        v
    }

    pub(crate) fn shift_right(&mut self, m: u8, carry_in: bool) -> (v: u8)
        ensures
            (v, *final(self)) == old(self).shifted_right(m, carry_in),
    {
        let high: u8 = if carry_in { 0x80 } else { 0 };
        let v: u8 = (m >> 1) | high;
        self.set_flag(FLAG_C, m & 0x01 != 0);
        self.set_zn(v);
        v
    }

    pub(crate) fn op_asl_value(&mut self, m: u8) -> (v: u8)
        ensures
            (v, *final(self)) == old(self).shifted_left(m, false),
    {
        self.shift_left(m, false)
    }

    pub(crate) fn op_lsr_value(&mut self, m: u8) -> (v: u8)
        ensures
            (v, *final(self)) == old(self).shifted_right(m, false),
    {
        self.shift_right(m, false)
    }

    pub(crate) fn op_rol_value(&mut self, m: u8) -> (v: u8)
        ensures
            (v, *final(self)) == old(self).shifted_left(m, old(self).carry()),
    {
        self.shift_left(m, self.p & FLAG_C != 0)
    }

    pub(crate) fn op_ror_value(&mut self, m: u8) -> (v: u8)
        ensures
            (v, *final(self)) == old(self).shifted_right(m, old(self).carry()),
    {
        self.shift_right(m, self.p & FLAG_C != 0)
    }

    /// Carry out an operation on the byte `m` that it reads.
    #[verifier::rlimit(60)]
    #[verifier::spinoff_prover]
    pub(crate) fn apply_read(&mut self, op: Op, m: u8)
        ensures
            *final(self) == old(self).after_reading(op, m),
    {
        reveal(Cpu6502::after_reading);
        match op {
            Op::Lda => self.set_a(m),
            Op::Ldx => self.set_x(m),
            Op::Ldy => self.set_y(m),
            Op::And => self.op_and(m),
            Op::Ora => self.op_ora(m),
            Op::Eor => self.op_eor(m),
            Op::Adc => self.op_adc(m),
            Op::Sbc => self.op_sbc(m),
            Op::Cpa => self.op_compare(self.a, m),
            Op::Cpx => self.op_compare(self.x, m),
            Op::Cpy => self.op_compare(self.y, m),
            Op::Bit => self.op_bit(m),
            Op::Lax | Op::Lxa => {
                self.set_a(m);
                self.x = m;
            },
            Op::Anc => {
                self.op_and(m);
                self.set_flag(FLAG_C, self.a & 0x80 != 0);
            },
            Op::Alr => {
                let v: u8 = self.op_lsr_value(self.a & m);
                self.a = v;
            },
            Op::Arr => self.op_arr(m),
            Op::Sbx => {
                let lhs: u8 = self.a & self.x;
                self.op_compare(lhs, m);
                self.x = lhs.wrapping_sub(m);
            },
            Op::Ane => self.set_a(self.x & m),
            Op::Las => {
                let v: u8 = m & self.sp;
                self.set_a(v);
                self.x = v;
                self.sp = v;
            },
            _ => {},
        }
    }

    pub(crate) fn op_arr(&mut self, m: u8)
        ensures
            *final(self) == old(self).after_reading(Op::Arr, m),
    {
        reveal(Cpu6502::after_reading);
        let high: u8 = if self.p & FLAG_C != 0 { 0x80 } else { 0 };
        let v: u8 = ((self.a & m) >> 1) | high;
        self.a = v;
        self.set_zn(v);
        self.set_flag(FLAG_C, v & 0x40 != 0);
        self.set_flag(FLAG_V, ((v >> 6) ^ (v >> 5)) & 0x01 != 0);
    }

    /// Carry out an operation on the byte `m` that it changes.
    #[verifier::rlimit(60)]
    #[verifier::spinoff_prover]
    pub(crate) fn apply_modify(&mut self, op: Op, m: u8) -> (v: u8)
        ensures
            (v, *final(self)) == old(self).after_modifying(op, m),
    {
        reveal(Cpu6502::after_modifying);
        match op {
            Op::Asl => self.op_asl_value(m),
            Op::Lsr => self.op_lsr_value(m),
            Op::Rol => self.op_rol_value(m),
            Op::Ror => self.op_ror_value(m),
            Op::Inc => {
                let v: u8 = m.wrapping_add(1);
                self.set_zn(v);
                v
            },
            Op::Dec => {
                let v: u8 = m.wrapping_sub(1);
                self.set_zn(v);
                v
            },
            Op::Slo => {
                let v: u8 = self.op_asl_value(m);
                self.op_ora(v);
                v
            },
            Op::Rla => {
                let v: u8 = self.op_rol_value(m);
                self.op_and(v);
                v
            },
            Op::Sre => {
                let v: u8 = self.op_lsr_value(m);
                self.op_eor(v);
                v
            },
            Op::Rra => {
                let v: u8 = self.op_ror_value(m);
                self.op_adc(v);
                v
            },
            Op::Dcp => {
                let v: u8 = m.wrapping_sub(1);
                self.op_compare(self.a, v);
                v
            },
            Op::Isb => {
                let v: u8 = m.wrapping_add(1);
                self.op_sbc(v);
                v
            },
            _ => m,
        }
    }

    /// Carry out a store: returns the byte to write.
    pub(crate) fn apply_store(&mut self, op: Op, base: u16) -> (v: u8)
        ensures
            v == old(self).stored(op, base),
            *final(self) == old(self).after_storing(op),
    {
        reveal(Cpu6502::stored);
        reveal(Cpu6502::after_storing);
        let page: u8 = ((base / 256 + 1) % 256) as u8;
        match op {
            Op::Sta => self.a,
            Op::Stx => self.x,
            Op::Sty => self.y,
            Op::Sax => self.a & self.x,
            Op::Sha => self.a & self.x & page,
            Op::Shx => self.x & page,
            Op::Shy => self.y & page,
            Op::Tas => {
                self.sp = self.a & self.x;
                self.sp & page
            },
            _ => 0,
        }
    }

    /// Carry out an operation on registers and flags.
    #[verifier::rlimit(60)]
    #[verifier::spinoff_prover]
    pub(crate) fn apply_register(&mut self, op: Op)
        ensures
            *final(self) == old(self).after_register_op(op),
    {
        reveal(Cpu6502::after_register_op);
        match op {
            Op::Tax => self.set_x(self.a),
            Op::Tay => self.set_y(self.a),
            Op::Txa => self.set_a(self.x),
            Op::Tya => self.set_a(self.y),
            Op::Tsx => self.set_x(self.sp),
            Op::Txs => {
                self.sp = self.x;
            },
            Op::Inx => self.set_x(self.x.wrapping_add(1)),
            Op::Iny => self.set_y(self.y.wrapping_add(1)),
            Op::Dex => self.set_x(self.x.wrapping_sub(1)),
            Op::Dey => self.set_y(self.y.wrapping_sub(1)),
            Op::Clc => self.set_flag(FLAG_C, false),
            Op::Sec => self.set_flag(FLAG_C, true),
            Op::Cli => self.set_flag(FLAG_I, false),
            Op::Sei => self.set_flag(FLAG_I, true),
            Op::Clv => self.set_flag(FLAG_V, false),
            Op::Cld => self.set_flag(FLAG_D, false),
            Op::Sed => self.set_flag(FLAG_D, true),
            Op::Kil => {
                self.halted = true;
            },
            _ => {},
        }
    }

    /// Whether a branch is taken.
    pub(crate) fn takes_branch(&self, op: Op) -> (r: bool)
        ensures
            r == self.branches(op),
    {
        reveal(Cpu6502::branches);
        match op {
            Op::Bpl => self.p & FLAG_N == 0,
            Op::Bmi => self.p & FLAG_N != 0,
            Op::Bvc => self.p & FLAG_V == 0,
            Op::Bvs => self.p & FLAG_V != 0,
            Op::Bcc => self.p & FLAG_C == 0,
            Op::Bcs => self.p & FLAG_C != 0,
            Op::Bne => self.p & FLAG_Z == 0,
            Op::Beq => self.p & FLAG_Z != 0,
            _ => false,
        }
    }

    pub fn new() -> (r: Self)
        ensures
            r == Self::power_on(),
    {
        Cpu6502 { a: 0, x: 0, y: 0, sp: 0xFD, pc: 0, p: FLAG_I | FLAG_U, halted: false }
    }
}

impl Default for Cpu6502 {
    fn default() -> (r: Self)
        ensures
            r == Cpu6502::power_on(),
    {
        Self::new()
    }
}

} // verus!
