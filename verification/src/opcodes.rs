//! What each of the 256 opcodes does: the kind of instruction, the operation,
//! how the operand is found, and how many cycles it takes.
use vstd::prelude::*;

verus! {

/// What an instruction does with the bus.
#[derive(Clone, Copy, Debug, PartialEq, Eq, Structural)]
pub enum Kind {
    /// Reads its operand.
    Read,
    /// Writes its operand.
    Store,
    /// Reads its operand and writes it back changed.
    Modify,
    /// Changes A as [`Kind::Modify`] changes memory.
    Accumulator,
    /// Changes registers or flags only.
    Register,
    /// Pushes or pops a byte.
    Stack,
    /// Goes elsewhere if a flag says so.
    Branch,
    /// Goes elsewhere.
    Jump,
    /// Passes over its operand.
    Skip,
}

/// How an operand is found.
#[derive(Clone, Copy, Debug, PartialEq, Eq, Structural)]
pub enum Mode {
    Implied,
    Immediate,
    ZeroPage,
    ZeroPageX,
    ZeroPageY,
    Absolute,
    AbsoluteX,
    AbsoluteY,
    IndirectX,
    IndirectY,
    /// A pointer to the target of a jump.
    Indirect,
    Relative,
}

/// Operation of an instruction.
#[derive(Clone, Copy, Debug, PartialEq, Eq, Structural)]
pub enum Op {
    Lda,
    Ldx,
    Ldy,
    And,
    Ora,
    Eor,
    Adc,
    Sbc,
    Cpa,
    Cpx,
    Cpy,
    Bit,
    Lax,
    Anc,
    Alr,
    Arr,
    Sbx,
    Lxa,
    Ane,
    Las,
    Sta,
    Stx,
    Sty,
    Sax,
    Sha,
    Shx,
    Shy,
    Tas,
    Asl,
    Lsr,
    Rol,
    Ror,
    Inc,
    Dec,
    Slo,
    Rla,
    Sre,
    Rra,
    Dcp,
    Isb,
    Tax,
    Tay,
    Txa,
    Tya,
    Tsx,
    Txs,
    Inx,
    Iny,
    Dex,
    Dey,
    Clc,
    Sec,
    Cli,
    Sei,
    Clv,
    Cld,
    Sed,
    Kil,
    Pha,
    Pla,
    Php,
    Plp,
    Bpl,
    Bmi,
    Bvc,
    Bvs,
    Bcc,
    Bcs,
    Bne,
    Beq,
    Jmp,
    Jsr,
    Rts,
    Rti,
    Brk,
    Nop,
}

pub const KINDS: [Kind; 256] = [
    Kind::Jump, Kind::Read, Kind::Register, Kind::Modify,
    Kind::Skip, Kind::Read, Kind::Modify, Kind::Modify,
    Kind::Stack, Kind::Read, Kind::Accumulator, Kind::Read,
    Kind::Skip, Kind::Read, Kind::Modify, Kind::Modify,
    Kind::Branch, Kind::Read, Kind::Register, Kind::Modify,
    Kind::Skip, Kind::Read, Kind::Modify, Kind::Modify,
    Kind::Register, Kind::Read, Kind::Skip, Kind::Modify,
    Kind::Skip, Kind::Read, Kind::Modify, Kind::Modify,
    Kind::Jump, Kind::Read, Kind::Register, Kind::Modify,
    Kind::Read, Kind::Read, Kind::Modify, Kind::Modify,
    Kind::Stack, Kind::Read, Kind::Accumulator, Kind::Read,
    Kind::Read, Kind::Read, Kind::Modify, Kind::Modify,
    Kind::Branch, Kind::Read, Kind::Register, Kind::Modify,
    Kind::Skip, Kind::Read, Kind::Modify, Kind::Modify,
    Kind::Register, Kind::Read, Kind::Skip, Kind::Modify,
    Kind::Skip, Kind::Read, Kind::Modify, Kind::Modify,
    Kind::Jump, Kind::Read, Kind::Register, Kind::Modify,
    Kind::Skip, Kind::Read, Kind::Modify, Kind::Modify,
    Kind::Stack, Kind::Read, Kind::Accumulator, Kind::Read,
    Kind::Jump, Kind::Read, Kind::Modify, Kind::Modify,
    Kind::Branch, Kind::Read, Kind::Register, Kind::Modify,
    Kind::Skip, Kind::Read, Kind::Modify, Kind::Modify,
    Kind::Register, Kind::Read, Kind::Skip, Kind::Modify,
    Kind::Skip, Kind::Read, Kind::Modify, Kind::Modify,
    Kind::Jump, Kind::Read, Kind::Register, Kind::Modify,
    Kind::Skip, Kind::Read, Kind::Modify, Kind::Modify,
    Kind::Stack, Kind::Read, Kind::Accumulator, Kind::Read,
    Kind::Jump, Kind::Read, Kind::Modify, Kind::Modify,
    Kind::Branch, Kind::Read, Kind::Register, Kind::Modify,
    Kind::Skip, Kind::Read, Kind::Modify, Kind::Modify,
    Kind::Register, Kind::Read, Kind::Skip, Kind::Modify,
    Kind::Skip, Kind::Read, Kind::Modify, Kind::Modify,
    Kind::Skip, Kind::Store, Kind::Skip, Kind::Store,
    Kind::Store, Kind::Store, Kind::Store, Kind::Store,
    Kind::Register, Kind::Skip, Kind::Register, Kind::Read,
    Kind::Store, Kind::Store, Kind::Store, Kind::Store,
    Kind::Branch, Kind::Store, Kind::Register, Kind::Store,
    Kind::Store, Kind::Store, Kind::Store, Kind::Store,
    Kind::Register, Kind::Store, Kind::Register, Kind::Store,
    Kind::Store, Kind::Store, Kind::Store, Kind::Store,
    Kind::Read, Kind::Read, Kind::Read, Kind::Read,
    Kind::Read, Kind::Read, Kind::Read, Kind::Read,
    Kind::Register, Kind::Read, Kind::Register, Kind::Read,
    Kind::Read, Kind::Read, Kind::Read, Kind::Read,
    Kind::Branch, Kind::Read, Kind::Register, Kind::Read,
    Kind::Read, Kind::Read, Kind::Read, Kind::Read,
    Kind::Register, Kind::Read, Kind::Register, Kind::Read,
    Kind::Read, Kind::Read, Kind::Read, Kind::Read,
    Kind::Read, Kind::Read, Kind::Skip, Kind::Modify,
    Kind::Read, Kind::Read, Kind::Modify, Kind::Modify,
    Kind::Register, Kind::Read, Kind::Register, Kind::Read,
    Kind::Read, Kind::Read, Kind::Modify, Kind::Modify,
    Kind::Branch, Kind::Read, Kind::Register, Kind::Modify,
    Kind::Skip, Kind::Read, Kind::Modify, Kind::Modify,
    Kind::Register, Kind::Read, Kind::Skip, Kind::Modify,
    Kind::Skip, Kind::Read, Kind::Modify, Kind::Modify,
    Kind::Read, Kind::Read, Kind::Skip, Kind::Modify,
    Kind::Read, Kind::Read, Kind::Modify, Kind::Modify,
    Kind::Register, Kind::Read, Kind::Skip, Kind::Read,
    Kind::Read, Kind::Read, Kind::Modify, Kind::Modify,
    Kind::Branch, Kind::Read, Kind::Register, Kind::Modify,
    Kind::Skip, Kind::Read, Kind::Modify, Kind::Modify,
    Kind::Register, Kind::Read, Kind::Skip, Kind::Modify,
    Kind::Skip, Kind::Read, Kind::Modify, Kind::Modify,
];

pub const OPS: [Op; 256] = [
    Op::Brk, Op::Ora, Op::Kil, Op::Slo, Op::Nop, Op::Ora, Op::Asl, Op::Slo,
    Op::Php, Op::Ora, Op::Asl, Op::Anc, Op::Nop, Op::Ora, Op::Asl, Op::Slo,
    Op::Bpl, Op::Ora, Op::Kil, Op::Slo, Op::Nop, Op::Ora, Op::Asl, Op::Slo,
    Op::Clc, Op::Ora, Op::Nop, Op::Slo, Op::Nop, Op::Ora, Op::Asl, Op::Slo,
    Op::Jsr, Op::And, Op::Kil, Op::Rla, Op::Bit, Op::And, Op::Rol, Op::Rla,
    Op::Plp, Op::And, Op::Rol, Op::Anc, Op::Bit, Op::And, Op::Rol, Op::Rla,
    Op::Bmi, Op::And, Op::Kil, Op::Rla, Op::Nop, Op::And, Op::Rol, Op::Rla,
    Op::Sec, Op::And, Op::Nop, Op::Rla, Op::Nop, Op::And, Op::Rol, Op::Rla,
    Op::Rti, Op::Eor, Op::Kil, Op::Sre, Op::Nop, Op::Eor, Op::Lsr, Op::Sre,
    Op::Pha, Op::Eor, Op::Lsr, Op::Alr, Op::Jmp, Op::Eor, Op::Lsr, Op::Sre,
    Op::Bvc, Op::Eor, Op::Kil, Op::Sre, Op::Nop, Op::Eor, Op::Lsr, Op::Sre,
    Op::Cli, Op::Eor, Op::Nop, Op::Sre, Op::Nop, Op::Eor, Op::Lsr, Op::Sre,
    Op::Rts, Op::Adc, Op::Kil, Op::Rra, Op::Nop, Op::Adc, Op::Ror, Op::Rra,
    Op::Pla, Op::Adc, Op::Ror, Op::Arr, Op::Jmp, Op::Adc, Op::Ror, Op::Rra,
    Op::Bvs, Op::Adc, Op::Kil, Op::Rra, Op::Nop, Op::Adc, Op::Ror, Op::Rra,
    Op::Sei, Op::Adc, Op::Nop, Op::Rra, Op::Nop, Op::Adc, Op::Ror, Op::Rra,
    Op::Nop, Op::Sta, Op::Nop, Op::Sax, Op::Sty, Op::Sta, Op::Stx, Op::Sax,
    Op::Dey, Op::Nop, Op::Txa, Op::Ane, Op::Sty, Op::Sta, Op::Stx, Op::Sax,
    Op::Bcc, Op::Sta, Op::Kil, Op::Sha, Op::Sty, Op::Sta, Op::Stx, Op::Sax,
    Op::Tya, Op::Sta, Op::Txs, Op::Tas, Op::Shy, Op::Sta, Op::Shx, Op::Sha,
    Op::Ldy, Op::Lda, Op::Ldx, Op::Lax, Op::Ldy, Op::Lda, Op::Ldx, Op::Lax,
    Op::Tay, Op::Lda, Op::Tax, Op::Lxa, Op::Ldy, Op::Lda, Op::Ldx, Op::Lax,
    Op::Bcs, Op::Lda, Op::Kil, Op::Lax, Op::Ldy, Op::Lda, Op::Ldx, Op::Lax,
    Op::Clv, Op::Lda, Op::Tsx, Op::Las, Op::Ldy, Op::Lda, Op::Ldx, Op::Lax,
    Op::Cpy, Op::Cpa, Op::Nop, Op::Dcp, Op::Cpy, Op::Cpa, Op::Dec, Op::Dcp,
    Op::Iny, Op::Cpa, Op::Dex, Op::Sbx, Op::Cpy, Op::Cpa, Op::Dec, Op::Dcp,
    Op::Bne, Op::Cpa, Op::Kil, Op::Dcp, Op::Nop, Op::Cpa, Op::Dec, Op::Dcp,
    Op::Cld, Op::Cpa, Op::Nop, Op::Dcp, Op::Nop, Op::Cpa, Op::Dec, Op::Dcp,
    Op::Cpx, Op::Sbc, Op::Nop, Op::Isb, Op::Cpx, Op::Sbc, Op::Inc, Op::Isb,
    Op::Inx, Op::Sbc, Op::Nop, Op::Sbc, Op::Cpx, Op::Sbc, Op::Inc, Op::Isb,
    Op::Beq, Op::Sbc, Op::Kil, Op::Isb, Op::Nop, Op::Sbc, Op::Inc, Op::Isb,
    Op::Sed, Op::Sbc, Op::Nop, Op::Isb, Op::Nop, Op::Sbc, Op::Inc, Op::Isb,
];

pub const MODES: [Mode; 256] = [
    Mode::Implied, Mode::IndirectX, Mode::Implied, Mode::IndirectX,
    Mode::ZeroPage, Mode::ZeroPage, Mode::ZeroPage, Mode::ZeroPage,
    Mode::Implied, Mode::Immediate, Mode::Implied, Mode::Immediate,
    Mode::Absolute, Mode::Absolute, Mode::Absolute, Mode::Absolute,
    Mode::Relative, Mode::IndirectY, Mode::Implied, Mode::IndirectY,
    Mode::ZeroPageX, Mode::ZeroPageX, Mode::ZeroPageX, Mode::ZeroPageX,
    Mode::Implied, Mode::AbsoluteY, Mode::Implied, Mode::AbsoluteY,
    Mode::AbsoluteX, Mode::AbsoluteX, Mode::AbsoluteX, Mode::AbsoluteX,
    Mode::Absolute, Mode::IndirectX, Mode::Implied, Mode::IndirectX,
    Mode::ZeroPage, Mode::ZeroPage, Mode::ZeroPage, Mode::ZeroPage,
    Mode::Implied, Mode::Immediate, Mode::Implied, Mode::Immediate,
    Mode::Absolute, Mode::Absolute, Mode::Absolute, Mode::Absolute,
    Mode::Relative, Mode::IndirectY, Mode::Implied, Mode::IndirectY,
    Mode::ZeroPageX, Mode::ZeroPageX, Mode::ZeroPageX, Mode::ZeroPageX,
    Mode::Implied, Mode::AbsoluteY, Mode::Implied, Mode::AbsoluteY,
    Mode::AbsoluteX, Mode::AbsoluteX, Mode::AbsoluteX, Mode::AbsoluteX,
    Mode::Implied, Mode::IndirectX, Mode::Implied, Mode::IndirectX,
    Mode::ZeroPage, Mode::ZeroPage, Mode::ZeroPage, Mode::ZeroPage,
    Mode::Implied, Mode::Immediate, Mode::Implied, Mode::Immediate,
    Mode::Absolute, Mode::Absolute, Mode::Absolute, Mode::Absolute,
    Mode::Relative, Mode::IndirectY, Mode::Implied, Mode::IndirectY,
    Mode::ZeroPageX, Mode::ZeroPageX, Mode::ZeroPageX, Mode::ZeroPageX,
    Mode::Implied, Mode::AbsoluteY, Mode::Implied, Mode::AbsoluteY,
    Mode::AbsoluteX, Mode::AbsoluteX, Mode::AbsoluteX, Mode::AbsoluteX,
    Mode::Implied, Mode::IndirectX, Mode::Implied, Mode::IndirectX,
    Mode::ZeroPage, Mode::ZeroPage, Mode::ZeroPage, Mode::ZeroPage,
    Mode::Implied, Mode::Immediate, Mode::Implied, Mode::Immediate,
    Mode::Indirect, Mode::Absolute, Mode::Absolute, Mode::Absolute,
    Mode::Relative, Mode::IndirectY, Mode::Implied, Mode::IndirectY,
    Mode::ZeroPageX, Mode::ZeroPageX, Mode::ZeroPageX, Mode::ZeroPageX,
    Mode::Implied, Mode::AbsoluteY, Mode::Implied, Mode::AbsoluteY,
    Mode::AbsoluteX, Mode::AbsoluteX, Mode::AbsoluteX, Mode::AbsoluteX,
    Mode::Immediate, Mode::IndirectX, Mode::Immediate, Mode::IndirectX,
    Mode::ZeroPage, Mode::ZeroPage, Mode::ZeroPage, Mode::ZeroPage,
    Mode::Implied, Mode::Immediate, Mode::Implied, Mode::Immediate,
    Mode::Absolute, Mode::Absolute, Mode::Absolute, Mode::Absolute,
    Mode::Relative, Mode::IndirectY, Mode::Implied, Mode::IndirectY,
    Mode::ZeroPageX, Mode::ZeroPageX, Mode::ZeroPageY, Mode::ZeroPageY,
    Mode::Implied, Mode::AbsoluteY, Mode::Implied, Mode::AbsoluteY,
    Mode::AbsoluteX, Mode::AbsoluteX, Mode::AbsoluteY, Mode::AbsoluteY,
    Mode::Immediate, Mode::IndirectX, Mode::Immediate, Mode::IndirectX,
    Mode::ZeroPage, Mode::ZeroPage, Mode::ZeroPage, Mode::ZeroPage,
    Mode::Implied, Mode::Immediate, Mode::Implied, Mode::Immediate,
    Mode::Absolute, Mode::Absolute, Mode::Absolute, Mode::Absolute,
    Mode::Relative, Mode::IndirectY, Mode::Implied, Mode::IndirectY,
    Mode::ZeroPageX, Mode::ZeroPageX, Mode::ZeroPageY, Mode::ZeroPageY,
    Mode::Implied, Mode::AbsoluteY, Mode::Implied, Mode::AbsoluteY,
    Mode::AbsoluteX, Mode::AbsoluteX, Mode::AbsoluteY, Mode::AbsoluteY,
    Mode::Immediate, Mode::IndirectX, Mode::Immediate, Mode::IndirectX,
    Mode::ZeroPage, Mode::ZeroPage, Mode::ZeroPage, Mode::ZeroPage,
    Mode::Implied, Mode::Immediate, Mode::Implied, Mode::Immediate,
    Mode::Absolute, Mode::Absolute, Mode::Absolute, Mode::Absolute,
    Mode::Relative, Mode::IndirectY, Mode::Implied, Mode::IndirectY,
    Mode::ZeroPageX, Mode::ZeroPageX, Mode::ZeroPageX, Mode::ZeroPageX,
    Mode::Implied, Mode::AbsoluteY, Mode::Implied, Mode::AbsoluteY,
    Mode::AbsoluteX, Mode::AbsoluteX, Mode::AbsoluteX, Mode::AbsoluteX,
    Mode::Immediate, Mode::IndirectX, Mode::Immediate, Mode::IndirectX,
    Mode::ZeroPage, Mode::ZeroPage, Mode::ZeroPage, Mode::ZeroPage,
    Mode::Implied, Mode::Immediate, Mode::Implied, Mode::Immediate,
    Mode::Absolute, Mode::Absolute, Mode::Absolute, Mode::Absolute,
    Mode::Relative, Mode::IndirectY, Mode::Implied, Mode::IndirectY,
    Mode::ZeroPageX, Mode::ZeroPageX, Mode::ZeroPageX, Mode::ZeroPageX,
    Mode::Implied, Mode::AbsoluteY, Mode::Implied, Mode::AbsoluteY,
    Mode::AbsoluteX, Mode::AbsoluteX, Mode::AbsoluteX, Mode::AbsoluteX,
];

/// Cycles without the one that a page crossing or a taken branch adds.
pub const CYCLES: [u32; 256] = [
    7, 6, 2, 8, 3, 3, 5, 5, 3, 2, 2, 2, 4, 4, 6, 6,
    2, 5, 2, 8, 4, 4, 6, 6, 2, 4, 2, 7, 4, 4, 7, 7,
    6, 6, 2, 8, 3, 3, 5, 5, 4, 2, 2, 2, 4, 4, 6, 6,
    2, 5, 2, 8, 4, 4, 6, 6, 2, 4, 2, 7, 4, 4, 7, 7,
    6, 6, 2, 8, 3, 3, 5, 5, 3, 2, 2, 2, 3, 4, 6, 6,
    2, 5, 2, 8, 4, 4, 6, 6, 2, 4, 2, 7, 4, 4, 7, 7,
    6, 6, 2, 8, 3, 3, 5, 5, 4, 2, 2, 2, 5, 4, 6, 6,
    2, 5, 2, 8, 4, 4, 6, 6, 2, 4, 2, 7, 4, 4, 7, 7,
    2, 6, 2, 6, 3, 3, 3, 3, 2, 2, 2, 2, 4, 4, 4, 4,
    2, 6, 2, 6, 4, 4, 4, 4, 2, 5, 2, 5, 5, 5, 5, 5,
    2, 6, 2, 6, 3, 3, 3, 3, 2, 2, 2, 2, 4, 4, 4, 4,
    2, 5, 2, 5, 4, 4, 4, 4, 2, 4, 2, 4, 4, 4, 4, 4,
    2, 6, 2, 8, 3, 3, 5, 5, 2, 2, 2, 2, 4, 4, 6, 6,
    2, 5, 2, 8, 4, 4, 6, 6, 2, 4, 2, 7, 4, 4, 7, 7,
    2, 6, 2, 8, 3, 3, 5, 5, 2, 2, 2, 2, 4, 4, 6, 6,
    2, 5, 2, 8, 4, 4, 6, 6, 2, 4, 2, 7, 4, 4, 7, 7,
];

/// Kind of an opcode.
#[verifier::opaque]
pub open spec fn kind_of(opcode: u8) -> Kind {
    KINDS[opcode as int]
}

/// Operation of an opcode.
#[verifier::opaque]
pub open spec fn op_of(opcode: u8) -> Op {
    OPS[opcode as int]
}

/// How the operand of an opcode is found.
#[verifier::opaque]
pub open spec fn mode_of(opcode: u8) -> Mode {
    MODES[opcode as int]
}

/// Cycles of an opcode without the one that a page crossing or a taken branch
/// adds.
#[verifier::opaque]
pub open spec fn base_cycles_of(opcode: u8) -> u32 {
    CYCLES[opcode as int]
}

/// Kind of an opcode.
pub fn kind(opcode: u8) -> (r: Kind)
    ensures
        r == kind_of(opcode),
{
    reveal(kind_of);
    KINDS[opcode as usize]
}

/// Operation of an opcode.
pub fn operation(opcode: u8) -> (r: Op)
    ensures
        r == op_of(opcode),
{
    reveal(op_of);
    OPS[opcode as usize]
}

/// How the operand of an opcode is found.
pub fn mode(opcode: u8) -> (r: Mode)
    ensures
        r == mode_of(opcode),
{
    reveal(mode_of);
    MODES[opcode as usize]
}

/// Cycles of an opcode without the one that a page crossing or a taken branch
/// adds: from two to eight.
pub fn base_cycles(opcode: u8) -> (r: u32)
    ensures
        r == base_cycles_of(opcode),
        2 <= r <= 8,
{
    reveal(base_cycles_of);
    CYCLES[opcode as usize]
}

} // verus!
