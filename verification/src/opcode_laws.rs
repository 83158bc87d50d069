//! How the opcodes are laid out: the high three bits and the low two bits name
//! the operation, the three bits between them say how its operand is found.
use vstd::prelude::*;
use crate::opcodes::{Kind, Mode, Op};

verus! {

/// How the operand is found in the columns with a full set of modes, by the
/// three middle bits.
pub open spec fn regular_mode(bbb: u8) -> Mode {
    match bbb {
        0 => Mode::IndirectX,
        1 => Mode::ZeroPage,
        2 => Mode::Immediate,
        3 => Mode::Absolute,
        4 => Mode::IndirectY,
        5 => Mode::ZeroPageX,
        6 => Mode::AbsoluteY,
        _ => Mode::AbsoluteX,
    }
}

/// The same for the operations that index by Y what others index by X, because
/// X is what they load or store.
pub open spec fn regular_mode_by_y(bbb: u8) -> Mode {
    match bbb {
        5 => Mode::ZeroPageY,
        7 => Mode::AbsoluteY,
        _ => regular_mode(bbb),
    }
}

/// Cycles of an instruction with an operand in memory: those that it takes to
/// reach the operand, one for each access to it, and one more to carry an
/// index into the high byte, which an instruction that only reads can save.
pub open spec fn memory_cycles(kind: Kind, mode: Mode) -> int {
    let to_reach = match mode {
        Mode::Implied => 1int,
        Mode::Immediate => 1,
        Mode::ZeroPage => 2,
        Mode::ZeroPageX => 3,
        Mode::ZeroPageY => 3,
        Mode::Absolute => 3,
        Mode::AbsoluteX => 3,
        Mode::AbsoluteY => 3,
        Mode::IndirectX => 5,
        _ => 4,
    };
    let to_carry = if mode is AbsoluteX || mode is AbsoluteY || mode is IndirectY { 1int } else {
        0
    };
    match kind {
        Kind::Store => to_reach + to_carry + 1,
        Kind::Modify => to_reach + to_carry + 3,
        _ => to_reach + 1,
    }
}

/// What stands behind an opcode.
pub open spec fn stands_for(opcode: u8, kind: Kind, op: Op, mode: Mode) -> bool {
    &&& crate::opcodes::kind_of(opcode) == kind
    &&& crate::opcodes::op_of(opcode) == op
    &&& crate::opcodes::mode_of(opcode) == mode
}

/// The opcodes that end in bits 01: arithmetic and logic on A, and its loads
/// and stores.
#[verifier::spinoff_prover]
#[verifier::rlimit(60)]
pub proof fn lemma_column_01(opcode: u8)
    requires
        opcode % 4 == 1,
        opcode != 0x89,
    ensures
        stands_for(
            opcode,
            if opcode / 32 == 4 { Kind::Store } else { Kind::Read },
            match opcode / 32 {
                0 => Op::Ora,
                1 => Op::And,
                2 => Op::Eor,
                3 => Op::Adc,
                4 => Op::Sta,
                5 => Op::Lda,
                6 => Op::Cpa,
                _ => Op::Sbc,
            },
            regular_mode(opcode / 4 % 8),
        ),
{
    reveal(crate::opcodes::kind_of);
    reveal(crate::opcodes::op_of);
    reveal(crate::opcodes::mode_of);
}

/// The opcodes that end in bits 10 and have an operand in memory: shifts,
/// loads and stores of X, and counting.
#[verifier::spinoff_prover]
#[verifier::rlimit(60)]
pub proof fn lemma_column_10(opcode: u8)
    requires
        opcode % 4 == 2,
        opcode / 4 % 2 == 1,
        opcode != 0x9E,
    ensures
        stands_for(
            opcode,
            if opcode / 32 == 4 {
                Kind::Store
            } else if opcode / 32 == 5 {
                Kind::Read
            } else {
                Kind::Modify
            },
            match opcode / 32 {
                0 => Op::Asl,
                1 => Op::Rol,
                2 => Op::Lsr,
                3 => Op::Ror,
                4 => Op::Stx,
                5 => Op::Ldx,
                6 => Op::Dec,
                _ => Op::Inc,
            },
            if opcode / 32 == 4 || opcode / 32 == 5 {
                regular_mode_by_y(opcode / 4 % 8)
            } else {
                regular_mode(opcode / 4 % 8)
            },
        ),
{
    reveal(crate::opcodes::kind_of);
    reveal(crate::opcodes::op_of);
    reveal(crate::opcodes::mode_of);
}

/// The undocumented opcodes that end in bits 11 each do what their two
/// neighbours do, on one operand.
#[verifier::spinoff_prover]
#[verifier::rlimit(60)]
pub proof fn lemma_column_11(opcode: u8)
    requires
        opcode % 4 == 3,
        opcode / 4 % 8 != 2,
        opcode != 0x93 && opcode != 0x9B && opcode != 0x9F && opcode != 0xBB,
    ensures
        stands_for(
            opcode,
            if opcode / 32 == 4 {
                Kind::Store
            } else if opcode / 32 == 5 {
                Kind::Read
            } else {
                Kind::Modify
            },
            match opcode / 32 {
                0 => Op::Slo,
                1 => Op::Rla,
                2 => Op::Sre,
                3 => Op::Rra,
                4 => Op::Sax,
                5 => Op::Lax,
                6 => Op::Dcp,
                _ => Op::Isb,
            },
            if opcode / 32 == 4 || opcode / 32 == 5 {
                regular_mode_by_y(opcode / 4 % 8)
            } else {
                regular_mode(opcode / 4 % 8)
            },
        ),
{
    reveal(crate::opcodes::kind_of);
    reveal(crate::opcodes::op_of);
    reveal(crate::opcodes::mode_of);
}

/// Loads, stores and comparisons of the index registers, and the bit test.
#[verifier::spinoff_prover]
pub proof fn lemma_opcodes_of_y()
    ensures
        stands_for(0xA0, Kind::Read, Op::Ldy, Mode::Immediate),
        stands_for(0xA4, Kind::Read, Op::Ldy, Mode::ZeroPage),
        stands_for(0xAC, Kind::Read, Op::Ldy, Mode::Absolute),
        stands_for(0xB4, Kind::Read, Op::Ldy, Mode::ZeroPageX),
        stands_for(0xBC, Kind::Read, Op::Ldy, Mode::AbsoluteX),
        stands_for(0x84, Kind::Store, Op::Sty, Mode::ZeroPage),
        stands_for(0x8C, Kind::Store, Op::Sty, Mode::Absolute),
        stands_for(0x94, Kind::Store, Op::Sty, Mode::ZeroPageX),
        stands_for(0xC0, Kind::Read, Op::Cpy, Mode::Immediate),
        stands_for(0xC4, Kind::Read, Op::Cpy, Mode::ZeroPage),
        stands_for(0xCC, Kind::Read, Op::Cpy, Mode::Absolute),
        stands_for(0xE0, Kind::Read, Op::Cpx, Mode::Immediate),
        stands_for(0xE4, Kind::Read, Op::Cpx, Mode::ZeroPage),
        stands_for(0xEC, Kind::Read, Op::Cpx, Mode::Absolute),
        stands_for(0x24, Kind::Read, Op::Bit, Mode::ZeroPage),
        stands_for(0x2C, Kind::Read, Op::Bit, Mode::Absolute),
        stands_for(0xA2, Kind::Read, Op::Ldx, Mode::Immediate),
{
    reveal(crate::opcodes::kind_of);
    reveal(crate::opcodes::op_of);
    reveal(crate::opcodes::mode_of);
}

/// Instructions of one byte on registers, flags and the stack.
#[verifier::spinoff_prover]
pub proof fn lemma_opcodes_of_one_byte()
    ensures
        stands_for(0x0A, Kind::Accumulator, Op::Asl, Mode::Implied),
        stands_for(0x2A, Kind::Accumulator, Op::Rol, Mode::Implied),
        stands_for(0x4A, Kind::Accumulator, Op::Lsr, Mode::Implied),
        stands_for(0x6A, Kind::Accumulator, Op::Ror, Mode::Implied),
        stands_for(0xAA, Kind::Register, Op::Tax, Mode::Implied),
        stands_for(0xA8, Kind::Register, Op::Tay, Mode::Implied),
        stands_for(0x8A, Kind::Register, Op::Txa, Mode::Implied),
        stands_for(0x98, Kind::Register, Op::Tya, Mode::Implied),
        stands_for(0xBA, Kind::Register, Op::Tsx, Mode::Implied),
        stands_for(0x9A, Kind::Register, Op::Txs, Mode::Implied),
        stands_for(0xE8, Kind::Register, Op::Inx, Mode::Implied),
        stands_for(0xC8, Kind::Register, Op::Iny, Mode::Implied),
        stands_for(0xCA, Kind::Register, Op::Dex, Mode::Implied),
        stands_for(0x88, Kind::Register, Op::Dey, Mode::Implied),
        stands_for(0x18, Kind::Register, Op::Clc, Mode::Implied),
        stands_for(0x38, Kind::Register, Op::Sec, Mode::Implied),
        stands_for(0x58, Kind::Register, Op::Cli, Mode::Implied),
        stands_for(0x78, Kind::Register, Op::Sei, Mode::Implied),
        stands_for(0xB8, Kind::Register, Op::Clv, Mode::Implied),
        stands_for(0xD8, Kind::Register, Op::Cld, Mode::Implied),
        stands_for(0xF8, Kind::Register, Op::Sed, Mode::Implied),
        stands_for(0x48, Kind::Stack, Op::Pha, Mode::Implied),
        stands_for(0x68, Kind::Stack, Op::Pla, Mode::Implied),
        stands_for(0x08, Kind::Stack, Op::Php, Mode::Implied),
        stands_for(0x28, Kind::Stack, Op::Plp, Mode::Implied),
{
    reveal(crate::opcodes::kind_of);
    reveal(crate::opcodes::op_of);
    reveal(crate::opcodes::mode_of);
}

/// Jumps, calls and returns.
#[verifier::spinoff_prover]
pub proof fn lemma_opcodes_that_jump()
    ensures
        stands_for(0x4C, Kind::Jump, Op::Jmp, Mode::Absolute),
        stands_for(0x6C, Kind::Jump, Op::Jmp, Mode::Indirect),
        stands_for(0x20, Kind::Jump, Op::Jsr, Mode::Absolute),
        stands_for(0x60, Kind::Jump, Op::Rts, Mode::Implied),
        stands_for(0x40, Kind::Jump, Op::Rti, Mode::Implied),
        stands_for(0x00, Kind::Jump, Op::Brk, Mode::Implied),
{
    reveal(crate::opcodes::kind_of);
    reveal(crate::opcodes::op_of);
    reveal(crate::opcodes::mode_of);
}

/// The undocumented opcodes that follow no pattern.
#[verifier::spinoff_prover]
pub proof fn lemma_odd_opcodes()
    ensures
        stands_for(0x0B, Kind::Read, Op::Anc, Mode::Immediate),
        stands_for(0x2B, Kind::Read, Op::Anc, Mode::Immediate),
        stands_for(0x4B, Kind::Read, Op::Alr, Mode::Immediate),
        stands_for(0x6B, Kind::Read, Op::Arr, Mode::Immediate),
        stands_for(0x8B, Kind::Read, Op::Ane, Mode::Immediate),
        stands_for(0xAB, Kind::Read, Op::Lxa, Mode::Immediate),
        stands_for(0xCB, Kind::Read, Op::Sbx, Mode::Immediate),
        stands_for(0xEB, Kind::Read, Op::Sbc, Mode::Immediate),
        stands_for(0x93, Kind::Store, Op::Sha, Mode::IndirectY),
        stands_for(0x9F, Kind::Store, Op::Sha, Mode::AbsoluteY),
        stands_for(0x9B, Kind::Store, Op::Tas, Mode::AbsoluteY),
        stands_for(0x9C, Kind::Store, Op::Shy, Mode::AbsoluteX),
        stands_for(0x9E, Kind::Store, Op::Shx, Mode::AbsoluteY),
        stands_for(0xBB, Kind::Read, Op::Las, Mode::AbsoluteY),
{
    reveal(crate::opcodes::kind_of);
    reveal(crate::opcodes::op_of);
    reveal(crate::opcodes::mode_of);
}

/// Opcodes that only pass over an operand.
#[verifier::spinoff_prover]
pub proof fn lemma_opcodes_that_skip()
    ensures
        stands_for(0x80, Kind::Skip, Op::Nop, Mode::Immediate),
        stands_for(0x82, Kind::Skip, Op::Nop, Mode::Immediate),
        stands_for(0x89, Kind::Skip, Op::Nop, Mode::Immediate),
        stands_for(0xC2, Kind::Skip, Op::Nop, Mode::Immediate),
        stands_for(0xE2, Kind::Skip, Op::Nop, Mode::Immediate),
        stands_for(0x04, Kind::Skip, Op::Nop, Mode::ZeroPage),
        stands_for(0x44, Kind::Skip, Op::Nop, Mode::ZeroPage),
        stands_for(0x64, Kind::Skip, Op::Nop, Mode::ZeroPage),
        stands_for(0x0C, Kind::Skip, Op::Nop, Mode::Absolute),
        stands_for(0x14, Kind::Skip, Op::Nop, Mode::ZeroPageX),
        stands_for(0x34, Kind::Skip, Op::Nop, Mode::ZeroPageX),
        stands_for(0x54, Kind::Skip, Op::Nop, Mode::ZeroPageX),
        stands_for(0x74, Kind::Skip, Op::Nop, Mode::ZeroPageX),
        stands_for(0xD4, Kind::Skip, Op::Nop, Mode::ZeroPageX),
        stands_for(0xF4, Kind::Skip, Op::Nop, Mode::ZeroPageX),
        stands_for(0x1C, Kind::Skip, Op::Nop, Mode::AbsoluteX),
        stands_for(0x3C, Kind::Skip, Op::Nop, Mode::AbsoluteX),
        stands_for(0x5C, Kind::Skip, Op::Nop, Mode::AbsoluteX),
        stands_for(0x7C, Kind::Skip, Op::Nop, Mode::AbsoluteX),
        stands_for(0xDC, Kind::Skip, Op::Nop, Mode::AbsoluteX),
        stands_for(0xFC, Kind::Skip, Op::Nop, Mode::AbsoluteX),
{
    reveal(crate::opcodes::kind_of);
    reveal(crate::opcodes::op_of);
    reveal(crate::opcodes::mode_of);
}

/// Opcodes that jam the CPU, and those that do nothing in one byte.
#[verifier::spinoff_prover]
pub proof fn lemma_idle_opcodes()
    ensures
        stands_for(0x02, Kind::Register, Op::Kil, Mode::Implied),
        stands_for(0x12, Kind::Register, Op::Kil, Mode::Implied),
        stands_for(0x22, Kind::Register, Op::Kil, Mode::Implied),
        stands_for(0x32, Kind::Register, Op::Kil, Mode::Implied),
        stands_for(0x42, Kind::Register, Op::Kil, Mode::Implied),
        stands_for(0x52, Kind::Register, Op::Kil, Mode::Implied),
        stands_for(0x62, Kind::Register, Op::Kil, Mode::Implied),
        stands_for(0x72, Kind::Register, Op::Kil, Mode::Implied),
        stands_for(0x92, Kind::Register, Op::Kil, Mode::Implied),
        stands_for(0xB2, Kind::Register, Op::Kil, Mode::Implied),
        stands_for(0xD2, Kind::Register, Op::Kil, Mode::Implied),
        stands_for(0xF2, Kind::Register, Op::Kil, Mode::Implied),
        stands_for(0x1A, Kind::Skip, Op::Nop, Mode::Implied),
        stands_for(0x3A, Kind::Skip, Op::Nop, Mode::Implied),
        stands_for(0x5A, Kind::Skip, Op::Nop, Mode::Implied),
        stands_for(0x7A, Kind::Skip, Op::Nop, Mode::Implied),
        stands_for(0xDA, Kind::Skip, Op::Nop, Mode::Implied),
        stands_for(0xEA, Kind::Skip, Op::Nop, Mode::Implied),
        stands_for(0xFA, Kind::Skip, Op::Nop, Mode::Implied),
{
    reveal(crate::opcodes::kind_of);
    reveal(crate::opcodes::op_of);
    reveal(crate::opcodes::mode_of);
}

/// The cycles of an opcode follow from what it does.
#[verifier::spinoff_prover]
#[verifier::rlimit(60)]
pub proof fn lemma_base_cycles(opcode: u8)
    ensures
        ({
            let kind = crate::opcodes::kind_of(opcode);
            let op = crate::opcodes::op_of(opcode);
            let mode = crate::opcodes::mode_of(opcode);
            crate::opcodes::base_cycles_of(opcode) == match kind {
                Kind::Accumulator => 2int,
                Kind::Register => 2,
                Kind::Branch => 2,
                Kind::Stack => if op is Pha || op is Php { 3 } else { 4 },
                Kind::Jump => if op is Brk {
                    7
                } else if op is Jmp {
                    if mode is Indirect { 5 } else { 3 }
                } else {
                    6
                },
                _ => memory_cycles(kind, mode),
            }
        }),
{
    reveal(crate::opcodes::kind_of);
    reveal(crate::opcodes::op_of);
    reveal(crate::opcodes::mode_of);
    reveal(crate::opcodes::base_cycles_of);
}

} // verus!
