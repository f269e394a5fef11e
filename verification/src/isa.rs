//! Symbolic data model of the instruction set: registers, conditions,
//! operands, mnemonics, decoded instructions, and decode errors, together
//! with the operand sub-field lookups used by the decode table.

use vstd::prelude::*;

verus! {

/// An 8-bit register operand. Code 6 denotes the byte addressed by the HL
/// register pair, not a plain register; `HlInd` keeps that distinction.
#[derive(Clone, Copy, Debug, PartialEq, Eq)]
pub enum Reg8 {
    B,
    C,
    D,
    E,
    H,
    L,
    HlInd,
    A,
}

/// A 16-bit register pair operand.
#[derive(Clone, Copy, Debug, PartialEq, Eq)]
pub enum Reg16 {
    Bc,
    De,
    Hl,
    Sp,
}

/// A 16-bit register pair used as a memory address; the two HL forms carry
/// implicit post-increment / post-decrement addressing.
#[derive(Clone, Copy, Debug, PartialEq, Eq)]
pub enum Reg16Mem {
    Bc,
    De,
    HlInc,
    HlDec,
}

/// A CPU-flag branch condition.
#[derive(Clone, Copy, Debug, PartialEq, Eq)]
pub enum Condition {
    NotZero,
    Zero,
    NotCarry,
    Carry,
}

/// A human-readable name for one of the known memory-mapped addresses.
#[derive(Clone, Copy, Debug, PartialEq, Eq)]
pub enum MemName {
    CartridgeRom,
    Nr52,
    LcdControl,
    Ly,
    Bgp,
}

/// A symbolic operand of a decoded instruction.
#[derive(Clone, Copy, Debug, PartialEq, Eq)]
pub enum Operand {
    R8(Reg8),
    R16(Reg16),
    R16Mem(Reg16Mem),
    Cond(Condition),
    Imm8(u8),
    Imm16(u16),
    MemImm16(u16),
}

/// The operation selected by an opcode.
#[derive(Clone, Copy, Debug, PartialEq, Eq)]
pub enum Mnemonic {
    Nop,
    Ld,
    Inc,
    Dec,
    Add,
    Adc,
    Sub,
    Sbc,
    And,
    Xor,
    Or,
    Cp,
    Rlca,
    Rrca,
    Rla,
    Rra,
    Daa,
    Cpl,
    Scf,
    Ccf,
    Jp,
}

/// One decoded instruction: a mnemonic, up to two symbolic operands, and the
/// total number of bytes of its encoding (1 to 3).
#[derive(Clone, Copy, Debug, PartialEq, Eq)]
pub struct Instruction {
    pub mnemonic: Mnemonic,
    pub op1: Option<Operand>,
    pub op2: Option<Operand>,
    pub encoded_length: u8,
}

/// A decode failure, local to one `decode_instruction` call.
#[derive(Clone, Copy, Debug, PartialEq, Eq)]
pub enum DecodeError {
    /// The byte matches no rule in its block.
    UnknownOpcode { opcode: u8 },
    /// The byte is a recognized opcode whose operand decoding is not modeled.
    UnsupportedInstruction { opcode: u8, block: u8 },
    /// An operand sub-field value fell outside its decoder's domain.
    InvalidOperandCode { code: u8 },
    /// Operand bytes run past the end of the image.
    TruncatedInstruction,
    /// The address is not one of the known memory-mapped addresses.
    UnknownAddress { address: u16 },
}

/// The register selected by a 3-bit `r8` code (total over codes 0..8).
pub open spec fn reg8_of(code: u8) -> Reg8 {
    if code == 0 {
        Reg8::B
    } else if code == 1 {
        Reg8::C
    } else if code == 2 {
        Reg8::D
    } else if code == 3 {
        Reg8::E
    } else if code == 4 {
        Reg8::H
    } else if code == 5 {
        Reg8::L
    } else if code == 6 {
        Reg8::HlInd
    } else {
        Reg8::A
    }
}

/// The register pair selected by a 2-bit `r16` code (total over codes 0..4).
pub open spec fn reg16_of(code: u8) -> Reg16 {
    if code == 0 {
        Reg16::Bc
    } else if code == 1 {
        Reg16::De
    } else if code == 2 {
        Reg16::Hl
    } else {
        Reg16::Sp
    }
}

/// The addressing pair selected by a 2-bit `r16mem` code.
pub open spec fn reg16mem_of(code: u8) -> Reg16Mem {
    if code == 0 {
        Reg16Mem::Bc
    } else if code == 1 {
        Reg16Mem::De
    } else if code == 2 {
        Reg16Mem::HlInc
    } else {
        Reg16Mem::HlDec
    }
}

/// The branch condition selected by a 2-bit condition code.
pub open spec fn condition_of(code: u8) -> Condition {
    if code == 0 {
        Condition::NotZero
    } else if code == 1 {
        Condition::Zero
    } else if code == 2 {
        Condition::NotCarry
    } else {
        Condition::Carry
    }
}

/// The symbolic name of a known memory-mapped address, if there is one.
pub open spec fn mem_name_of(address: u16) -> Option<MemName> {
    if address == 0x90 {
        Some(MemName::CartridgeRom)
    } else if address == 0xFF26 {
        Some(MemName::Nr52)
    } else if address == 0xFF40 {
        Some(MemName::LcdControl)
    } else if address == 0xFF44 {
        Some(MemName::Ly)
    } else if address == 0xFF47 {
        Some(MemName::Bgp)
    } else {
        None
    }
}

/// The value of a 16-bit immediate assembled from its two encoded bytes,
/// little-endian: the byte at the lower address is the least significant.
pub open spec fn imm16_value(lo: u8, hi: u8) -> u16 {
    ((hi as int) * 256 + (lo as int)) as u16
}

pub(crate) fn reg8_lookup(code: u8) -> (r: Reg8)
    requires
        code < 8,
    ensures
        r == reg8_of(code),
{
    match code {
        0 => Reg8::B,
        1 => Reg8::C,
        2 => Reg8::D,
        3 => Reg8::E,
        4 => Reg8::H,
        5 => Reg8::L,
        6 => Reg8::HlInd,
        _ => Reg8::A,
    }
}

pub(crate) fn reg16_lookup(code: u8) -> (r: Reg16)
    requires
        code < 4,
    ensures
        r == reg16_of(code),
{
    match code {
        0 => Reg16::Bc,
        1 => Reg16::De,
        2 => Reg16::Hl,
        _ => Reg16::Sp,
    }
}

pub(crate) fn reg16mem_lookup(code: u8) -> (r: Reg16Mem)
    requires
        code < 4,
    ensures
        r == reg16mem_of(code),
{
    match code {
        0 => Reg16Mem::Bc,
        1 => Reg16Mem::De,
        2 => Reg16Mem::HlInc,
        _ => Reg16Mem::HlDec,
    }
}

pub(crate) fn condition_lookup(code: u8) -> (r: Condition)
    requires
        code < 4,
    ensures
        r == condition_of(code),
{
    match code {
        0 => Condition::NotZero,
        1 => Condition::Zero,
        2 => Condition::NotCarry,
        _ => Condition::Carry,
    }
}

} // verus!
