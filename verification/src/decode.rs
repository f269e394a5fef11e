//! The instruction decoder: classifies the byte at a position of the program
//! image against the decode table, consumes any trailing operand bytes, and
//! builds the symbolic instruction. Decoding is a pure function of the bytes
//! from the position onward; it never reads outside the image.

use crate::isa::condition_of;
use crate::isa::imm16_value;
use crate::isa::reg16_of;
use crate::isa::reg16mem_of;
use crate::isa::reg8_of;
use crate::isa::DecodeError;
use crate::isa::Instruction;
use crate::isa::Mnemonic;
use crate::isa::Operand;
use crate::isa::Reg16;
use crate::isa::Reg8;
use crate::table::block_of;
use crate::table::encoded_len_of;
use crate::table::find_rule;
use crate::table::first_match;
use crate::table::rules;
use crate::table::rules_for_block;
use crate::table::selected_rule;
use crate::table::Arity;
use crate::table::RuleKind;
use crate::table::Rule;
use vstd::prelude::*;

verus! {

/// The 2-bit `r16` sub-field of an opcode (bits 4-5).
pub open spec fn r16_code(opcode: u8) -> u8 {
    (opcode >> 4) & 3
}

/// The 3-bit destination `r8` sub-field of an opcode (bits 3-5).
pub open spec fn r8_dst_code(opcode: u8) -> u8 {
    (opcode >> 3) & 7
}

/// The 3-bit source `r8` sub-field of an opcode (bits 0-2).
pub open spec fn r8_src_code(opcode: u8) -> u8 {
    opcode & 7
}

/// The 2-bit condition sub-field of an opcode (bits 3-4).
pub open spec fn cond_code(opcode: u8) -> u8 {
    (opcode >> 3) & 3
}

/// The operand sub-fields of an opcode lie in their decoders' domains, and
/// the block number is the top two bits.
proof fn lemma_code_bounds(opcode: u8)
    by (bit_vector)
    ensures
        (opcode >> 4) & 3 < 4,
        (opcode >> 3) & 7 < 8,
        opcode & 7 < 8,
        (opcode >> 3) & 3 < 4,
        opcode >> 6 == opcode / 64,
        opcode / 64 < 4,
{
}

/// The mnemonic an instruction class decodes to, independent of the operand
/// bytes and of the wildcard bits of the opcode.
pub open spec fn kind_mnemonic(kind: RuleKind) -> Mnemonic {
    match kind {
        RuleKind::Nop => Mnemonic::Nop,
        RuleKind::LdR16Imm16 => Mnemonic::Ld,
        RuleKind::LdR16MemA => Mnemonic::Ld,
        RuleKind::LdAR16Mem => Mnemonic::Ld,
        RuleKind::LdImm16Sp => Mnemonic::Ld,
        RuleKind::IncR16 => Mnemonic::Inc,
        RuleKind::DecR16 => Mnemonic::Dec,
        RuleKind::AddHlR16 => Mnemonic::Add,
        RuleKind::IncR8 => Mnemonic::Inc,
        RuleKind::DecR8 => Mnemonic::Dec,
        RuleKind::LdR8Imm8 => Mnemonic::Ld,
        RuleKind::Rlca => Mnemonic::Rlca,
        RuleKind::Rrca => Mnemonic::Rrca,
        RuleKind::Rla => Mnemonic::Rla,
        RuleKind::Rra => Mnemonic::Rra,
        RuleKind::Daa => Mnemonic::Daa,
        RuleKind::Cpl => Mnemonic::Cpl,
        RuleKind::Scf => Mnemonic::Scf,
        RuleKind::Ccf => Mnemonic::Ccf,
        RuleKind::LdR8R8 => Mnemonic::Ld,
        RuleKind::AddAR8 => Mnemonic::Add,
        RuleKind::AdcAR8 => Mnemonic::Adc,
        RuleKind::SubAR8 => Mnemonic::Sub,
        RuleKind::SbcAR8 => Mnemonic::Sbc,
        RuleKind::AndAR8 => Mnemonic::And,
        RuleKind::XorAR8 => Mnemonic::Xor,
        RuleKind::OrAR8 => Mnemonic::Or,
        RuleKind::CpAR8 => Mnemonic::Cp,
        RuleKind::CpAImm8 => Mnemonic::Cp,
        RuleKind::JpCondImm16 => Mnemonic::Jp,
        RuleKind::JpImm16 => Mnemonic::Jp,
        RuleKind::LdMemImm16A => Mnemonic::Ld,
        RuleKind::LdAMemImm16 => Mnemonic::Ld,
        RuleKind::Unsupported => Mnemonic::Nop,
    }
}

/// The instruction a rule builds from the opcode and its operand bytes.
pub open spec fn build_spec(kind: RuleKind, opcode: u8, imm8: u8, imm16: u16, len: u8) -> Instruction {
    let mnemonic = kind_mnemonic(kind);
    let (op1, op2): (Option<Operand>, Option<Operand>) = match kind {
        RuleKind::Nop => (None, None),
        RuleKind::LdR16Imm16 => (
            Some(Operand::R16(reg16_of(r16_code(opcode)))),
            Some(Operand::Imm16(imm16)),
        ),
        RuleKind::LdR16MemA => (
            Some(Operand::R16Mem(reg16mem_of(r16_code(opcode)))),
            Some(Operand::R8(Reg8::A)),
        ),
        RuleKind::LdAR16Mem => (
            Some(Operand::R8(Reg8::A)),
            Some(Operand::R16Mem(reg16mem_of(r16_code(opcode)))),
        ),
        RuleKind::LdImm16Sp => (Some(Operand::MemImm16(imm16)), Some(Operand::R16(Reg16::Sp))),
        RuleKind::IncR16 => (Some(Operand::R16(reg16_of(r16_code(opcode)))), None),
        RuleKind::DecR16 => (Some(Operand::R16(reg16_of(r16_code(opcode)))), None),
        RuleKind::AddHlR16 => (
            Some(Operand::R16(Reg16::Hl)),
            Some(Operand::R16(reg16_of(r16_code(opcode)))),
        ),
        RuleKind::IncR8 => (Some(Operand::R8(reg8_of(r8_dst_code(opcode)))), None),
        RuleKind::DecR8 => (Some(Operand::R8(reg8_of(r8_dst_code(opcode)))), None),
        RuleKind::LdR8Imm8 => (
            Some(Operand::R8(reg8_of(r8_dst_code(opcode)))),
            Some(Operand::Imm8(imm8)),
        ),
        RuleKind::Rlca => (None, None),
        RuleKind::Rrca => (None, None),
        RuleKind::Rla => (None, None),
        RuleKind::Rra => (None, None),
        RuleKind::Daa => (None, None),
        RuleKind::Cpl => (None, None),
        RuleKind::Scf => (None, None),
        RuleKind::Ccf => (None, None),
        RuleKind::LdR8R8 => (
            Some(Operand::R8(reg8_of(r8_dst_code(opcode)))),
            Some(Operand::R8(reg8_of(r8_src_code(opcode)))),
        ),
        RuleKind::AddAR8 => (
            Some(Operand::R8(Reg8::A)),
            Some(Operand::R8(reg8_of(r8_src_code(opcode)))),
        ),
        RuleKind::AdcAR8 => (
            Some(Operand::R8(Reg8::A)),
            Some(Operand::R8(reg8_of(r8_src_code(opcode)))),
        ),
        RuleKind::SubAR8 => (
            Some(Operand::R8(Reg8::A)),
            Some(Operand::R8(reg8_of(r8_src_code(opcode)))),
        ),
        RuleKind::SbcAR8 => (
            Some(Operand::R8(Reg8::A)),
            Some(Operand::R8(reg8_of(r8_src_code(opcode)))),
        ),
        RuleKind::AndAR8 => (
            Some(Operand::R8(Reg8::A)),
            Some(Operand::R8(reg8_of(r8_src_code(opcode)))),
        ),
        RuleKind::XorAR8 => (
            Some(Operand::R8(Reg8::A)),
            Some(Operand::R8(reg8_of(r8_src_code(opcode)))),
        ),
        RuleKind::OrAR8 => (
            Some(Operand::R8(Reg8::A)),
            Some(Operand::R8(reg8_of(r8_src_code(opcode)))),
        ),
        RuleKind::CpAR8 => (
            Some(Operand::R8(Reg8::A)),
            Some(Operand::R8(reg8_of(r8_src_code(opcode)))),
        ),
        RuleKind::CpAImm8 => (Some(Operand::R8(Reg8::A)), Some(Operand::Imm8(imm8))),
        RuleKind::JpCondImm16 => (
            Some(Operand::Cond(condition_of(cond_code(opcode)))),
            Some(Operand::Imm16(imm16)),
        ),
        RuleKind::JpImm16 => (Some(Operand::Imm16(imm16)), None),
        RuleKind::LdMemImm16A => (Some(Operand::MemImm16(imm16)), Some(Operand::R8(Reg8::A))),
        RuleKind::LdAMemImm16 => (Some(Operand::R8(Reg8::A)), Some(Operand::MemImm16(imm16))),
        RuleKind::Unsupported => (None, None),
    };
    Instruction { mnemonic, op1, op2, encoded_length: len }
}

/// The 8-bit immediate argument a rule consumes, if it consumes one.
pub open spec fn imm8_arg(a: Arity, bytes: Seq<u8>) -> u8 {
    if a is One {
        bytes[1]
    } else {
        0
    }
}

/// The 16-bit immediate argument a rule consumes, if it consumes one;
/// assembled little-endian from the two bytes after the opcode.
pub open spec fn imm16_arg(a: Arity, bytes: Seq<u8>) -> u16 {
    if a is Two {
        imm16_value(bytes[1], bytes[2])
    } else {
        0
    }
}

/// Decode the instruction at the head of a byte suffix.
pub open spec fn decode_tail(bytes: Seq<u8>) -> Result<Instruction, DecodeError> {
    if bytes.len() < 1 {
        Err(DecodeError::TruncatedInstruction)
    } else {
        let opcode = bytes[0];
        match first_match(rules(block_of(opcode)), opcode) {
            None => Err(DecodeError::UnknownOpcode { opcode }),
            Some(r) => {
                if r.kind is Unsupported {
                    Err(DecodeError::UnsupportedInstruction { opcode, block: block_of(opcode) })
                } else if bytes.len() < encoded_len_of(r.operands) {
                    Err(DecodeError::TruncatedInstruction)
                } else {
                    Ok(
                        build_spec(
                            r.kind,
                            opcode,
                            imm8_arg(r.operands, bytes),
                            imm16_arg(r.operands, bytes),
                            encoded_len_of(r.operands),
                        ),
                    )
                }
            },
        }
    }
}

/// Decode the instruction at position `pos` of the image. Out-of-bounds
/// positions are truncation failures.
pub open spec fn decode_spec(image: Seq<u8>, pos: int) -> Result<Instruction, DecodeError> {
    if 0 <= pos < image.len() {
        decode_tail(image.skip(pos))
    } else {
        Err(DecodeError::TruncatedInstruction)
    }
}

pub(crate) proof fn lemma_imm16_shift(lo: u8, hi: u8)
    by (bit_vector)
    ensures
        ((hi as u16) << 8) | (lo as u16) == ((hi as int) * 256 + (lo as int)) as u16,
{
}

fn build_instruction(kind: RuleKind, opcode: u8, imm8: u8, imm16: u16, len: u8) -> (r:
    Instruction)
    ensures
        r == build_spec(kind, opcode, imm8, imm16, len),
{
    proof {
        lemma_code_bounds(opcode);
    }
    let r16 = (opcode >> 4) & 3;
    let r8d = (opcode >> 3) & 7;
    let r8s = opcode & 7;
    let cc = (opcode >> 3) & 3;
    match kind {
        RuleKind::Nop => Instruction {
            mnemonic: Mnemonic::Nop,
            op1: None,
            op2: None,
            encoded_length: len,
        },
        RuleKind::LdR16Imm16 => Instruction {
            mnemonic: Mnemonic::Ld,
            op1: Some(Operand::R16(crate::isa::reg16_lookup(r16))),
            op2: Some(Operand::Imm16(imm16)),
            encoded_length: len,
        },
        RuleKind::LdR16MemA => Instruction {
            mnemonic: Mnemonic::Ld,
            op1: Some(Operand::R16Mem(crate::isa::reg16mem_lookup(r16))),
            op2: Some(Operand::R8(Reg8::A)),
            encoded_length: len,
        },
        RuleKind::LdAR16Mem => Instruction {
            mnemonic: Mnemonic::Ld,
            op1: Some(Operand::R8(Reg8::A)),
            op2: Some(Operand::R16Mem(crate::isa::reg16mem_lookup(r16))),
            encoded_length: len,
        },
        RuleKind::LdImm16Sp => Instruction {
            mnemonic: Mnemonic::Ld,
            op1: Some(Operand::MemImm16(imm16)),
            op2: Some(Operand::R16(Reg16::Sp)),
            encoded_length: len,
        },
        RuleKind::IncR16 => Instruction {
            mnemonic: Mnemonic::Inc,
            op1: Some(Operand::R16(crate::isa::reg16_lookup(r16))),
            op2: None,
            encoded_length: len,
        },
        RuleKind::DecR16 => Instruction {
            mnemonic: Mnemonic::Dec,
            op1: Some(Operand::R16(crate::isa::reg16_lookup(r16))),
            op2: None,
            encoded_length: len,
        },
        RuleKind::AddHlR16 => Instruction {
            mnemonic: Mnemonic::Add,
            op1: Some(Operand::R16(Reg16::Hl)),
            op2: Some(Operand::R16(crate::isa::reg16_lookup(r16))),
            encoded_length: len,
        },
        RuleKind::IncR8 => Instruction {
            mnemonic: Mnemonic::Inc,
            op1: Some(Operand::R8(crate::isa::reg8_lookup(r8d))),
            op2: None,
            encoded_length: len,
        },
        RuleKind::DecR8 => Instruction {
            mnemonic: Mnemonic::Dec,
            op1: Some(Operand::R8(crate::isa::reg8_lookup(r8d))),
            op2: None,
            encoded_length: len,
        },
        RuleKind::LdR8Imm8 => Instruction {
            mnemonic: Mnemonic::Ld,
            op1: Some(Operand::R8(crate::isa::reg8_lookup(r8d))),
            op2: Some(Operand::Imm8(imm8)),
            encoded_length: len,
        },
        RuleKind::Rlca => Instruction {
            mnemonic: Mnemonic::Rlca,
            op1: None,
            op2: None,
            encoded_length: len,
        },
        RuleKind::Rrca => Instruction {
            mnemonic: Mnemonic::Rrca,
            op1: None,
            op2: None,
            encoded_length: len,
        },
        RuleKind::Rla => Instruction {
            mnemonic: Mnemonic::Rla,
            op1: None,
            op2: None,
            encoded_length: len,
        },
        RuleKind::Rra => Instruction {
            mnemonic: Mnemonic::Rra,
            op1: None,
            op2: None,
            encoded_length: len,
        },
        RuleKind::Daa => Instruction {
            mnemonic: Mnemonic::Daa,
            op1: None,
            op2: None,
            encoded_length: len,
        },
        RuleKind::Cpl => Instruction {
            mnemonic: Mnemonic::Cpl,
            op1: None,
            op2: None,
            encoded_length: len,
        },
        RuleKind::Scf => Instruction {
            mnemonic: Mnemonic::Scf,
            op1: None,
            op2: None,
            encoded_length: len,
        },
        RuleKind::Ccf => Instruction {
            mnemonic: Mnemonic::Ccf,
            op1: None,
            op2: None,
            encoded_length: len,
        },
        RuleKind::LdR8R8 => Instruction {
            mnemonic: Mnemonic::Ld,
            op1: Some(Operand::R8(crate::isa::reg8_lookup(r8d))),
            op2: Some(Operand::R8(crate::isa::reg8_lookup(r8s))),
            encoded_length: len,
        },
        RuleKind::AddAR8 => Instruction {
            mnemonic: Mnemonic::Add,
            op1: Some(Operand::R8(Reg8::A)),
            op2: Some(Operand::R8(crate::isa::reg8_lookup(r8s))),
            encoded_length: len,
        },
        RuleKind::AdcAR8 => Instruction {
            mnemonic: Mnemonic::Adc,
            op1: Some(Operand::R8(Reg8::A)),
            op2: Some(Operand::R8(crate::isa::reg8_lookup(r8s))),
            encoded_length: len,
        },
        RuleKind::SubAR8 => Instruction {
            mnemonic: Mnemonic::Sub,
            op1: Some(Operand::R8(Reg8::A)),
            op2: Some(Operand::R8(crate::isa::reg8_lookup(r8s))),
            encoded_length: len,
        },
        RuleKind::SbcAR8 => Instruction {
            mnemonic: Mnemonic::Sbc,
            op1: Some(Operand::R8(Reg8::A)),
            op2: Some(Operand::R8(crate::isa::reg8_lookup(r8s))),
            encoded_length: len,
        },
        RuleKind::AndAR8 => Instruction {
            mnemonic: Mnemonic::And,
            op1: Some(Operand::R8(Reg8::A)),
            op2: Some(Operand::R8(crate::isa::reg8_lookup(r8s))),
            encoded_length: len,
        },
        RuleKind::XorAR8 => Instruction {
            mnemonic: Mnemonic::Xor,
            op1: Some(Operand::R8(Reg8::A)),
            op2: Some(Operand::R8(crate::isa::reg8_lookup(r8s))),
            encoded_length: len,
        },
        RuleKind::OrAR8 => Instruction {
            mnemonic: Mnemonic::Or,
            op1: Some(Operand::R8(Reg8::A)),
            op2: Some(Operand::R8(crate::isa::reg8_lookup(r8s))),
            encoded_length: len,
        },
        RuleKind::CpAR8 => Instruction {
            mnemonic: Mnemonic::Cp,
            op1: Some(Operand::R8(Reg8::A)),
            op2: Some(Operand::R8(crate::isa::reg8_lookup(r8s))),
            encoded_length: len,
        },
        RuleKind::CpAImm8 => Instruction {
            mnemonic: Mnemonic::Cp,
            op1: Some(Operand::R8(Reg8::A)),
            op2: Some(Operand::Imm8(imm8)),
            encoded_length: len,
        },
        RuleKind::JpCondImm16 => Instruction {
            mnemonic: Mnemonic::Jp,
            op1: Some(Operand::Cond(crate::isa::condition_lookup(cc))),
            op2: Some(Operand::Imm16(imm16)),
            encoded_length: len,
        },
        RuleKind::JpImm16 => Instruction {
            mnemonic: Mnemonic::Jp,
            op1: Some(Operand::Imm16(imm16)),
            op2: None,
            encoded_length: len,
        },
        RuleKind::LdMemImm16A => Instruction {
            mnemonic: Mnemonic::Ld,
            op1: Some(Operand::MemImm16(imm16)),
            op2: Some(Operand::R8(Reg8::A)),
            encoded_length: len,
        },
        RuleKind::LdAMemImm16 => Instruction {
            mnemonic: Mnemonic::Ld,
            op1: Some(Operand::R8(Reg8::A)),
            op2: Some(Operand::MemImm16(imm16)),
            encoded_length: len,
        },
        RuleKind::Unsupported => Instruction {
            mnemonic: Mnemonic::Nop,
            op1: None,
            op2: None,
            encoded_length: len,
        },
    }
}

/// Decode the instruction starting at `pos`, consuming 1 to 3 bytes and
/// never reading outside `image`.
pub fn decode_instruction(image: &[u8], pos: usize) -> (r: Result<Instruction, DecodeError>)
    ensures
        r == decode_spec(image@, pos as int),
{
    if pos >= image.len() {
        return Err(DecodeError::TruncatedInstruction);
    }
    let ghost tail = image@.skip(pos as int);
    let opcode = image[pos];
    proof {
        lemma_code_bounds(opcode);
        assert(tail[0] == image@[pos as int]);
    }
    let block = opcode >> 6;
    let rs = rules_for_block(block);
    let found = find_rule(&rs, opcode);
    match found {
        None => Err(DecodeError::UnknownOpcode { opcode }),
        Some(r) => {
            if let RuleKind::Unsupported = r.kind {
                return Err(DecodeError::UnsupportedInstruction { opcode, block });
            }
            let need: usize = match r.operands {
                Arity::Zero => 1,
                Arity::One => 2,
                Arity::Two => 3,
            };
            if image.len() - pos < need {
                return Err(DecodeError::TruncatedInstruction);
            }
            let imm8: u8 = if matches!(r.operands, Arity::One) {
                let b = image[pos + 1];
                proof {
                    assert(tail[1] == image@[pos as int + 1]);
                }
                b
            } else {
                0
            };
            let imm16: u16 = if matches!(r.operands, Arity::Two) {
                let lo = image[pos + 1];
                let hi = image[pos + 2];
                proof {
                    assert(tail[1] == image@[pos as int + 1]);
                    assert(tail[2] == image@[pos as int + 2]);
                    lemma_imm16_shift(lo, hi);
                }
                ((hi as u16) << 8) | (lo as u16)
            } else {
                0
            };
            let len: u8 = match r.operands {
                Arity::Zero => 1,
                Arity::One => 2,
                Arity::Two => 3,
            };
            Ok(build_instruction(r.kind, opcode, imm8, imm16, len))
        },
    }
}

/// Decoding is a pure function of the byte suffix: the same byte with the
/// same following bytes decodes the same way at any position of any image.
pub proof fn lemma_decode_position_independent(
    img1: Seq<u8>,
    pos1: int,
    img2: Seq<u8>,
    pos2: int,
)
    requires
        0 <= pos1 <= img1.len(),
        0 <= pos2 <= img2.len(),
        img1.skip(pos1) == img2.skip(pos2),
    ensures
        decode_spec(img1, pos1) == decode_spec(img2, pos2),
{
    assert(img1.skip(pos1).len() == img1.len() - pos1);
    assert(img2.skip(pos2).len() == img2.len() - pos2);
}

/// Every concrete byte value that the priority order resolves to the same
/// rule decodes, given room for its operand bytes, to an instruction with
/// that rule's mnemonic and that rule's encoded length.
pub proof fn lemma_rule_determines_shape(img: Seq<u8>, pos: int, r: Rule)
    requires
        0 <= pos < img.len(),
        selected_rule(img[pos]) == Some(r),
        !(r.kind is Unsupported),
        pos + encoded_len_of(r.operands) <= img.len(),
    ensures
        decode_spec(img, pos) matches Ok(i) && i.mnemonic == kind_mnemonic(r.kind)
            && i.encoded_length == encoded_len_of(r.operands),
{
    let tail = img.skip(pos);
    assert(tail[0] == img[pos]);
    assert(tail.len() == img.len() - pos);
}

/// Two positions whose bytes the priority order resolves to the same rule
/// decode to instructions with the same mnemonic and the same encoded
/// length, whatever their wildcard bits and operand bytes hold.
pub proof fn lemma_pattern_rule_uniform(
    img1: Seq<u8>,
    pos1: int,
    img2: Seq<u8>,
    pos2: int,
    r: Rule,
)
    requires
        0 <= pos1 < img1.len(),
        0 <= pos2 < img2.len(),
        selected_rule(img1[pos1]) == Some(r),
        selected_rule(img2[pos2]) == Some(r),
        !(r.kind is Unsupported),
        pos1 + encoded_len_of(r.operands) <= img1.len(),
        pos2 + encoded_len_of(r.operands) <= img2.len(),
    ensures
        decode_spec(img1, pos1) matches Ok(i1) && decode_spec(img2, pos2) matches Ok(i2)
            && i1.mnemonic == i2.mnemonic && i1.encoded_length == i2.encoded_length,
{
    lemma_rule_determines_shape(img1, pos1, r);
    lemma_rule_determines_shape(img2, pos2, r);
}

/// A successful decode starts inside the image, consumes 1 to 3 bytes, and
/// never reads outside the image.
pub proof fn lemma_decode_ok_bounds(img: Seq<u8>, pos: int)
    ensures
        decode_spec(img, pos) matches Ok(i) ==> 0 <= pos < img.len() && 1 <= i.encoded_length
            <= 3 && pos + i.encoded_length <= img.len(),
{
    if 0 <= pos < img.len() {
        let tail = img.skip(pos);
        assert(tail.len() == img.len() - pos);
    }
}

/// A correctly paired rule set and decoder family never yield an operand
/// sub-field outside its decoder's domain: decoding never reports
/// `InvalidOperandCode`.
pub proof fn lemma_no_invalid_operand(img: Seq<u8>, pos: int)
    ensures
        decode_spec(img, pos) matches Err(e) ==> !(e is InvalidOperandCode),
{
}

} // verus!
