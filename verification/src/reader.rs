//! The program image holder and the operand/symbol decoders. The image is an
//! immutable byte sequence; reads take an explicit position. Each decoder is
//! total over its restricted domain and reports `InvalidOperandCode` (or
//! `UnknownAddress`) outside it, where the codes themselves select nothing.

use crate::isa::condition_lookup;
use crate::isa::condition_of;
use crate::isa::imm16_value;
use crate::isa::mem_name_of;
use crate::isa::reg16_lookup;
use crate::isa::reg16_of;
use crate::isa::reg16mem_lookup;
use crate::isa::reg16mem_of;
use crate::isa::reg8_lookup;
use crate::isa::reg8_of;
use crate::isa::Condition;
use crate::isa::DecodeError;
use crate::isa::MemName;
use crate::isa::Reg16;
use crate::isa::Reg16Mem;
use crate::isa::Reg8;
use vstd::prelude::*;

verus! {

/// An immutable program image: the binary to disassemble.
pub struct CartridgeReader {
    data: Vec<u8>,
}

impl View for CartridgeReader {
    type V = Seq<u8>;

    closed spec fn view(&self) -> Seq<u8> {
        self.data@
    }
}

impl CartridgeReader {
    /// Wrap a byte buffer as a program image.
    pub fn new(data: Vec<u8>) -> (r: CartridgeReader)
        ensures
            r@ == data@,
    {
        CartridgeReader { data }
    }

    /// The number of bytes in the image.
    pub fn len(&self) -> (r: usize)
        ensures
            r == self@.len(),
    {
        self.data.len()
    }

    /// Read-only access to the image bytes.
    pub fn bytes(&self) -> (r: &[u8])
        ensures
            r@ == self@,
    {
        self.data.as_slice()
    }

    /// The opcode byte at `pos`.
    pub fn read_instruction(&self, pos: usize) -> (r: u8)
        requires
            pos < self@.len(),
        ensures
            r == self@[pos as int],
    {
        self.data[pos]
    }

    /// The 8-bit immediate operand of the instruction at `pos`: the byte
    /// just after the opcode.
    pub fn read_imm8(&self, pos: usize) -> (r: u8)
        requires
            pos + 1 < self@.len(),
        ensures
            r == self@[pos as int + 1],
    {
        let n = self.data.len();
        assert(pos + 1 < n);
        self.data[pos + 1]
    }

    /// The 16-bit immediate operand of the instruction at `pos`, assembled
    /// little-endian: the byte at `pos + 1` is the least significant.
    pub fn read_imm16(&self, pos: usize) -> (r: u16)
        requires
            pos + 2 < self@.len(),
        ensures
            r == imm16_value(self@[pos as int + 1], self@[pos as int + 2]),
    {
        let n = self.data.len();
        assert(pos + 2 < n);
        let lo = self.data[pos + 1];
        let hi = self.data[pos + 2];
        proof {
            crate::decode::lemma_imm16_shift(lo, hi);
        }
        ((hi as u16) << 8) | (lo as u16)
    }

    /// The register named by a 3-bit `r8` code; codes 0..8 are valid.
    pub fn decode_r8(&self, r8: u8) -> (r: Result<Reg8, DecodeError>)
        ensures
            r == if r8 < 8 {
                Result::<Reg8, DecodeError>::Ok(reg8_of(r8))
            } else {
                Result::<Reg8, DecodeError>::Err(DecodeError::InvalidOperandCode { code: r8 })
            },
    {
        if r8 < 8 {
            Ok(reg8_lookup(r8))
        } else {
            Err(DecodeError::InvalidOperandCode { code: r8 })
        }
    }

    /// The register pair named by a 2-bit `r16` code; codes 0..4 are valid.
    pub fn decode_r16(&self, r16: u8) -> (r: Result<Reg16, DecodeError>)
        ensures
            r == if r16 < 4 {
                Result::<Reg16, DecodeError>::Ok(reg16_of(r16))
            } else {
                Result::<Reg16, DecodeError>::Err(DecodeError::InvalidOperandCode { code: r16 })
            },
    {
        if r16 < 4 {
            Ok(reg16_lookup(r16))
        } else {
            Err(DecodeError::InvalidOperandCode { code: r16 })
        }
    }

    /// The addressing pair named by a 2-bit `r16mem` code; codes 0..4 are
    /// valid, and codes 2 and 3 carry post-increment/post-decrement HL
    /// addressing.
    pub fn decode_r16mem(&self, r16mem: u8) -> (r: Result<Reg16Mem, DecodeError>)
        ensures
            r == if r16mem < 4 {
                Result::<Reg16Mem, DecodeError>::Ok(reg16mem_of(r16mem))
            } else {
                Result::<Reg16Mem, DecodeError>::Err(
                    DecodeError::InvalidOperandCode { code: r16mem },
                )
            },
    {
        if r16mem < 4 {
            Ok(reg16mem_lookup(r16mem))
        } else {
            Err(DecodeError::InvalidOperandCode { code: r16mem })
        }
    }

    /// The branch condition named by a 2-bit code; codes 0..4 are valid.
    pub fn decode_condition(&self, cond: u8) -> (r: Result<Condition, DecodeError>)
        ensures
            r == if cond < 4 {
                Result::<Condition, DecodeError>::Ok(condition_of(cond))
            } else {
                Result::<Condition, DecodeError>::Err(DecodeError::InvalidOperandCode { code: cond })
            },
    {
        if cond < 4 {
            Ok(condition_lookup(cond))
        } else {
            Err(DecodeError::InvalidOperandCode { code: cond })
        }
    }

    /// The human-readable name of a known memory-mapped address; a
    /// best-effort annotation that signals `UnknownAddress` elsewhere.
    pub fn decode_memory_address(&self, address: u16) -> (r: Result<MemName, DecodeError>)
        ensures
            r == match mem_name_of(address) {
                Some(name) => Result::<MemName, DecodeError>::Ok(name),
                None => Result::<MemName, DecodeError>::Err(
                    DecodeError::UnknownAddress { address },
                ),
            },
    {
        if address == 0x90 {
            Ok(MemName::CartridgeRom)
        } else if address == 0xFF26 {
            Ok(MemName::Nr52)
        } else if address == 0xFF40 {
            Ok(MemName::LcdControl)
        } else if address == 0xFF44 {
            Ok(MemName::Ly)
        } else if address == 0xFF47 {
            Ok(MemName::Bgp)
        } else {
            Err(DecodeError::UnknownAddress { address })
        }
    }
}

} // verus!
