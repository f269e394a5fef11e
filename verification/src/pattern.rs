//! The bit-pattern matcher: an 8-bit template with literal and wildcard
//! positions, used to classify opcode bytes. Positions are numbered
//! most-significant-bit first, so template position 0 is byte bit 7.

use vstd::prelude::*;

verus! {

/// An 8-bit template. A set bit of `mask` marks a literal position whose
/// required value is the corresponding bit of `bits`; a clear bit of `mask`
/// marks a wildcard position. Well-formed patterns keep `bits` zero at
/// wildcard positions.
#[derive(Clone, Copy, Debug, PartialEq, Eq)]
pub struct Pattern {
    pub mask: u8,
    pub bits: u8,
}

/// True iff template position `i` (0 = most significant bit) of `value` is 1.
pub open spec fn position_bit(value: u8, i: u8) -> bool {
    value & (1u8 << ((7 - i) as u8)) != 0
}

/// True iff `byte` matches `p`: every literal position of the template equals
/// the corresponding bit of the byte; wildcard positions always match.
pub open spec fn pattern_matches(p: Pattern, byte: u8) -> bool {
    byte & p.mask == p.bits
}

/// `bits` carries no value at wildcard positions.
pub open spec fn pattern_well_formed(p: Pattern) -> bool {
    p.bits & p.mask == p.bits
}

impl Pattern {
    /// Classify one byte against this template.
    pub fn is_match(&self, byte: u8) -> (r: bool)
        ensures
            r == pattern_matches(*self, byte),
    {
        byte & self.mask == self.bits
    }
}

/// The mask test agrees with the position-by-position reading of the
/// template: a byte matches iff at every literal position (a set mask bit)
/// the byte bit equals the template bit, with wildcard positions free.
pub proof fn lemma_match_is_positionwise(p: Pattern, byte: u8)
    requires
        pattern_well_formed(p),
    ensures
        pattern_matches(p, byte) <==> (forall|i: u8|
            i < 8 && position_bit(p.mask, i) ==> position_bit(byte, i) == position_bit(p.bits, i)),
{
    let m = p.mask;
    let b = p.bits;
    assert(1u8 << 7u8 == 0x80 && 1u8 << 6u8 == 0x40 && 1u8 << 5u8 == 0x20 && 1u8 << 4u8 == 0x10
        && 1u8 << 3u8 == 8 && 1u8 << 2u8 == 4 && 1u8 << 1u8 == 2 && 1u8 << 0u8 == 1)
        by (bit_vector);
    assert(pattern_matches(p, byte) ==> (forall|i: u8|
        i < 8 && position_bit(p.mask, i) ==> position_bit(byte, i) == position_bit(p.bits, i)))
        by {
        if byte & m == b {
            assert((m & 0x80 != 0 ==> (byte & 0x80 != 0) == (b & 0x80 != 0)) && (m & 0x40 != 0
                ==> (byte & 0x40 != 0) == (b & 0x40 != 0)) && (m & 0x20 != 0 ==> (byte & 0x20
                != 0) == (b & 0x20 != 0)) && (m & 0x10 != 0 ==> (byte & 0x10 != 0) == (b & 0x10
                != 0)) && (m & 8 != 0 ==> (byte & 8 != 0) == (b & 8 != 0)) && (m & 4 != 0 ==> (
            byte & 4 != 0) == (b & 4 != 0)) && (m & 2 != 0 ==> (byte & 2 != 0) == (b & 2 != 0))
                && (m & 1 != 0 ==> (byte & 1 != 0) == (b & 1 != 0))) by (bit_vector)
                requires
                    byte & m == b,
            ;
            assert forall|i: u8| i < 8 && position_bit(m, i) implies position_bit(byte, i)
                == position_bit(b, i) by {
                if i == 0 {
                } else if i == 1 {
                } else if i == 2 {
                } else if i == 3 {
                } else if i == 4 {
                } else if i == 5 {
                } else if i == 6 {
                } else {
                }
            }
        }
    };
    assert((forall|i: u8|
        i < 8 && position_bit(p.mask, i) ==> position_bit(byte, i) == position_bit(p.bits, i))
        ==> pattern_matches(p, byte)) by {
        if forall|i: u8|
            i < 8 && position_bit(m, i) ==> position_bit(byte, i) == position_bit(b, i) {
            assert(position_bit(m, 0) ==> position_bit(byte, 0) == position_bit(b, 0));
            assert(position_bit(m, 1) ==> position_bit(byte, 1) == position_bit(b, 1));
            assert(position_bit(m, 2) ==> position_bit(byte, 2) == position_bit(b, 2));
            assert(position_bit(m, 3) ==> position_bit(byte, 3) == position_bit(b, 3));
            assert(position_bit(m, 4) ==> position_bit(byte, 4) == position_bit(b, 4));
            assert(position_bit(m, 5) ==> position_bit(byte, 5) == position_bit(b, 5));
            assert(position_bit(m, 6) ==> position_bit(byte, 6) == position_bit(b, 6));
            assert(position_bit(m, 7) ==> position_bit(byte, 7) == position_bit(b, 7));
            assert(byte & m == b) by (bit_vector)
                requires
                    b & m == b,
                    m & 0x80 != 0 ==> (byte & 0x80 != 0) == (b & 0x80 != 0),
                    m & 0x40 != 0 ==> (byte & 0x40 != 0) == (b & 0x40 != 0),
                    m & 0x20 != 0 ==> (byte & 0x20 != 0) == (b & 0x20 != 0),
                    m & 0x10 != 0 ==> (byte & 0x10 != 0) == (b & 0x10 != 0),
                    m & 8 != 0 ==> (byte & 8 != 0) == (b & 8 != 0),
                    m & 4 != 0 ==> (byte & 4 != 0) == (b & 4 != 0),
                    m & 2 != 0 ==> (byte & 2 != 0) == (b & 2 != 0),
                    m & 1 != 0 ==> (byte & 1 != 0) == (b & 1 != 0),
            ;
        }
    };
}

} // verus!
