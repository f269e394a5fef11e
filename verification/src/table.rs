//! The decode table: an explicit, ordered list of pattern rules, grouped by
//! the instruction's block number (the top two bits of the opcode). Within a
//! block, rules stand in priority order: full literal templates first, then
//! templates with fewer wildcard positions before templates with more, so a
//! general wildcard rule never shadows a narrower exception.

use crate::pattern::pattern_matches;
use crate::pattern::Pattern;
use vstd::prelude::*;

verus! {

/// How many trailing operand bytes a rule consumes.
#[derive(Clone, Copy, Debug, PartialEq, Eq)]
pub enum Arity {
    Zero,
    One,
    Two,
}

/// Which instruction class a rule produces; `Unsupported` marks a recognized
/// opcode whose operand decoding is not modeled.
#[derive(Clone, Copy, Debug, PartialEq, Eq)]
pub enum RuleKind {
    Nop,
    LdR16Imm16,
    LdR16MemA,
    LdAR16Mem,
    LdImm16Sp,
    IncR16,
    DecR16,
    AddHlR16,
    IncR8,
    DecR8,
    LdR8Imm8,
    Rlca,
    Rrca,
    Rla,
    Rra,
    Daa,
    Cpl,
    Scf,
    Ccf,
    LdR8R8,
    AddAR8,
    AdcAR8,
    SubAR8,
    SbcAR8,
    AndAR8,
    XorAR8,
    OrAR8,
    CpAR8,
    CpAImm8,
    JpCondImm16,
    JpImm16,
    LdMemImm16A,
    LdAMemImm16,
    Unsupported,
}

/// One decode rule: the pattern a byte must match, the number of trailing
/// operand bytes to consume, and the instruction class built on a match.
#[derive(Clone, Copy, Debug, PartialEq, Eq)]
pub struct Rule {
    pub pattern: Pattern,
    pub operands: Arity,
    pub kind: RuleKind,
}

/// Total encoded length (opcode byte plus operand bytes) for a rule's arity.
pub open spec fn encoded_len_of(a: Arity) -> u8 {
    match a {
        Arity::Zero => 1,
        Arity::One => 2,
        Arity::Two => 3,
    }
}

/// The block number of an opcode: its top two bits.
pub open spec fn block_of(opcode: u8) -> u8 {
    (opcode / 64) as u8
}

pub open spec fn rule_matches(r: Rule, opcode: u8) -> bool {
    pattern_matches(r.pattern, opcode)
}

/// The rule set for block 0: miscellaneous, 16-bit loads and arithmetic,
/// and the 8-bit immediate loads.
pub open spec fn block0_rules() -> Seq<Rule> {
    seq![
        Rule { pattern: Pattern { mask: 0xFF, bits: 0x00 }, operands: Arity::Zero, kind: RuleKind::Nop },
        Rule { pattern: Pattern { mask: 0xFF, bits: 0x08 }, operands: Arity::Two, kind: RuleKind::LdImm16Sp },
        Rule { pattern: Pattern { mask: 0xFF, bits: 0x07 }, operands: Arity::Zero, kind: RuleKind::Rlca },
        Rule { pattern: Pattern { mask: 0xFF, bits: 0x0F }, operands: Arity::Zero, kind: RuleKind::Rrca },
        Rule { pattern: Pattern { mask: 0xFF, bits: 0x17 }, operands: Arity::Zero, kind: RuleKind::Rla },
        Rule { pattern: Pattern { mask: 0xFF, bits: 0x1F }, operands: Arity::Zero, kind: RuleKind::Rra },
        Rule { pattern: Pattern { mask: 0xFF, bits: 0x27 }, operands: Arity::Zero, kind: RuleKind::Daa },
        Rule { pattern: Pattern { mask: 0xFF, bits: 0x2F }, operands: Arity::Zero, kind: RuleKind::Cpl },
        Rule { pattern: Pattern { mask: 0xFF, bits: 0x37 }, operands: Arity::Zero, kind: RuleKind::Scf },
        Rule { pattern: Pattern { mask: 0xFF, bits: 0x3F }, operands: Arity::Zero, kind: RuleKind::Ccf },
        Rule { pattern: Pattern { mask: 0xFF, bits: 0x18 }, operands: Arity::One, kind: RuleKind::Unsupported },
        Rule { pattern: Pattern { mask: 0xFF, bits: 0x10 }, operands: Arity::Zero, kind: RuleKind::Unsupported },
        Rule { pattern: Pattern { mask: 0xCF, bits: 0x01 }, operands: Arity::Two, kind: RuleKind::LdR16Imm16 },
        Rule { pattern: Pattern { mask: 0xCF, bits: 0x02 }, operands: Arity::Zero, kind: RuleKind::LdR16MemA },
        Rule { pattern: Pattern { mask: 0xCF, bits: 0x0A }, operands: Arity::Zero, kind: RuleKind::LdAR16Mem },
        Rule { pattern: Pattern { mask: 0xCF, bits: 0x03 }, operands: Arity::Zero, kind: RuleKind::IncR16 },
        Rule { pattern: Pattern { mask: 0xCF, bits: 0x0B }, operands: Arity::Zero, kind: RuleKind::DecR16 },
        Rule { pattern: Pattern { mask: 0xCF, bits: 0x09 }, operands: Arity::Zero, kind: RuleKind::AddHlR16 },
        Rule { pattern: Pattern { mask: 0xE7, bits: 0x20 }, operands: Arity::One, kind: RuleKind::Unsupported },
        Rule { pattern: Pattern { mask: 0xC7, bits: 0x04 }, operands: Arity::Zero, kind: RuleKind::IncR8 },
        Rule { pattern: Pattern { mask: 0xC7, bits: 0x05 }, operands: Arity::Zero, kind: RuleKind::DecR8 },
        Rule { pattern: Pattern { mask: 0xC7, bits: 0x06 }, operands: Arity::One, kind: RuleKind::LdR8Imm8 },
    ]
}

/// The rule set for block 1: the 8-bit register-to-register loads, with the
/// halt exception resolved first.
pub open spec fn block1_rules() -> Seq<Rule> {
    seq![
        Rule { pattern: Pattern { mask: 0xFF, bits: 0x76 }, operands: Arity::Zero, kind: RuleKind::Unsupported },
        Rule { pattern: Pattern { mask: 0xC0, bits: 0x40 }, operands: Arity::Zero, kind: RuleKind::LdR8R8 },
    ]
}

/// The rule set for block 2: 8-bit ALU operations against a register.
pub open spec fn block2_rules() -> Seq<Rule> {
    seq![
        Rule { pattern: Pattern { mask: 0xF8, bits: 0x80 }, operands: Arity::Zero, kind: RuleKind::AddAR8 },
        Rule { pattern: Pattern { mask: 0xF8, bits: 0x88 }, operands: Arity::Zero, kind: RuleKind::AdcAR8 },
        Rule { pattern: Pattern { mask: 0xF8, bits: 0x90 }, operands: Arity::Zero, kind: RuleKind::SubAR8 },
        Rule { pattern: Pattern { mask: 0xF8, bits: 0x98 }, operands: Arity::Zero, kind: RuleKind::SbcAR8 },
        Rule { pattern: Pattern { mask: 0xF8, bits: 0xA0 }, operands: Arity::Zero, kind: RuleKind::AndAR8 },
        Rule { pattern: Pattern { mask: 0xF8, bits: 0xA8 }, operands: Arity::Zero, kind: RuleKind::XorAR8 },
        Rule { pattern: Pattern { mask: 0xF8, bits: 0xB0 }, operands: Arity::Zero, kind: RuleKind::OrAR8 },
        Rule { pattern: Pattern { mask: 0xF8, bits: 0xB8 }, operands: Arity::Zero, kind: RuleKind::CpAR8 },
    ]
}

/// The rule set for block 3: immediate-operand ALU, jumps, and the remaining
/// irregular encodings.
pub open spec fn block3_rules() -> Seq<Rule> {
    seq![
        Rule { pattern: Pattern { mask: 0xFF, bits: 0xC6 }, operands: Arity::One, kind: RuleKind::Unsupported },
        Rule { pattern: Pattern { mask: 0xFF, bits: 0xCE }, operands: Arity::One, kind: RuleKind::Unsupported },
        Rule { pattern: Pattern { mask: 0xFF, bits: 0xD6 }, operands: Arity::One, kind: RuleKind::Unsupported },
        Rule { pattern: Pattern { mask: 0xFF, bits: 0xDE }, operands: Arity::One, kind: RuleKind::Unsupported },
        Rule { pattern: Pattern { mask: 0xFF, bits: 0xE6 }, operands: Arity::One, kind: RuleKind::Unsupported },
        Rule { pattern: Pattern { mask: 0xFF, bits: 0xEE }, operands: Arity::One, kind: RuleKind::Unsupported },
        Rule { pattern: Pattern { mask: 0xFF, bits: 0xF6 }, operands: Arity::One, kind: RuleKind::Unsupported },
        Rule { pattern: Pattern { mask: 0xFF, bits: 0xFE }, operands: Arity::One, kind: RuleKind::CpAImm8 },
        Rule { pattern: Pattern { mask: 0xFF, bits: 0xC9 }, operands: Arity::Zero, kind: RuleKind::Unsupported },
        Rule { pattern: Pattern { mask: 0xFF, bits: 0xD9 }, operands: Arity::Zero, kind: RuleKind::Unsupported },
        Rule { pattern: Pattern { mask: 0xFF, bits: 0xC3 }, operands: Arity::Two, kind: RuleKind::JpImm16 },
        Rule { pattern: Pattern { mask: 0xFF, bits: 0xE9 }, operands: Arity::Zero, kind: RuleKind::Unsupported },
        Rule { pattern: Pattern { mask: 0xFF, bits: 0xCD }, operands: Arity::Two, kind: RuleKind::Unsupported },
        Rule { pattern: Pattern { mask: 0xFF, bits: 0xCB }, operands: Arity::One, kind: RuleKind::Unsupported },
        Rule { pattern: Pattern { mask: 0xFF, bits: 0xE2 }, operands: Arity::Zero, kind: RuleKind::Unsupported },
        Rule { pattern: Pattern { mask: 0xFF, bits: 0xE0 }, operands: Arity::One, kind: RuleKind::Unsupported },
        Rule { pattern: Pattern { mask: 0xFF, bits: 0xEA }, operands: Arity::Two, kind: RuleKind::LdMemImm16A },
        Rule { pattern: Pattern { mask: 0xFF, bits: 0xF2 }, operands: Arity::Zero, kind: RuleKind::Unsupported },
        Rule { pattern: Pattern { mask: 0xFF, bits: 0xF0 }, operands: Arity::One, kind: RuleKind::Unsupported },
        Rule { pattern: Pattern { mask: 0xFF, bits: 0xFA }, operands: Arity::Two, kind: RuleKind::LdAMemImm16 },
        Rule { pattern: Pattern { mask: 0xFF, bits: 0xE8 }, operands: Arity::One, kind: RuleKind::Unsupported },
        Rule { pattern: Pattern { mask: 0xFF, bits: 0xF8 }, operands: Arity::One, kind: RuleKind::Unsupported },
        Rule { pattern: Pattern { mask: 0xFF, bits: 0xF9 }, operands: Arity::Zero, kind: RuleKind::Unsupported },
        Rule { pattern: Pattern { mask: 0xFF, bits: 0xF3 }, operands: Arity::Zero, kind: RuleKind::Unsupported },
        Rule { pattern: Pattern { mask: 0xFF, bits: 0xFB }, operands: Arity::Zero, kind: RuleKind::Unsupported },
        Rule { pattern: Pattern { mask: 0xE7, bits: 0xC0 }, operands: Arity::Zero, kind: RuleKind::Unsupported },
        Rule { pattern: Pattern { mask: 0xE7, bits: 0xC2 }, operands: Arity::Two, kind: RuleKind::JpCondImm16 },
        Rule { pattern: Pattern { mask: 0xE7, bits: 0xC4 }, operands: Arity::Two, kind: RuleKind::Unsupported },
        Rule { pattern: Pattern { mask: 0xCF, bits: 0xC1 }, operands: Arity::Zero, kind: RuleKind::Unsupported },
        Rule { pattern: Pattern { mask: 0xCF, bits: 0xC5 }, operands: Arity::Zero, kind: RuleKind::Unsupported },
        Rule { pattern: Pattern { mask: 0xC7, bits: 0xC7 }, operands: Arity::Zero, kind: RuleKind::Unsupported },
    ]
}

/// The ordered rule set of one block.
pub open spec fn rules(block: u8) -> Seq<Rule> {
    if block == 0 {
        block0_rules()
    } else if block == 1 {
        block1_rules()
    } else if block == 2 {
        block2_rules()
    } else if block == 3 {
        block3_rules()
    } else {
        Seq::empty()
    }
}

/// The first rule of `rs`, in priority order, whose pattern matches `opcode`.
pub open spec fn first_match(rs: Seq<Rule>, opcode: u8) -> Option<Rule>
    decreases rs.len(),
{
    if rs.len() <= 0 {
        None
    } else if rule_matches(rs[0], opcode) {
        Some(rs[0])
    } else {
        first_match(rs.subrange(1, rs.len() as int), opcode)
    }
}

/// The rule that classifies `opcode`: the first match within its block.
pub open spec fn selected_rule(opcode: u8) -> Option<Rule> {
    first_match(rules(block_of(opcode)), opcode)
}

/// Every rule of every block carries a well-formed pattern: its template
/// bits lie entirely at literal positions.
pub proof fn lemma_rules_well_formed(block: u8)
    ensures
        forall|i: int|
            0 <= i < rules(block).len() ==> crate::pattern::pattern_well_formed(
                (#[trigger] rules(block)[i]).pattern,
            ),
{
    assert(forall|b: u8| #[trigger] (b & 0xFF) == b) by (bit_vector);
    assert(0x01u8 & 0xCF == 0x01 && 0x02u8 & 0xCF == 0x02 && 0x0Au8 & 0xCF == 0x0A && 0x03u8
        & 0xCF == 0x03 && 0x0Bu8 & 0xCF == 0x0B && 0x09u8 & 0xCF == 0x09 && 0xC1u8 & 0xCF == 0xC1
        && 0xC5u8 & 0xCF == 0xC5 && 0x20u8 & 0xE7 == 0x20 && 0xC0u8 & 0xE7 == 0xC0 && 0xC2u8
        & 0xE7 == 0xC2 && 0xC4u8 & 0xE7 == 0xC4 && 0x04u8 & 0xC7 == 0x04 && 0x05u8 & 0xC7 == 0x05
        && 0x06u8 & 0xC7 == 0x06 && 0xC7u8 & 0xC7 == 0xC7 && 0x40u8 & 0xC0 == 0x40 && 0x80u8
        & 0xF8 == 0x80 && 0x88u8 & 0xF8 == 0x88 && 0x90u8 & 0xF8 == 0x90 && 0x98u8 & 0xF8 == 0x98
        && 0xA0u8 & 0xF8 == 0xA0 && 0xA8u8 & 0xF8 == 0xA8 && 0xB0u8 & 0xF8 == 0xB0 && 0xB8u8
        & 0xF8 == 0xB8) by (bit_vector);
}

/// Rule resolution is deterministic in priority order: a selected rule is
/// the earliest whose pattern matches the byte, and a byte is left
/// unclassified only when no rule of its block matches it at all.
pub proof fn lemma_first_match_is_earliest(rs: Seq<Rule>, opcode: u8)
    ensures
        first_match(rs, opcode) matches Some(r) ==> exists|i: int|
            0 <= i < rs.len() && rs[i] == r && rule_matches(r, opcode) && (forall|j: int|
                0 <= j < i ==> !rule_matches(#[trigger] rs[j], opcode)),
        first_match(rs, opcode) is None ==> forall|j: int|
            0 <= j < rs.len() ==> !rule_matches(#[trigger] rs[j], opcode),
    decreases rs.len(),
{
    if rs.len() > 0 && !rule_matches(rs[0], opcode) {
        let tail = rs.subrange(1, rs.len() as int);
        lemma_first_match_is_earliest(tail, opcode);
        assert(forall|j: int| 0 <= j < tail.len() ==> tail[j] == rs[j + 1]);
        match first_match(rs, opcode) {
            Some(r) => {
                let i = choose|i: int|
                    0 <= i < tail.len() && tail[i] == r && rule_matches(r, opcode) && (forall|
                        j: int,
                    | 0 <= j < i ==> !rule_matches(#[trigger] tail[j], opcode));
                assert(rs[i + 1] == r);
                assert forall|j: int| 0 <= j < i + 1 implies !rule_matches(
                    #[trigger] rs[j],
                    opcode,
                ) by {
                    if j > 0 {
                        assert(tail[j - 1] == rs[j]);
                        assert(!rule_matches(tail[j - 1], opcode));
                    }
                }
            },
            None => {
                assert forall|j: int| 0 <= j < rs.len() implies !rule_matches(
                    #[trigger] rs[j],
                    opcode,
                ) by {
                    if j > 0 {
                        assert(tail[j - 1] == rs[j]);
                    }
                }
            },
        }
    }
}

/// A byte that matches the rule at position `i` selects that rule whenever
/// no rule of higher priority also matches it.
pub proof fn lemma_first_match_at(rs: Seq<Rule>, opcode: u8, i: int)
    requires
        0 <= i < rs.len(),
        forall|j: int| 0 <= j < i ==> !rule_matches(rs[j], opcode),
        rule_matches(rs[i], opcode),
    ensures
        first_match(rs, opcode) == Some(rs[i]),
    decreases i,
{
    if i > 0 {
        let tail = rs.subrange(1, rs.len() as int);
        assert(forall|j: int| 0 <= j < i - 1 ==> tail[j] == rs[j + 1]);
        lemma_first_match_at(tail, opcode, i - 1);
        assert(tail[i - 1] == rs[i]);
    }
}

proof fn lemma_first_match_none(rs: Seq<Rule>, opcode: u8)
    requires
        forall|j: int| 0 <= j < rs.len() ==> !rule_matches(rs[j], opcode),
    ensures
        first_match(rs, opcode) is None,
    decreases rs.len(),
{
    if rs.len() > 0 {
        let tail = rs.subrange(1, rs.len() as int);
        assert(forall|j: int| 0 <= j < tail.len() ==> tail[j] == rs[j + 1]);
        lemma_first_match_none(tail, opcode);
    }
}

fn block0_vec() -> (r: Vec<Rule>)
    ensures
        r@ == block0_rules(),
{
    let mut v: Vec<Rule> = Vec::new();
    v.push(Rule { pattern: Pattern { mask: 0xFF, bits: 0x00 }, operands: Arity::Zero, kind: RuleKind::Nop });
    v.push(Rule { pattern: Pattern { mask: 0xFF, bits: 0x08 }, operands: Arity::Two, kind: RuleKind::LdImm16Sp });
    v.push(Rule { pattern: Pattern { mask: 0xFF, bits: 0x07 }, operands: Arity::Zero, kind: RuleKind::Rlca });
    v.push(Rule { pattern: Pattern { mask: 0xFF, bits: 0x0F }, operands: Arity::Zero, kind: RuleKind::Rrca });
    v.push(Rule { pattern: Pattern { mask: 0xFF, bits: 0x17 }, operands: Arity::Zero, kind: RuleKind::Rla });
    v.push(Rule { pattern: Pattern { mask: 0xFF, bits: 0x1F }, operands: Arity::Zero, kind: RuleKind::Rra });
    v.push(Rule { pattern: Pattern { mask: 0xFF, bits: 0x27 }, operands: Arity::Zero, kind: RuleKind::Daa });
    v.push(Rule { pattern: Pattern { mask: 0xFF, bits: 0x2F }, operands: Arity::Zero, kind: RuleKind::Cpl });
    v.push(Rule { pattern: Pattern { mask: 0xFF, bits: 0x37 }, operands: Arity::Zero, kind: RuleKind::Scf });
    v.push(Rule { pattern: Pattern { mask: 0xFF, bits: 0x3F }, operands: Arity::Zero, kind: RuleKind::Ccf });
    v.push(Rule { pattern: Pattern { mask: 0xFF, bits: 0x18 }, operands: Arity::One, kind: RuleKind::Unsupported });
    v.push(Rule { pattern: Pattern { mask: 0xFF, bits: 0x10 }, operands: Arity::Zero, kind: RuleKind::Unsupported });
    v.push(Rule { pattern: Pattern { mask: 0xCF, bits: 0x01 }, operands: Arity::Two, kind: RuleKind::LdR16Imm16 });
    v.push(Rule { pattern: Pattern { mask: 0xCF, bits: 0x02 }, operands: Arity::Zero, kind: RuleKind::LdR16MemA });
    v.push(Rule { pattern: Pattern { mask: 0xCF, bits: 0x0A }, operands: Arity::Zero, kind: RuleKind::LdAR16Mem });
    v.push(Rule { pattern: Pattern { mask: 0xCF, bits: 0x03 }, operands: Arity::Zero, kind: RuleKind::IncR16 });
    v.push(Rule { pattern: Pattern { mask: 0xCF, bits: 0x0B }, operands: Arity::Zero, kind: RuleKind::DecR16 });
    v.push(Rule { pattern: Pattern { mask: 0xCF, bits: 0x09 }, operands: Arity::Zero, kind: RuleKind::AddHlR16 });
    v.push(Rule { pattern: Pattern { mask: 0xE7, bits: 0x20 }, operands: Arity::One, kind: RuleKind::Unsupported });
    v.push(Rule { pattern: Pattern { mask: 0xC7, bits: 0x04 }, operands: Arity::Zero, kind: RuleKind::IncR8 });
    v.push(Rule { pattern: Pattern { mask: 0xC7, bits: 0x05 }, operands: Arity::Zero, kind: RuleKind::DecR8 });
    v.push(Rule { pattern: Pattern { mask: 0xC7, bits: 0x06 }, operands: Arity::One, kind: RuleKind::LdR8Imm8 });
    proof {
        assert(v@ =~= block0_rules());
    }
    v
}

fn block1_vec() -> (r: Vec<Rule>)
    ensures
        r@ == block1_rules(),
{
    let mut v: Vec<Rule> = Vec::new();
    v.push(Rule { pattern: Pattern { mask: 0xFF, bits: 0x76 }, operands: Arity::Zero, kind: RuleKind::Unsupported });
    v.push(Rule { pattern: Pattern { mask: 0xC0, bits: 0x40 }, operands: Arity::Zero, kind: RuleKind::LdR8R8 });
    proof {
        assert(v@ =~= block1_rules());
    }
    v
}

fn block2_vec() -> (r: Vec<Rule>)
    ensures
        r@ == block2_rules(),
{
    let mut v: Vec<Rule> = Vec::new();
    v.push(Rule { pattern: Pattern { mask: 0xF8, bits: 0x80 }, operands: Arity::Zero, kind: RuleKind::AddAR8 });
    v.push(Rule { pattern: Pattern { mask: 0xF8, bits: 0x88 }, operands: Arity::Zero, kind: RuleKind::AdcAR8 });
    v.push(Rule { pattern: Pattern { mask: 0xF8, bits: 0x90 }, operands: Arity::Zero, kind: RuleKind::SubAR8 });
    v.push(Rule { pattern: Pattern { mask: 0xF8, bits: 0x98 }, operands: Arity::Zero, kind: RuleKind::SbcAR8 });
    v.push(Rule { pattern: Pattern { mask: 0xF8, bits: 0xA0 }, operands: Arity::Zero, kind: RuleKind::AndAR8 });
    v.push(Rule { pattern: Pattern { mask: 0xF8, bits: 0xA8 }, operands: Arity::Zero, kind: RuleKind::XorAR8 });
    v.push(Rule { pattern: Pattern { mask: 0xF8, bits: 0xB0 }, operands: Arity::Zero, kind: RuleKind::OrAR8 });
    v.push(Rule { pattern: Pattern { mask: 0xF8, bits: 0xB8 }, operands: Arity::Zero, kind: RuleKind::CpAR8 });
    proof {
        assert(v@ =~= block2_rules());
    }
    v
}

fn block3_vec() -> (r: Vec<Rule>)
    ensures
        r@ == block3_rules(),
{
    let mut v: Vec<Rule> = Vec::new();
    v.push(Rule { pattern: Pattern { mask: 0xFF, bits: 0xC6 }, operands: Arity::One, kind: RuleKind::Unsupported });
    v.push(Rule { pattern: Pattern { mask: 0xFF, bits: 0xCE }, operands: Arity::One, kind: RuleKind::Unsupported });
    v.push(Rule { pattern: Pattern { mask: 0xFF, bits: 0xD6 }, operands: Arity::One, kind: RuleKind::Unsupported });
    v.push(Rule { pattern: Pattern { mask: 0xFF, bits: 0xDE }, operands: Arity::One, kind: RuleKind::Unsupported });
    v.push(Rule { pattern: Pattern { mask: 0xFF, bits: 0xE6 }, operands: Arity::One, kind: RuleKind::Unsupported });
    v.push(Rule { pattern: Pattern { mask: 0xFF, bits: 0xEE }, operands: Arity::One, kind: RuleKind::Unsupported });
    v.push(Rule { pattern: Pattern { mask: 0xFF, bits: 0xF6 }, operands: Arity::One, kind: RuleKind::Unsupported });
    v.push(Rule { pattern: Pattern { mask: 0xFF, bits: 0xFE }, operands: Arity::One, kind: RuleKind::CpAImm8 });
    v.push(Rule { pattern: Pattern { mask: 0xFF, bits: 0xC9 }, operands: Arity::Zero, kind: RuleKind::Unsupported });
    v.push(Rule { pattern: Pattern { mask: 0xFF, bits: 0xD9 }, operands: Arity::Zero, kind: RuleKind::Unsupported });
    v.push(Rule { pattern: Pattern { mask: 0xFF, bits: 0xC3 }, operands: Arity::Two, kind: RuleKind::JpImm16 });
    v.push(Rule { pattern: Pattern { mask: 0xFF, bits: 0xE9 }, operands: Arity::Zero, kind: RuleKind::Unsupported });
    v.push(Rule { pattern: Pattern { mask: 0xFF, bits: 0xCD }, operands: Arity::Two, kind: RuleKind::Unsupported });
    v.push(Rule { pattern: Pattern { mask: 0xFF, bits: 0xCB }, operands: Arity::One, kind: RuleKind::Unsupported });
    v.push(Rule { pattern: Pattern { mask: 0xFF, bits: 0xE2 }, operands: Arity::Zero, kind: RuleKind::Unsupported });
    v.push(Rule { pattern: Pattern { mask: 0xFF, bits: 0xE0 }, operands: Arity::One, kind: RuleKind::Unsupported });
    v.push(Rule { pattern: Pattern { mask: 0xFF, bits: 0xEA }, operands: Arity::Two, kind: RuleKind::LdMemImm16A });
    v.push(Rule { pattern: Pattern { mask: 0xFF, bits: 0xF2 }, operands: Arity::Zero, kind: RuleKind::Unsupported });
    v.push(Rule { pattern: Pattern { mask: 0xFF, bits: 0xF0 }, operands: Arity::One, kind: RuleKind::Unsupported });
    v.push(Rule { pattern: Pattern { mask: 0xFF, bits: 0xFA }, operands: Arity::Two, kind: RuleKind::LdAMemImm16 });
    v.push(Rule { pattern: Pattern { mask: 0xFF, bits: 0xE8 }, operands: Arity::One, kind: RuleKind::Unsupported });
    v.push(Rule { pattern: Pattern { mask: 0xFF, bits: 0xF8 }, operands: Arity::One, kind: RuleKind::Unsupported });
    v.push(Rule { pattern: Pattern { mask: 0xFF, bits: 0xF9 }, operands: Arity::Zero, kind: RuleKind::Unsupported });
    v.push(Rule { pattern: Pattern { mask: 0xFF, bits: 0xF3 }, operands: Arity::Zero, kind: RuleKind::Unsupported });
    v.push(Rule { pattern: Pattern { mask: 0xFF, bits: 0xFB }, operands: Arity::Zero, kind: RuleKind::Unsupported });
    v.push(Rule { pattern: Pattern { mask: 0xE7, bits: 0xC0 }, operands: Arity::Zero, kind: RuleKind::Unsupported });
    v.push(Rule { pattern: Pattern { mask: 0xE7, bits: 0xC2 }, operands: Arity::Two, kind: RuleKind::JpCondImm16 });
    v.push(Rule { pattern: Pattern { mask: 0xE7, bits: 0xC4 }, operands: Arity::Two, kind: RuleKind::Unsupported });
    v.push(Rule { pattern: Pattern { mask: 0xCF, bits: 0xC1 }, operands: Arity::Zero, kind: RuleKind::Unsupported });
    v.push(Rule { pattern: Pattern { mask: 0xCF, bits: 0xC5 }, operands: Arity::Zero, kind: RuleKind::Unsupported });
    v.push(Rule { pattern: Pattern { mask: 0xC7, bits: 0xC7 }, operands: Arity::Zero, kind: RuleKind::Unsupported });
    proof {
        assert(v@ =~= block3_rules());
    }
    v
}

/// Build the ordered rule set of one block.
pub fn rules_for_block(block: u8) -> (r: Vec<Rule>)
    ensures
        r@ == rules(block),
{
    if block == 0 {
        block0_vec()
    } else if block == 1 {
        block1_vec()
    } else if block == 2 {
        block2_vec()
    } else if block == 3 {
        block3_vec()
    } else {
        let v: Vec<Rule> = Vec::new();
        proof {
            assert(v@ =~= rules(block));
        }
        v
    }
}

/// Scan the rule list in priority order and return the first match.
pub fn find_rule(rs: &Vec<Rule>, opcode: u8) -> (r: Option<Rule>)
    ensures
        r == first_match(rs@, opcode),
{
    let mut i: usize = 0;
    while i < rs.len()
        invariant
            i <= rs.len(),
            forall|j: int| 0 <= j < i ==> !rule_matches(rs@[j], opcode),
        decreases rs.len() - i,
    {
        let rule = rs[i];
        if rule.pattern.is_match(opcode) {
            proof {
                lemma_first_match_at(rs@, opcode, i as int);
            }
            return Some(rule);
        }
        i = i + 1;
    }
    proof {
        lemma_first_match_none(rs@, opcode);
    }
    None
}

} // verus!
