use gbdis::decode::decode_instruction;
use gbdis::DecodeError;
use gbdis::Instruction;
use gbdis::Mnemonic;
use gbdis::Operand;
use gbdis::Pattern;
use gbdis::Reg16;
use gbdis::Reg16Mem;
use gbdis::Reg8;

#[test]
fn nop_decodes_everywhere() {
    let expected = Instruction {
        mnemonic: Mnemonic::Nop,
        op1: None,
        op2: None,
        encoded_length: 1,
    };
    assert_eq!(decode_instruction(&[0x00], 0), Ok(expected));
    assert_eq!(decode_instruction(&[0x11, 0x22, 0x00], 2), Ok(expected));
}

#[test]
fn ld_r16_imm16_concrete() {
    let r = decode_instruction(&[0x01, 0x34, 0x12], 0).unwrap();
    assert_eq!(r.mnemonic, Mnemonic::Ld);
    assert_eq!(r.op1, Some(Operand::R16(Reg16::Bc)));
    assert_eq!(r.op2, Some(Operand::Imm16(0x1234)));
    assert_eq!(r.encoded_length, 3);
}

#[test]
fn ld_r16_imm16_all_pairs_share_shape() {
    let pairs = [
        (0x01u8, Reg16::Bc),
        (0x11u8, Reg16::De),
        (0x21u8, Reg16::Hl),
        (0x31u8, Reg16::Sp),
    ];
    for (opcode, pair) in pairs {
        let r = decode_instruction(&[opcode, 0xCD, 0xAB], 0).unwrap();
        assert_eq!(r.mnemonic, Mnemonic::Ld);
        assert_eq!(r.op1, Some(Operand::R16(pair)));
        assert_eq!(r.op2, Some(Operand::Imm16(0xABCD)));
        assert_eq!(r.encoded_length, 3);
    }
}

#[test]
fn jp_imm16_concrete() {
    let r = decode_instruction(&[0xC3, 0x00, 0x02], 0).unwrap();
    assert_eq!(r.mnemonic, Mnemonic::Jp);
    assert_eq!(r.op1, Some(Operand::Imm16(0x0200)));
    assert_eq!(r.op2, None);
    assert_eq!(r.encoded_length, 3);
}

#[test]
fn jp_conditional_concrete() {
    let r = decode_instruction(&[0xC2, 0x05, 0x00], 0).unwrap();
    assert_eq!(r.mnemonic, Mnemonic::Jp);
    assert_eq!(r.op1, Some(Operand::Cond(gbdis::Condition::NotZero)));
    assert_eq!(r.op2, Some(Operand::Imm16(0x0005)));
    assert_eq!(r.encoded_length, 3);

    let r = decode_instruction(&[0xDA, 0x10, 0x00], 0).unwrap();
    assert_eq!(r.op1, Some(Operand::Cond(gbdis::Condition::Carry)));
}

#[test]
fn cp_imm8_concrete() {
    let r = decode_instruction(&[0xFE, 0x10], 0).unwrap();
    assert_eq!(r.mnemonic, Mnemonic::Cp);
    assert_eq!(r.op1, Some(Operand::R8(Reg8::A)));
    assert_eq!(r.op2, Some(Operand::Imm8(0x10)));
    assert_eq!(r.encoded_length, 2);
}

#[test]
fn halt_is_resolved_before_ld_r8_r8() {
    assert_eq!(
        decode_instruction(&[0x76], 0),
        Err(DecodeError::UnsupportedInstruction {
            opcode: 0x76,
            block: 1
        })
    );
}

#[test]
fn ld_r8_r8_decodes_both_registers() {
    let r = decode_instruction(&[0x78], 0).unwrap();
    assert_eq!(r.mnemonic, Mnemonic::Ld);
    assert_eq!(r.op1, Some(Operand::R8(Reg8::A)));
    assert_eq!(r.op2, Some(Operand::R8(Reg8::B)));
    assert_eq!(r.encoded_length, 1);

    let r = decode_instruction(&[0x41], 0).unwrap();
    assert_eq!(r.op1, Some(Operand::R8(Reg8::B)));
    assert_eq!(r.op2, Some(Operand::R8(Reg8::C)));
}

#[test]
fn unknown_opcodes_report_the_byte() {
    assert_eq!(
        decode_instruction(&[0xD3], 0),
        Err(DecodeError::UnknownOpcode { opcode: 0xD3 })
    );
    assert_eq!(
        decode_instruction(&[0xED], 0),
        Err(DecodeError::UnknownOpcode { opcode: 0xED })
    );
}

#[test]
fn truncated_reads_are_reported() {
    assert_eq!(
        decode_instruction(&[], 0),
        Err(DecodeError::TruncatedInstruction)
    );
    assert_eq!(
        decode_instruction(&[0x01, 0x34], 0),
        Err(DecodeError::TruncatedInstruction)
    );
    assert_eq!(
        decode_instruction(&[0x3E], 0),
        Err(DecodeError::TruncatedInstruction)
    );
    assert_eq!(
        decode_instruction(&[0x00], 5),
        Err(DecodeError::TruncatedInstruction)
    );
}

#[test]
fn unsupported_names_opcode_and_block() {
    assert_eq!(
        decode_instruction(&[0xC6, 0x01], 0),
        Err(DecodeError::UnsupportedInstruction {
            opcode: 0xC6,
            block: 3
        })
    );
    assert_eq!(
        decode_instruction(&[0xFF], 0),
        Err(DecodeError::UnsupportedInstruction {
            opcode: 0xFF,
            block: 3
        })
    );
    assert_eq!(
        decode_instruction(&[0x18, 0x05], 0),
        Err(DecodeError::UnsupportedInstruction {
            opcode: 0x18,
            block: 0
        })
    );
    assert_eq!(
        decode_instruction(&[0x10], 0),
        Err(DecodeError::UnsupportedInstruction {
            opcode: 0x10,
            block: 0
        })
    );
}

#[test]
fn alu_register_operations() {
    let r = decode_instruction(&[0xB1], 0).unwrap();
    assert_eq!(r.mnemonic, Mnemonic::Or);
    assert_eq!(r.op1, Some(Operand::R8(Reg8::A)));
    assert_eq!(r.op2, Some(Operand::R8(Reg8::C)));
    assert_eq!(r.encoded_length, 1);

    let r = decode_instruction(&[0x80], 0).unwrap();
    assert_eq!(r.mnemonic, Mnemonic::Add);
    assert_eq!(r.op2, Some(Operand::R8(Reg8::B)));

    let r = decode_instruction(&[0x96], 0).unwrap();
    assert_eq!(r.mnemonic, Mnemonic::Sub);
    assert_eq!(r.op2, Some(Operand::R8(Reg8::HlInd)));
}

#[test]
fn inc_dec_registers() {
    let r = decode_instruction(&[0x3C], 0).unwrap();
    assert_eq!(r.mnemonic, Mnemonic::Inc);
    assert_eq!(r.op1, Some(Operand::R8(Reg8::A)));

    let r = decode_instruction(&[0x05], 0).unwrap();
    assert_eq!(r.mnemonic, Mnemonic::Dec);
    assert_eq!(r.op1, Some(Operand::R8(Reg8::B)));

    let r = decode_instruction(&[0x13], 0).unwrap();
    assert_eq!(r.mnemonic, Mnemonic::Inc);
    assert_eq!(r.op1, Some(Operand::R16(Reg16::De)));

    let r = decode_instruction(&[0x3B], 0).unwrap();
    assert_eq!(r.mnemonic, Mnemonic::Dec);
    assert_eq!(r.op1, Some(Operand::R16(Reg16::Sp)));
}

#[test]
fn add_hl_r16() {
    let r = decode_instruction(&[0x29], 0).unwrap();
    assert_eq!(r.mnemonic, Mnemonic::Add);
    assert_eq!(r.op1, Some(Operand::R16(Reg16::Hl)));
    assert_eq!(r.op2, Some(Operand::R16(Reg16::Hl)));
}

#[test]
fn rotates_and_flag_operations() {
    for (opcode, mnemonic) in [
        (0x07u8, Mnemonic::Rlca),
        (0x0Fu8, Mnemonic::Rrca),
        (0x17u8, Mnemonic::Rla),
        (0x1Fu8, Mnemonic::Rra),
        (0x27u8, Mnemonic::Daa),
        (0x2Fu8, Mnemonic::Cpl),
        (0x37u8, Mnemonic::Scf),
        (0x3Fu8, Mnemonic::Ccf),
    ] {
        let r = decode_instruction(&[opcode], 0).unwrap();
        assert_eq!(r.mnemonic, mnemonic);
        assert_eq!(r.op1, None);
        assert_eq!(r.op2, None);
        assert_eq!(r.encoded_length, 1);
    }
}

#[test]
fn ld_imm16_sp() {
    let r = decode_instruction(&[0x08, 0xCD, 0xAB], 0).unwrap();
    assert_eq!(r.mnemonic, Mnemonic::Ld);
    assert_eq!(r.op1, Some(Operand::MemImm16(0xABCD)));
    assert_eq!(r.op2, Some(Operand::R16(Reg16::Sp)));
    assert_eq!(r.encoded_length, 3);
}

#[test]
fn ld_absolute_memory() {
    let r = decode_instruction(&[0xEA, 0x44, 0xFF], 0).unwrap();
    assert_eq!(r.mnemonic, Mnemonic::Ld);
    assert_eq!(r.op1, Some(Operand::MemImm16(0xFF44)));
    assert_eq!(r.op2, Some(Operand::R8(Reg8::A)));

    let r = decode_instruction(&[0xFA, 0x26, 0xFF], 0).unwrap();
    assert_eq!(r.op1, Some(Operand::R8(Reg8::A)));
    assert_eq!(r.op2, Some(Operand::MemImm16(0xFF26)));
}

#[test]
fn ld_through_register_pairs() {
    let r = decode_instruction(&[0x02], 0).unwrap();
    assert_eq!(r.op1, Some(Operand::R16Mem(Reg16Mem::Bc)));
    assert_eq!(r.op2, Some(Operand::R8(Reg8::A)));

    let r = decode_instruction(&[0x2A], 0).unwrap();
    assert_eq!(r.op1, Some(Operand::R8(Reg8::A)));
    assert_eq!(r.op2, Some(Operand::R16Mem(Reg16Mem::HlInc)));

    let r = decode_instruction(&[0x32], 0).unwrap();
    assert_eq!(r.op1, Some(Operand::R16Mem(Reg16Mem::HlDec)));
    assert_eq!(r.op2, Some(Operand::R8(Reg8::A)));
}

#[test]
fn ld_r8_imm8() {
    let r = decode_instruction(&[0x3E, 0x55], 0).unwrap();
    assert_eq!(r.mnemonic, Mnemonic::Ld);
    assert_eq!(r.op1, Some(Operand::R8(Reg8::A)));
    assert_eq!(r.op2, Some(Operand::Imm8(0x55)));
    assert_eq!(r.encoded_length, 2);

    let r = decode_instruction(&[0x36, 0x77], 0).unwrap();
    assert_eq!(r.op1, Some(Operand::R8(Reg8::HlInd)));
    assert_eq!(r.op2, Some(Operand::Imm8(0x77)));
}

#[test]
fn decoding_is_position_independent() {
    for b in 0u8..=255 {
        let at_zero = decode_instruction(&[b, 0x34, 0x12], 0);
        let shifted = decode_instruction(&[0xAA, b, 0x34, 0x12], 1);
        assert_eq!(at_zero, shifted);
    }
}

#[test]
fn every_byte_decodes_to_exactly_one_outcome() {
    for b in 0u8..=255 {
        let r = decode_instruction(&[b, 0x00, 0x00], 0);
        match r {
            Ok(i) => {
                assert!(i.encoded_length >= 1 && i.encoded_length <= 3);
            }
            Err(e) => {
                assert!(matches!(
                    e,
                    DecodeError::UnknownOpcode { .. }
                        | DecodeError::UnsupportedInstruction { .. }
                ));
            }
        }
        assert_eq!(r, decode_instruction(&[b, 0x00, 0x00], 0));
    }
}

#[test]
fn block1_wildcard_bytes_share_shape_except_halt() {
    for b in 0x40u8..=0x7F {
        let r = decode_instruction(&[b], 0);
        if b == 0x76 {
            assert_eq!(
                r,
                Err(DecodeError::UnsupportedInstruction {
                    opcode: 0x76,
                    block: 1
                })
            );
        } else {
            let i = r.unwrap();
            assert_eq!(i.mnemonic, Mnemonic::Ld);
            assert_eq!(i.encoded_length, 1);
            assert!(matches!(i.op1, Some(Operand::R8(_))));
            assert!(matches!(i.op2, Some(Operand::R8(_))));
        }
    }
}

#[test]
fn block2_wildcard_bytes_share_shape_per_rule() {
    let mnemonics = [
        Mnemonic::Add,
        Mnemonic::Adc,
        Mnemonic::Sub,
        Mnemonic::Sbc,
        Mnemonic::And,
        Mnemonic::Xor,
        Mnemonic::Or,
        Mnemonic::Cp,
    ];
    for b in 0x80u8..=0xBF {
        let i = decode_instruction(&[b], 0).unwrap();
        assert_eq!(i.mnemonic, mnemonics[((b >> 3) & 7) as usize]);
        assert_eq!(i.encoded_length, 1);
        assert_eq!(i.op1, Some(Operand::R8(Reg8::A)));
    }
}

#[test]
fn ld_r8_imm8_wildcard_bytes_share_shape() {
    for code in 0u8..8 {
        let opcode = (code << 3) | 0x06;
        let i = decode_instruction(&[opcode, 0x42], 0).unwrap();
        assert_eq!(i.mnemonic, Mnemonic::Ld);
        assert_eq!(i.encoded_length, 2);
        assert_eq!(i.op2, Some(Operand::Imm8(0x42)));
    }
}

#[test]
fn pattern_matching_literals_and_wildcards() {
    let wild = Pattern {
        mask: 0xCF,
        bits: 0x01,
    };
    assert!(wild.is_match(0x01));
    assert!(wild.is_match(0x11));
    assert!(wild.is_match(0x21));
    assert!(wild.is_match(0x31));
    assert!(!wild.is_match(0x02));
    assert!(!wild.is_match(0x41));

    let literal = Pattern {
        mask: 0xFF,
        bits: 0x76,
    };
    assert!(literal.is_match(0x76));
    assert!(!literal.is_match(0x77));
    assert!(!literal.is_match(0x36));
}
