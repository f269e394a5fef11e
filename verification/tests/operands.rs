use gbdis::CartridgeReader;
use gbdis::Condition;
use gbdis::DecodeError;
use gbdis::MemName;
use gbdis::Reg16;
use gbdis::Reg16Mem;
use gbdis::Reg8;

#[test]
fn reader_wraps_the_image() {
    let reader = CartridgeReader::new(vec![0x01, 0x34, 0x12]);
    assert_eq!(reader.len(), 3);
    assert_eq!(reader.bytes(), &[0x01, 0x34, 0x12]);
}

#[test]
fn read_instruction_and_immediates() {
    let reader = CartridgeReader::new(vec![0x3E, 0x55, 0x99]);
    assert_eq!(reader.read_instruction(0), 0x3E);
    assert_eq!(reader.read_instruction(2), 0x99);
    assert_eq!(reader.read_imm8(0), 0x55);
    assert_eq!(reader.read_imm8(1), 0x99);
}

#[test]
fn read_imm16_is_little_endian() {
    let reader = CartridgeReader::new(vec![0x00, 0x34, 0x12]);
    assert_eq!(reader.read_imm16(0), 0x1234);
    let reader = CartridgeReader::new(vec![0xC3, 0xFF, 0x00, 0x00]);
    assert_eq!(reader.read_imm16(0), 0x00FF);
}

#[test]
fn decode_r8_covers_all_codes() {
    let reader = CartridgeReader::new(Vec::new());
    assert_eq!(reader.decode_r8(0), Ok(Reg8::B));
    assert_eq!(reader.decode_r8(1), Ok(Reg8::C));
    assert_eq!(reader.decode_r8(2), Ok(Reg8::D));
    assert_eq!(reader.decode_r8(3), Ok(Reg8::E));
    assert_eq!(reader.decode_r8(4), Ok(Reg8::H));
    assert_eq!(reader.decode_r8(5), Ok(Reg8::L));
    assert_eq!(reader.decode_r8(6), Ok(Reg8::HlInd));
    assert_eq!(reader.decode_r8(7), Ok(Reg8::A));
    assert_eq!(
        reader.decode_r8(8),
        Err(DecodeError::InvalidOperandCode { code: 8 })
    );
    assert_eq!(
        reader.decode_r8(255),
        Err(DecodeError::InvalidOperandCode { code: 255 })
    );
}

#[test]
fn decode_r16_covers_all_codes() {
    let reader = CartridgeReader::new(Vec::new());
    assert_eq!(reader.decode_r16(0), Ok(Reg16::Bc));
    assert_eq!(reader.decode_r16(1), Ok(Reg16::De));
    assert_eq!(reader.decode_r16(2), Ok(Reg16::Hl));
    assert_eq!(reader.decode_r16(3), Ok(Reg16::Sp));
    assert_eq!(
        reader.decode_r16(4),
        Err(DecodeError::InvalidOperandCode { code: 4 })
    );
}

#[test]
fn decode_r16mem_keeps_post_increment_forms() {
    let reader = CartridgeReader::new(Vec::new());
    assert_eq!(reader.decode_r16mem(0), Ok(Reg16Mem::Bc));
    assert_eq!(reader.decode_r16mem(1), Ok(Reg16Mem::De));
    assert_eq!(reader.decode_r16mem(2), Ok(Reg16Mem::HlInc));
    assert_eq!(reader.decode_r16mem(3), Ok(Reg16Mem::HlDec));
    assert_eq!(
        reader.decode_r16mem(4),
        Err(DecodeError::InvalidOperandCode { code: 4 })
    );
}

#[test]
fn decode_condition_covers_all_codes() {
    let reader = CartridgeReader::new(Vec::new());
    assert_eq!(reader.decode_condition(0), Ok(Condition::NotZero));
    assert_eq!(reader.decode_condition(1), Ok(Condition::Zero));
    assert_eq!(reader.decode_condition(2), Ok(Condition::NotCarry));
    assert_eq!(reader.decode_condition(3), Ok(Condition::Carry));
    assert_eq!(
        reader.decode_condition(4),
        Err(DecodeError::InvalidOperandCode { code: 4 })
    );
}

#[test]
fn decode_memory_address_knows_the_fixed_set() {
    let reader = CartridgeReader::new(Vec::new());
    assert_eq!(reader.decode_memory_address(0x90), Ok(MemName::CartridgeRom));
    assert_eq!(reader.decode_memory_address(0xFF26), Ok(MemName::Nr52));
    assert_eq!(reader.decode_memory_address(0xFF40), Ok(MemName::LcdControl));
    assert_eq!(reader.decode_memory_address(0xFF44), Ok(MemName::Ly));
    assert_eq!(reader.decode_memory_address(0xFF47), Ok(MemName::Bgp));
    assert_eq!(
        reader.decode_memory_address(0x1234),
        Err(DecodeError::UnknownAddress { address: 0x1234 })
    );
}
