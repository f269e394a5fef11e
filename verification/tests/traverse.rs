use gbdis::disassemble;
use gbdis::traverse::control_flow_effect;
use gbdis::Condition;
use gbdis::ControlFlowEffect;
use gbdis::DecodeError;
use gbdis::Instruction;
use gbdis::Mnemonic;
use gbdis::Operand;
use gbdis::Reg16;
use gbdis::VisitedMap;
use gbdis::ENTRY_ADDRESS;

#[test]
fn jp_enqueues_exactly_the_target() {
    let mut image = vec![0x00u8; 0x203];
    image[0] = 0xC3;
    image[1] = 0x00;
    image[2] = 0x02;
    image[0x200] = 0xC3;
    image[0x201] = 0x00;
    image[0x202] = 0x00;
    let result = disassemble(&image, 0);
    assert_eq!(result.num_entries(), 2);
    let jp = result.get(0).unwrap().unwrap();
    assert_eq!(jp.mnemonic, Mnemonic::Jp);
    assert_eq!(jp.op1, Some(Operand::Imm16(0x0200)));
    assert!(result.get(0x200).is_some());
    assert!(result.get(3).is_none());
    assert!(result.get(1).is_none());
}

#[test]
fn conditional_jump_visits_target_and_fallthrough() {
    let image = [0xC2u8, 0x05, 0x00, 0x00, 0xFF, 0xFF];
    let result = disassemble(&image, 0);
    assert_eq!(result.num_entries(), 4);
    let jp = result.get(0).unwrap().unwrap();
    assert_eq!(jp.mnemonic, Mnemonic::Jp);
    assert_eq!(jp.op1, Some(Operand::Cond(Condition::NotZero)));
    let fallthrough = result.get(3).unwrap().unwrap();
    assert_eq!(fallthrough.mnemonic, Mnemonic::Nop);
    assert_eq!(
        result.get(5).unwrap(),
        Err(DecodeError::UnsupportedInstruction {
            opcode: 0xFF,
            block: 3
        })
    );
    assert_eq!(
        result.get(4).unwrap(),
        Err(DecodeError::UnsupportedInstruction {
            opcode: 0xFF,
            block: 3
        })
    );
    assert!(result.get(1).is_none());
    assert!(result.get(2).is_none());
}

#[test]
fn sequential_chain_records_trailing_truncation() {
    let image = [0x00u8, 0x00];
    let result = disassemble(&image, 0);
    assert_eq!(result.num_entries(), 3);
    assert_eq!(result.get(0).unwrap().unwrap().mnemonic, Mnemonic::Nop);
    assert_eq!(result.get(1).unwrap().unwrap().mnemonic, Mnemonic::Nop);
    assert_eq!(
        result.get(2).unwrap(),
        Err(DecodeError::TruncatedInstruction)
    );
}

#[test]
fn backward_jump_cycle_terminates() {
    let image = [0xC3u8, 0x00, 0x00];
    let result = disassemble(&image, 0);
    assert_eq!(result.num_entries(), 1);
    assert_eq!(result.get(0).unwrap().unwrap().mnemonic, Mnemonic::Jp);
}

#[test]
fn traversal_is_deterministic() {
    let image = [0xC2u8, 0x05, 0x00, 0x00, 0xFF, 0xFF];
    let first = disassemble(&image, 0);
    let second = disassemble(&image, 0);
    assert_eq!(first, second);
}

#[test]
fn entry_address_seed() {
    assert_eq!(ENTRY_ADDRESS, 0x100);
    let mut image = vec![0xFFu8; 0x103];
    image[0x100] = 0xC3;
    image[0x101] = 0x00;
    image[0x102] = 0x00;
    let result = disassemble(&image, ENTRY_ADDRESS);
    assert_eq!(result.num_entries(), 2);
    assert_eq!(result.get(0x100).unwrap().unwrap().mnemonic, Mnemonic::Jp);
    assert_eq!(
        result.get(0).unwrap(),
        Err(DecodeError::UnsupportedInstruction {
            opcode: 0xFF,
            block: 3
        })
    );
}

#[test]
fn entry_outside_image_is_one_truncated_visit() {
    let result = disassemble(&[], 5);
    assert_eq!(result.num_entries(), 1);
    assert_eq!(
        result.get(5).unwrap(),
        Err(DecodeError::TruncatedInstruction)
    );
}

#[test]
fn unknown_opcode_is_recorded_not_swallowed() {
    let result = disassemble(&[0xD3], 0);
    assert_eq!(result.num_entries(), 1);
    assert_eq!(
        result.get(0).unwrap(),
        Err(DecodeError::UnknownOpcode { opcode: 0xD3 })
    );
}

#[test]
fn entry_iteration_covers_the_map() {
    let image = [0x00u8, 0x00];
    let result = disassemble(&image, 0);
    let mut seen = vec![];
    for i in 0..result.num_entries() {
        let (address, _) = result.entry_at(i);
        seen.push(address);
    }
    seen.sort();
    assert_eq!(seen, vec![0, 1, 2]);
}

#[test]
fn empty_visited_map() {
    let map = VisitedMap::new();
    assert_eq!(map.num_entries(), 0);
    assert!(map.get(0).is_none());
    assert!(!map.contains_key(0x100));
}

#[test]
fn control_flow_effect_classification() {
    let nop = Instruction {
        mnemonic: Mnemonic::Nop,
        op1: None,
        op2: None,
        encoded_length: 1,
    };
    assert_eq!(
        control_flow_effect(&nop, 10),
        ControlFlowEffect::Sequential { next: 11 }
    );

    let jp = Instruction {
        mnemonic: Mnemonic::Jp,
        op1: Some(Operand::Imm16(0x0200)),
        op2: None,
        encoded_length: 3,
    };
    assert_eq!(
        control_flow_effect(&jp, 0),
        ControlFlowEffect::Unconditional { target: 0x200 }
    );

    let jp_cond = Instruction {
        mnemonic: Mnemonic::Jp,
        op1: Some(Operand::Cond(Condition::Zero)),
        op2: Some(Operand::Imm16(0x0005)),
        encoded_length: 3,
    };
    assert_eq!(
        control_flow_effect(&jp_cond, 0),
        ControlFlowEffect::Conditional {
            target: 5,
            fallthrough: 3
        }
    );

    let jp_hl = Instruction {
        mnemonic: Mnemonic::Jp,
        op1: Some(Operand::R16(Reg16::Hl)),
        op2: None,
        encoded_length: 1,
    };
    assert_eq!(control_flow_effect(&jp_hl, 0), ControlFlowEffect::Terminal);
}
