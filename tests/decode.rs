use sal_vm::decode::{convert_to_instruction, decode_program, encode, Instruction, OperationType, PrefixType};

#[test]
fn every_byte_round_trips() {
    for b in 0u16..256 {
        let byte = b as u8;
        let ins = convert_to_instruction(byte);
        assert_eq!(encode(ins), byte);
    }
}

#[test]
fn tone_table() {
    assert_eq!(convert_to_instruction(0b1100_0000).tone, PrefixType::PoliteStrong);
    assert_eq!(convert_to_instruction(0b1000_0000).tone, PrefixType::Polite);
    assert_eq!(convert_to_instruction(0b0100_0000).tone, PrefixType::Demanding);
    assert_eq!(convert_to_instruction(0b0000_0000).tone, PrefixType::DemandingStrong);
}

#[test]
fn operation_table() {
    let ops = [
        OperationType::Increment,
        OperationType::To,
        OperationType::Access,
        OperationType::Loop,
        OperationType::BranchIfGreater,
        OperationType::BranchIfZero,
        OperationType::BranchIfEqual,
        OperationType::Jump,
    ];
    for (code, op) in ops.iter().enumerate() {
        let byte = (code as u8) << 3;
        assert_eq!(convert_to_instruction(byte).operation, *op);
    }
}

#[test]
fn specifier_order() {
    let ins = convert_to_instruction(0b0000_0100);
    assert!(ins.s0 && !ins.s1 && !ins.s2);
    let ins = convert_to_instruction(0b0000_0010);
    assert!(!ins.s0 && ins.s1 && !ins.s2);
    let ins = convert_to_instruction(0b0000_0001);
    assert!(!ins.s0 && !ins.s1 && ins.s2);
}

#[test]
fn single_byte_scenario_decodes() {
    let ins = convert_to_instruction(0b1100_0000);
    assert_eq!(
        ins,
        Instruction { tone: PrefixType::PoliteStrong, operation: OperationType::Increment, s0: false, s1: false, s2: false }
    );
}

#[test]
fn decode_program_keeps_order() {
    let p = decode_program(&[0b1001_1000, 0b1001_1100]);
    assert_eq!(p.len(), 2);
    assert_eq!(p[0], Instruction { tone: PrefixType::Polite, operation: OperationType::Loop, s0: false, s1: false, s2: false });
    assert_eq!(p[1], Instruction { tone: PrefixType::Polite, operation: OperationType::Loop, s0: true, s1: false, s2: false });
}

#[test]
fn encode_writes_fields() {
    let ins = Instruction { tone: PrefixType::Demanding, operation: OperationType::Access, s0: true, s1: true, s2: false };
    assert_eq!(encode(ins), 0b0101_0110);
}
