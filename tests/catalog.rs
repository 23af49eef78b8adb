use evm_asm::opcodes::OpCode;

#[test]
fn every_assigned_byte_round_trips() {
    let mut assigned = 0;
    for b in 0..=255u8 {
        if let Some(op) = OpCode::from_byte(b) {
            assert_eq!(op.byte(), b);
            assigned += 1;
        }
    }
    assert_eq!(assigned, 144);
}

#[test]
fn gaps_are_unassigned() {
    for b in [0x0cu8, 0x1e, 0x21, 0x49, 0x5c, 0xa5, 0xef, 0xf6, 0xfb] {
        assert_eq!(OpCode::from_byte(b), None);
    }
}

#[test]
fn push_family() {
    let pushes: Vec<u8> = (0..=255u8)
        .filter(|b| OpCode::from_byte(*b).map_or(false, |op| op.is_push()))
        .collect();
    assert_eq!(pushes, (0x60..=0x7fu8).collect::<Vec<u8>>());
    assert!(!OpCode::PUSH0.is_push());
    assert!(!OpCode::DUP1.is_push());
    assert_eq!(OpCode::PUSH1.push_size(), 1);
    assert_eq!(OpCode::PUSH20.push_size(), 20);
    assert_eq!(OpCode::PUSH32.push_size(), 32);
}

#[test]
fn mnemonics() {
    assert_eq!(OpCode::STOP.name(), "STOP");
    assert_eq!(OpCode::PUSH0.name(), "PUSH0");
    assert_eq!(OpCode::from_byte(0x7f).unwrap().name(), "PUSH32");
    assert_eq!(OpCode::from_byte(0x20).unwrap().name(), "KECCAK256");
    assert_eq!(OpCode::from_byte(0xfa).unwrap().name(), "STATICCALL");
}
