use evm_asm::disasm::{decode_hex, disassemble, operand_text, ASMError, InstructionIterator};
use evm_asm::hexcode::HexError;
use evm_asm::opcodes::OpCode;

fn offsets(code: &[u8]) -> Vec<u64> {
    disassemble(code).0.iter().map(|i| i.0).collect()
}

#[test]
fn push_push_add_stop() {
    let code = [0x60u8, 0x01, 0x60, 0x02, 0x01, 0x00];
    let (instrs, err) = disassemble(&code);
    assert_eq!(err, None);
    assert_eq!(instrs.len(), 4);
    assert_eq!(instrs[0], (0, OpCode::PUSH1, &[0x01u8][..]));
    assert_eq!(instrs[1], (2, OpCode::PUSH1, &[0x02u8][..]));
    assert_eq!(instrs[2], (4, OpCode::ADD, &[][..]));
    assert_eq!(instrs[3], (5, OpCode::STOP, &[][..]));
}

#[test]
fn lone_push1_is_incomplete() {
    let (instrs, err) = disassemble(&[0x60]);
    assert!(instrs.is_empty());
    assert_eq!(err, Some(ASMError::IncompletePushInstruction(0)));
}

#[test]
fn unassigned_byte_is_unknown() {
    let (instrs, err) = disassemble(&[0x0c]);
    assert!(instrs.is_empty());
    assert_eq!(err, Some(ASMError::OpCodeNotExist(0x0c)));
}

#[test]
fn hex_push0_has_no_operand() {
    let bytes = decode_hex("5f").unwrap();
    assert_eq!(bytes, vec![0x5f]);
    let (instrs, err) = disassemble(&bytes);
    assert_eq!(err, None);
    assert_eq!(instrs, vec![(0, OpCode::PUSH0, &[][..])]);
}

#[test]
fn empty_input_decodes_to_nothing() {
    let (instrs, err) = disassemble(&[]);
    assert!(instrs.is_empty());
    assert_eq!(err, None);
}

#[test]
fn operandless_bytes_get_consecutive_offsets() {
    let code = [0x01u8, 0x5f, 0x80, 0x90, 0x00, 0xff];
    let (instrs, err) = disassemble(&code);
    assert_eq!(err, None);
    assert_eq!(offsets(&code), vec![0, 1, 2, 3, 4, 5]);
    assert!(instrs.iter().all(|i| i.2.is_empty()));
    assert_eq!(instrs[1].1, OpCode::PUSH0);
    assert_eq!(instrs[5].1, OpCode::SELFDESTRUCT);
}

#[test]
fn push_with_full_immediate() {
    let mut code = vec![0x7fu8];
    code.extend((1..=32).map(|b| b as u8));
    let (instrs, err) = disassemble(&code);
    assert_eq!(err, None);
    assert_eq!(instrs.len(), 1);
    assert_eq!(instrs[0].0, 0);
    assert_eq!(instrs[0].1, OpCode::PUSH32);
    assert_eq!(instrs[0].2, &code[1..]);

    let (instrs, err) = disassemble(&[0x61, 0xbe, 0xef]);
    assert_eq!(err, None);
    assert_eq!(instrs, vec![(0, OpCode::PUSH2, &[0xbeu8, 0xef][..])]);
}

#[test]
fn truncated_push_after_prefix() {
    let (instrs, err) = disassemble(&[0x00, 0x01, 0x62, 0xaa, 0xbb]);
    assert_eq!(instrs, vec![(0, OpCode::STOP, &[][..]), (1, OpCode::ADD, &[][..])]);
    assert_eq!(err, Some(ASMError::IncompletePushInstruction(2)));
}

#[test]
fn unknown_byte_after_prefix() {
    // The first 0x0c is an operand byte and is not read as an opcode.
    let (instrs, err) = disassemble(&[0x00, 0x60, 0x0c, 0x0c, 0x00]);
    assert_eq!(instrs, vec![(0, OpCode::STOP, &[][..]), (1, OpCode::PUSH1, &[0x0cu8][..])]);
    assert_eq!(err, Some(ASMError::OpCodeNotExist(0x0c)));
}

#[test]
fn two_decoders_agree() {
    let code = [0x60u8, 0x2a, 0x5b, 0x56, 0x21, 0x00];
    let mut a = InstructionIterator::new(&code);
    let mut b = InstructionIterator::new(&code);
    loop {
        let x = a.next();
        let y = b.next();
        assert_eq!(x, y);
        if x.is_none() {
            break;
        }
    }
    assert_eq!(a.error(), b.error());
    assert_eq!(a.error(), Some(ASMError::OpCodeNotExist(0x21)));
    assert_eq!(disassemble(&code), disassemble(&code));
}

#[test]
fn decoder_stops_for_good_after_an_error() {
    let code = [0x01u8, 0xef, 0x01, 0x02];
    let mut it = InstructionIterator::new(&code);
    assert_eq!(it.next(), Some((0, OpCode::ADD, &[][..])));
    assert_eq!(it.error(), None);
    assert_eq!(it.next(), None);
    assert_eq!(it.error(), Some(ASMError::OpCodeNotExist(0xef)));
    assert_eq!(it.next(), None);
    assert_eq!(it.next(), None);
    assert_eq!(it.error(), Some(ASMError::OpCodeNotExist(0xef)));
}

#[test]
fn decoder_stays_exhausted_at_the_end() {
    let code = [0x60u8, 0x01];
    let mut it = InstructionIterator::new(&code);
    assert_eq!(it.next(), Some((0, OpCode::PUSH1, &[0x01u8][..])));
    assert_eq!(it.next(), None);
    assert_eq!(it.next(), None);
    assert_eq!(it.error(), None);
}

#[test]
fn hex_text_in_either_case() {
    assert_eq!(decode_hex("6A01fF").unwrap(), vec![0x6a, 0x01, 0xff]);
    assert_eq!(decode_hex("").unwrap(), Vec::<u8>::new());
}

#[test]
fn hex_text_of_odd_length() {
    assert_eq!(decode_hex("123"), Err(ASMError::HexDecodeError(HexError::OddLength)));
}

#[test]
fn hex_text_with_a_non_digit() {
    assert_eq!(
        decode_hex("0g"),
        Err(ASMError::HexDecodeError(HexError::InvalidHexCharacter { c: 'g', index: 1 }))
    );
    assert_eq!(
        decode_hex("zz12"),
        Err(ASMError::HexDecodeError(HexError::InvalidHexCharacter { c: 'z', index: 0 }))
    );
}

#[test]
fn operand_display_text() {
    assert_eq!(operand_text(&[]), None);
    assert_eq!(operand_text(&[0x01, 0xab, 0x00]), Some("01ab00".to_string()));
}

#[test]
fn sample_program_decodes() {
    let text = "6000808080739caf77e5b32583fd5aee70acef5deaed67059622602b5a03f41580808073c3eba2e7e18ffa583e05fad4f2fa1f63374a0fe0602b5a03f415";
    let bytes = decode_hex(text).unwrap();
    let (instrs, err) = disassemble(&bytes);
    assert_eq!(err, None);
    assert_eq!(instrs[0], (0, OpCode::PUSH1, &[0x00u8][..]));
    assert_eq!(instrs[4].0, 5);
    assert_eq!(instrs[4].1, OpCode::PUSH20);
    assert_eq!(instrs[5], (26, OpCode::PUSH1, &[0x2bu8][..]));
    assert_eq!(instrs.last().unwrap().1, OpCode::ISZERO);
}
