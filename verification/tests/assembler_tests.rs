use evm_core::assembler::{chars_of, is_space_char, push_instruction, Assembler};
use evm_core::error::EVMError;
use evm_core::opcode_table::opcode_name;
use evm_core::opcode::get_opcode_size;
use evm_core::word::Word;

fn invalid_line(result: Result<Vec<u8>, EVMError>) -> String {
    match result {
        Err(EVMError::InvalidAsmToken(line)) => line,
        other => panic!("expected an invalid token, got {:?}", other),
    }
}

#[test]
fn push2_with_two_bytes() {
    let assembler = Assembler::new();
    assert_eq!(assembler.assemble("PUSH2 0x1234").unwrap(), vec![0x61, 0x12, 0x34]);
}

#[test]
fn push1_zero() {
    let assembler = Assembler::new();
    assert_eq!(assembler.assemble("PUSH1 0").unwrap(), vec![0x60, 0x00]);
    assert_eq!(assembler.assemble("PUSH1 0x00").unwrap(), vec![0x60, 0x00]);
}

#[test]
fn short_operand_is_padded_on_the_left() {
    let assembler = Assembler::new();
    assert_eq!(assembler.assemble("PUSH2 0x12").unwrap(), vec![0x61, 0x00, 0x12]);
    assert_eq!(assembler.assemble("PUSH4 1").unwrap(), vec![0x63, 0, 0, 0, 1]);
    let mut expected = vec![0x7f];
    expected.extend(vec![0u8; 31]);
    expected.push(0xab);
    assert_eq!(assembler.assemble("PUSH32 ab").unwrap(), expected);
}

#[test]
fn long_operand_is_refused() {
    let assembler = Assembler::new();
    assert_eq!(invalid_line(assembler.assemble("PUSH1 0x0100")), "PUSH1 0x0100");
    assert_eq!(invalid_line(assembler.assemble("PUSH2 0x123456")), "PUSH2 0x123456");
    let too_long = format!("PUSH32 0x1{}", "0".repeat(64));
    assert_eq!(invalid_line(assembler.assemble(&too_long)), too_long);
}

#[test]
fn leading_zeros_do_not_count() {
    let assembler = Assembler::new();
    assert_eq!(assembler.assemble("PUSH1 0x0001").unwrap(), vec![0x60, 0x01]);
}

#[test]
fn operand_without_prefix_is_hexadecimal() {
    let assembler = Assembler::new();
    assert_eq!(assembler.assemble("PUSH1 10").unwrap(), vec![0x60, 0x10]);
    assert_eq!(assembler.assemble("PUSH2 FfeE").unwrap(), vec![0x61, 0xff, 0xee]);
}

#[test]
fn operand_must_be_hexadecimal() {
    let assembler = Assembler::new();
    assert_eq!(invalid_line(assembler.assemble("PUSH1 0xg1")), "PUSH1 0xg1");
    assert_eq!(invalid_line(assembler.assemble("PUSH1 -1")), "PUSH1 -1");
}

#[test]
fn missing_operand_is_refused() {
    let assembler = Assembler::new();
    assert_eq!(invalid_line(assembler.assemble("PUSH1")), "PUSH1");
    assert_eq!(invalid_line(assembler.assemble("ADD\nPUSH3   \nSTOP")), "PUSH3   ");
}

#[test]
fn unknown_mnemonic_is_refused() {
    let assembler = Assembler::new();
    assert_eq!(invalid_line(assembler.assemble("ADD\nFOO\nSUB")), "FOO");
    assert_eq!(invalid_line(assembler.assemble("add")), "add");
    assert_eq!(invalid_line(assembler.assemble("PUSH33 0x00")), "PUSH33 0x00");
}

#[test]
fn blank_lines_are_skipped() {
    let assembler = Assembler::new();
    let code = assembler.assemble("\n   \n\tPUSH1 0x06\r\n\n  PUSH1   0x07  \nADD\n\n").unwrap();
    assert_eq!(code, vec![0x60, 0x06, 0x60, 0x07, 0x01]);
    assert_eq!(assembler.assemble("").unwrap(), Vec::<u8>::new());
    assert_eq!(assembler.assemble(" \n \n").unwrap(), Vec::<u8>::new());
}

#[test]
fn every_mnemonic_assembles_to_its_opcode() {
    let assembler = Assembler::new();
    let mut known = 0;
    for op in 0..=255u8 {
        if let Some(name) = opcode_name(op) {
            known += 1;
            let immediates = get_opcode_size(op) - 1;
            let line = if immediates > 0 { format!("{} 0x01", name) } else { name.to_string() };
            let code = assembler.assemble(&line).unwrap();
            assert_eq!(code[0], op);
            assert_eq!(code.len(), get_opcode_size(op));
            assert_eq!(code[code.len() - 1], if immediates > 0 { 1 } else { op });
        }
    }
    assert_eq!(known, 149);
    assert_eq!(opcode_name(0x0c), None);
    assert_eq!(opcode_name(0x01), Some("ADD"));
    assert_eq!(opcode_name(0xff), Some("SELFDESTRUCT"));
}

#[test]
fn one_line_at_a_time() {
    let assembler = Assembler::new();
    assert_eq!(assembler.asm_opcode("  MSTORE ").unwrap(), vec![0x52]);
    assert_eq!(assembler.asm_opcode("PUSH3 0xabcdef ignored").unwrap(), vec![0x62, 0xab, 0xcd, 0xef]);
    assert_eq!(invalid_line(assembler.asm_opcode("   ")), "   ");
}

#[test]
fn push_instruction_round_trips() {
    let bytes = push_instruction(0x61, Word::from_u64(0x1234)).unwrap();
    assert_eq!(bytes, vec![0x61, 0x12, 0x34]);
    assert_eq!(Word::from_be_slice(&bytes[1..]), Word::from_u64(0x1234));
    assert_eq!(push_instruction(0x60, Word::from_u64(0x1234)), None);
    let full = push_instruction(0x7f, Word::max_value()).unwrap();
    assert_eq!(full.len(), 33);
    assert_eq!(Word::from_be_slice(&full[1..]), Word::max_value());
}

#[test]
fn characters_and_white_space() {
    assert_eq!(chars_of("a b"), vec!['a', ' ', 'b']);
    assert!(is_space_char(' '));
    assert!(is_space_char('\t'));
    assert!(is_space_char('\u{a0}'));
    assert!(is_space_char('\u{3000}'));
    assert!(!is_space_char('x'));
    for c in ['\u{9}', '\u{d}', '\u{85}', '\u{1680}', '\u{2000}', '\u{200a}', '\u{200b}', '\u{2028}', '\u{205f}', '0'] {
        assert_eq!(is_space_char(c), c.is_whitespace());
    }
}
