use espyscript::instruction::{decode, read_i64};
use espyscript::program::{read_u32, u32_at};
use espyscript::text::same_text;
use espyscript::{Instruction, InvalidBytecode};

#[test]
fn u32_is_read_least_significant_byte_first() {
    let bytes = [0xaa, 0x78, 0x56, 0x34, 0x12, 0xff, 0xff, 0xff, 0xff];
    assert_eq!(read_u32(&bytes, 1), Some(0x1234_5678));
    assert_eq!(u32_at(&bytes, 1), 0x1234_5678);
    assert_eq!(read_u32(&bytes, 5), Some(u32::MAX));
    assert_eq!(read_u32(&bytes, 0), Some(0x3456_78aa));
    assert_eq!(read_u32(&[0, 0, 0, 0], 0), Some(0));
}

#[test]
fn u32_that_is_cut_short_is_not_read() {
    let bytes = [1, 2, 3, 4, 5];
    assert_eq!(read_u32(&bytes, 2), None);
    assert_eq!(read_u32(&bytes, 5), None);
    assert_eq!(read_u32(&bytes, 6), None);
    assert_eq!(read_u32(&bytes, usize::MAX), None);
    assert_eq!(read_u32(&[], 0), None);
}

#[test]
fn i64_is_read_in_twos_complement() {
    for n in [0i64, 1, -1, 0x7f, -0x80, 0x0123_4567_89ab_cdef, i64::MAX, i64::MIN, i64::MIN + 1] {
        let mut bytes = vec![0xee];
        bytes.extend_from_slice(&n.to_le_bytes());
        assert_eq!(read_i64(&bytes, 1), Some(n));
        assert_eq!(read_i64(&bytes, 2), None);
    }
    assert_eq!(read_i64(&[0; 7], 0), None);
    assert_eq!(read_i64(&[0; 8], usize::MAX), None);
}

#[test]
fn every_opcode_decodes_to_its_instruction() {
    let plain = [
        (0u8, Instruction::Unit),
        (1, Instruction::True),
        (2, Instruction::False),
        (6, Instruction::Pop),
        (7, Instruction::Equal),
        (8, Instruction::Concat),
        (10, Instruction::Index),
        (13, Instruction::OptionSome),
        (14, Instruction::OptionNone),
        (15, Instruction::Call),
        (16, Instruction::Pipe),
        (17, Instruction::EnumType),
        (18, Instruction::StructType),
        (19, Instruction::Return),
        (20, Instruction::Any),
        (21, Instruction::I64Type),
        (22, Instruction::BoolType),
        (23, Instruction::StringType),
        (24, Instruction::Option),
        (25, Instruction::Type),
        (26, Instruction::Add),
        (27, Instruction::Subtract),
        (28, Instruction::Multiply),
    ];
    for (opcode, instruction) in plain {
        match decode(&[0xff, opcode, 0xff], 1) {
            Ok((decoded, next)) => {
                assert_eq!(decoded, instruction);
                assert_eq!(next, 2);
            }
            Err(e) => panic!("opcode {opcode} did not decode: {e:?}"),
        }
    }
    let with_operand: [(u8, fn(u32) -> Instruction); 5] = [
        (4, Instruction::String),
        (5, Instruction::Capture),
        (9, Instruction::Name),
        (11, Instruction::Closure),
        (12, Instruction::Variant),
    ];
    for (opcode, instruction) in with_operand {
        match decode(&[opcode, 0x04, 0x03, 0x02, 0x01], 0) {
            Ok((decoded, next)) => {
                assert_eq!(decoded, instruction(0x0102_0304));
                assert_eq!(next, 5);
            }
            Err(e) => panic!("opcode {opcode} did not decode: {e:?}"),
        }
        assert!(matches!(
            decode(&[opcode, 0x04, 0x03, 0x02], 0),
            Err(InvalidBytecode::ProgramOutOfBounds)
        ));
    }
    match decode(&[3, 0xfe, 0xff, 0xff, 0xff, 0xff, 0xff, 0xff, 0xff], 0) {
        Ok((decoded, next)) => {
            assert_eq!(decoded, Instruction::Integer(-2));
            assert_eq!(next, 9);
        }
        Err(e) => panic!("the integer did not decode: {e:?}"),
    }
    assert!(matches!(decode(&[3, 0, 0, 0, 0, 0, 0, 0], 0), Err(InvalidBytecode::ProgramOutOfBounds)));
}

#[test]
fn opcodes_without_an_instruction_are_invalid() {
    for opcode in 29..=255u8 {
        assert!(matches!(
            decode(&[opcode, 0, 0, 0, 0, 0, 0, 0, 0], 0),
            Err(InvalidBytecode::InvalidInstruction)
        ));
    }
}

#[test]
fn texts_are_the_same_when_their_characters_are() {
    assert!(same_text("", ""));
    assert!(same_text("io", "io"));
    assert!(same_text("na\u{ef}ve \u{1f600}", "na\u{ef}ve \u{1f600}"));
    assert!(!same_text("io", "iO"));
    assert!(!same_text("io", "io "));
    assert!(!same_text("", "a"));
    assert!(!same_text("\u{e9}", "e\u{301}"));
    assert!(!same_text("ab", "ba"));
}
