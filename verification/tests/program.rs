use espyscript::{BlockInfo, InvalidBytecode, Program};

/// The bytes of a program with these blocks, strings and instructions.
fn assemble(blocks: &[(u32, u32, u32)], strings: &[&[u8]], code: &[u8]) -> Vec<u8> {
    let mut bytes: Vec<u8> = Vec::new();
    bytes.extend_from_slice(&(blocks.len() as u32).to_le_bytes());
    bytes.extend_from_slice(&(strings.len() as u32).to_le_bytes());
    for (entry, captures, stack) in blocks {
        bytes.extend_from_slice(&entry.to_le_bytes());
        bytes.extend_from_slice(&captures.to_le_bytes());
        bytes.extend_from_slice(&stack.to_le_bytes());
    }
    for s in strings {
        bytes.extend_from_slice(&(s.len() as u32).to_le_bytes());
        bytes.extend_from_slice(s);
    }
    bytes.extend_from_slice(code);
    bytes
}

#[test]
fn program_is_loaded_from_its_bytes() {
    let bytes = assemble(
        &[(0, 0, 2), (3, 1, 4)],
        &["io".as_bytes(), "".as_bytes(), "na\u{ef}ve".as_bytes()],
        &[0, 1, 2, 19],
    );
    let program = Program::try_from(bytes.as_slice()).unwrap();
    assert_eq!(
        program.blocks().as_slice(),
        &[
            BlockInfo { entry: 0, captures: 0, stack: 2 },
            BlockInfo { entry: 3, captures: 1, stack: 4 }
        ]
    );
    assert_eq!(program.string(0).map(|s| &**s), Some("io"));
    assert_eq!(program.string(1).map(|s| &**s), Some(""));
    assert_eq!(program.string(2).map(|s| &**s), Some("na\u{ef}ve"));
    assert!(program.string(3).is_none());
    assert_eq!(program.code().as_slice(), &[0, 1, 2, 19]);
}

#[test]
fn header_integers_are_little_endian() {
    let mut bytes = vec![1, 0, 0, 0, 0, 0, 0, 0];
    bytes.extend_from_slice(&[0x04, 0x03, 0x02, 0x01]);
    bytes.extend_from_slice(&[0xff, 0x00, 0x00, 0x00]);
    bytes.extend_from_slice(&[0x00, 0x01, 0x00, 0x00]);
    bytes.extend(std::iter::repeat(0u8).take(0x0102_0304));
    let program = Program::try_from(bytes.as_slice()).unwrap();
    assert_eq!(
        program.blocks()[0],
        BlockInfo { entry: 0x0102_0304, captures: 255, stack: 256 }
    );
    assert_eq!(program.code().len(), 0x0102_0304);
}

#[test]
fn empty_program_is_a_program() {
    let program = Program::try_from(assemble(&[], &[], &[]).as_slice()).unwrap();
    assert!(program.blocks().is_empty());
    assert!(program.code().is_empty());
    assert!(program.string(0).is_none());
}

#[test]
fn block_may_start_right_after_the_last_instruction() {
    let program = Program::try_from(assemble(&[(2, 0, 0)], &[], &[0, 19]).as_slice()).unwrap();
    assert_eq!(program.blocks()[0].entry, 2);
}

#[test]
fn short_header_is_malformed() {
    for length in 0..8 {
        let bytes = vec![0u8; length];
        assert!(matches!(
            Program::try_from(bytes.as_slice()),
            Err(InvalidBytecode::MalformedHeader)
        ));
    }
}

#[test]
fn cut_block_table_is_malformed() {
    let mut bytes = assemble(&[(0, 0, 0), (0, 0, 0)], &[], &[]);
    bytes.truncate(8 + 23);
    assert!(matches!(Program::try_from(bytes.as_slice()), Err(InvalidBytecode::MalformedHeader)));
    let huge = [0xff, 0xff, 0xff, 0xff, 0, 0, 0, 0];
    assert!(matches!(Program::try_from(&huge[..]), Err(InvalidBytecode::MalformedHeader)));
}

#[test]
fn cut_string_pool_is_malformed() {
    let mut bytes = assemble(&[], &["abc".as_bytes()], &[]);
    bytes.truncate(bytes.len() - 1);
    assert!(matches!(Program::try_from(bytes.as_slice()), Err(InvalidBytecode::MalformedHeader)));
    let mut bytes = assemble(&[], &["abc".as_bytes(), "d".as_bytes()], &[]);
    bytes.truncate(8 + 7 + 2);
    assert!(matches!(Program::try_from(bytes.as_slice()), Err(InvalidBytecode::MalformedHeader)));
    let missing = [0, 0, 0, 0, 1, 0, 0, 0];
    assert!(matches!(Program::try_from(&missing[..]), Err(InvalidBytecode::MalformedHeader)));
}

#[test]
fn block_beyond_the_instruction_stream_is_malformed() {
    let bytes = assemble(&[(0, 0, 0), (3, 0, 0)], &[], &[0, 19]);
    assert!(matches!(Program::try_from(bytes.as_slice()), Err(InvalidBytecode::MalformedHeader)));
}

#[test]
fn string_that_is_not_utf8_is_reported() {
    let bytes = assemble(&[], &["ok".as_bytes(), &[0x61, 0xff, 0x62]], &[]);
    match Program::try_from(bytes.as_slice()) {
        Err(InvalidBytecode::Utf8Error(e)) => assert_eq!(e.valid_up_to(), 1),
        other => panic!("expected a UTF-8 error, got {other:?}"),
    }
}

#[test]
fn invalid_string_is_reported_before_a_later_cut() {
    let mut bytes = assemble(&[], &[&[0xc0, 0x80], "abc".as_bytes()], &[]);
    bytes.truncate(bytes.len() - 2);
    assert!(matches!(Program::try_from(bytes.as_slice()), Err(InvalidBytecode::Utf8Error(_))));
}

#[test]
fn clone_is_the_same_program() {
    let program = Program::try_from(assemble(&[(0, 0, 1)], &["s".as_bytes()], &[0]).as_slice())
        .unwrap();
    let copy = program.clone();
    assert_eq!(copy.blocks().as_slice(), program.blocks().as_slice());
    assert_eq!(copy.code().as_slice(), program.code().as_slice());
    assert_eq!(copy.string(0).map(|s| &**s), Some("s"));
}
