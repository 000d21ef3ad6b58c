use rainbow::_type::Types;
use rainbow::error::ParseError;
use rainbow::frame::Frame;
use rainbow::parse_scope::{parse_bytecode_string, parse_dyn_number, parse_immediate, parse_program, parse_type};
use rainbow::scope::{Block, Scope};
use rainbow::value::Values;

#[test]
fn bytecode_string() {
    let bytes = [3u8, b'a', b'b', b'c', 9];
    let mut i = 0;
    assert_eq!(parse_bytecode_string(&bytes, &mut i).unwrap(), "abc");
    assert_eq!(i, 4);
}

#[test]
fn bytecode_string_errors() {
    let mut i = 0;
    assert!(matches!(parse_bytecode_string(&[], &mut i), Err(ParseError::UnexpectedEnd { at: 0 })));
    let mut i = 0;
    assert!(matches!(parse_bytecode_string(&[5, b'a'], &mut i), Err(ParseError::StringOutOfBounds { at: 0, len: 5 })));
    let mut i = 0;
    assert!(matches!(parse_bytecode_string(&[1, 0xFF], &mut i), Err(ParseError::InvalidUtf8 { at: 0 })));
}

#[test]
fn dyn_numbers() {
    let mut i = 0;
    assert_eq!(parse_dyn_number(&[0x05, 42], &mut i).unwrap(), 42);
    assert_eq!(i, 2);
    let mut i = 0;
    assert_eq!(parse_dyn_number(&[0x06, 0x01, 0x00], &mut i).unwrap(), 256);
    let mut i = 0;
    assert_eq!(parse_dyn_number(&[0x01, 0xFF], &mut i).unwrap(), usize::MAX);
    let mut i = 0;
    assert!(matches!(parse_dyn_number(&[0x09, 0], &mut i), Err(ParseError::UnsupportedByteLength(9))));
}

#[test]
fn types() {
    let mut i = 0;
    let t = parse_type(&[0x0C, 0x0C, 0x01], &mut i).unwrap();
    assert_eq!(t.typ, vec![Types::POINTER, Types::POINTER, Types::I8]);
    assert_eq!(i, 3);
    let mut i = 0;
    assert!(matches!(parse_type(&[0x20], &mut i), Err(ParseError::UnknownType(0x20))));
}

#[test]
fn immediates_are_big_endian() {
    let mut i = 0;
    let v = parse_immediate(&[0x02, 0xFF, 0xFE], &mut i).unwrap();
    assert_eq!(v.typ.typ, vec![Types::I16]);
    assert!(matches!(v.val, Values::SIGNED(-2)));
    let mut i = 0;
    let mut bytes = vec![0x0B];
    bytes.extend_from_slice(&2.5f64.to_be_bytes());
    let v = parse_immediate(&bytes, &mut i).unwrap();
    match v.val {
        Values::DECIMAL(b) => assert_eq!(f64::from_bits(b), 2.5),
        _ => panic!("expected a decimal"),
    }
    let mut i = 0;
    let mut bytes = vec![0x0A];
    bytes.extend_from_slice(&0.75f32.to_be_bytes());
    match parse_immediate(&bytes, &mut i).unwrap().val {
        Values::DECIMAL(b) => assert_eq!(f64::from_bits(b), 0.75),
        _ => panic!("expected a decimal"),
    }
}

/// `VAR i64 x`, `MOV 5 x`, `RET x`.
pub fn small_program() -> Vec<u8> {
    let mut p = vec![0x66, 0x04, 1, b'x', 0x4A, 0x04];
    p.extend_from_slice(&5i64.to_be_bytes());
    p.extend_from_slice(&[1, b'x', 0x6C, 1, b'x']);
    p
}

#[test]
fn program_with_one_block() {
    let program = small_program();
    let mut stack: Vec<Frame> = Vec::new();
    let mut scope = Scope::new();
    parse_program(&program, &mut stack, &mut scope, &Vec::new(), &Vec::new(), 8).unwrap();
    assert_eq!(stack.len(), 1);
    assert_eq!(scope.blocks.len(), 1);
    assert_eq!(scope.block_starts, vec![0]);
    match &scope.blocks[0] {
        Block::CODE(code) => assert_eq!(code.len(), 3),
        _ => panic!("expected code"),
    }
}

#[test]
fn unknown_instruction() {
    let program = vec![0xA0];
    let mut stack: Vec<Frame> = Vec::new();
    let mut scope = Scope::new();
    let r = parse_program(&program, &mut stack, &mut scope, &Vec::new(), &Vec::new(), 8);
    assert!(matches!(r, Err(ParseError::UnknownInstruction { opcode: 0xA0, at: 0 })));
}

#[test]
fn function_bodies_see_the_scope_they_are_declared_in() {
    let program = vec![0x66, 0x04, 1, b'x', 0xFF, 0x00, 1, b'f', 0xFE, 0x00, 0xFD];
    let mut stack: Vec<Frame> = Vec::new();
    let mut scope = Scope::new();
    parse_program(&program, &mut stack, &mut scope, &Vec::new(), &Vec::new(), 8).unwrap();
    assert_eq!(scope.functions.len(), 1);
    let parent = scope.functions[0].1.scope.parent_scope.as_ref().expect("a parent scope");
    assert_eq!(parent.functions.len(), 1);
    assert_eq!(parent.blocks.len(), 1);
}

#[test]
fn pointer_immediates_are_read_whole() {
    let mut bytes = vec![0x0C];
    bytes.extend_from_slice(&5usize.to_be_bytes());
    let mut i = 0;
    let v = parse_immediate(&bytes, &mut i).unwrap();
    assert!(matches!(v.val, Values::POINTER(5, 0)));
    assert_eq!(i, bytes.len());
}
