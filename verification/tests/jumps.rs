use rainbow::jump::{jge, jmp, jmp_imm, jne_imm_imm_imm, je_imm_imm_imm, jl_imm_imm_imm, types_compare};
use rainbow::types::{from_type, parse_imm, Types};

fn imm_i32(v: i32) -> Vec<u8> {
    let mut b = vec![0x03];
    b.extend_from_slice(&v.to_be_bytes());
    b
}

fn imm_u8(v: u8) -> Vec<u8> {
    vec![0x05, v]
}

#[test]
fn immediates_are_read_big_endian() {
    let prog = imm_i32(-300);
    let mut pc = 0;
    match parse_imm(&prog, &mut pc) {
        Types::I32(v) => assert_eq!(v, -300),
        _ => panic!("expected an i32"),
    }
    assert_eq!(pc, 5);
    let mut prog = vec![0x0B];
    prog.extend_from_slice(&0.5f64.to_be_bytes());
    let mut pc = 0;
    match parse_imm(&prog, &mut pc) {
        Types::F64(b) => assert_eq!(f64::from_bits(b), 0.5),
        _ => panic!("expected an f64"),
    }
    let prog = vec![0x0F, 2, b'h', b'i'];
    let mut pc = 0;
    match parse_imm(&prog, &mut pc) {
        Types::Function(s) => assert_eq!(s, "hi"),
        _ => panic!("expected a function name"),
    }
    assert_eq!(pc, 4);
    // the immediate `03 00 00 00 05` is the i32 5
    let prog = vec![0x03, 0x00, 0x00, 0x00, 0x05];
    let mut pc = 0;
    assert!(matches!(parse_imm(&prog, &mut pc), Types::I32(5)));
    assert_eq!(pc, 5);
}

#[test]
fn zero_values() {
    assert!(matches!(from_type(0x04), Types::I64(0)));
    assert!(matches!(from_type(0x0F), Types::Function(ref s) if s.is_empty()));
}

#[test]
fn jump_targets() {
    let mut pc = 0;
    jmp(Types::U16(513), &mut pc);
    assert_eq!(pc, 513);
    jmp(Types::F32(7.9f32.to_bits()), &mut pc);
    assert_eq!(pc, 7);
    jmp(Types::I8(-1), &mut pc);
    assert_eq!(pc, usize::MAX);
    let mut pc = 3;
    jge(Types::I32(1), Types::I32(2), Types::U8(40), &mut pc);
    assert_eq!(pc, 3);
    jge(Types::I32(2), Types::I32(2), Types::U8(40), &mut pc);
    assert_eq!(pc, 40);
}

#[test]
fn jump_with_immediates() {
    let mut prog = imm_u8(9);
    let mut pc = 0;
    jmp_imm(&prog, &mut pc);
    assert_eq!(pc, 9);

    prog = [imm_u8(1), imm_u8(2), imm_u8(50)].concat();
    let mut pc = 0;
    jne_imm_imm_imm(&prog, &mut pc);
    assert_eq!(pc, 50);
    let mut pc = 0;
    je_imm_imm_imm(&prog, &mut pc);
    assert_eq!(pc, 6);
    let mut pc = 0;
    jl_imm_imm_imm(&prog, &mut pc);
    assert_eq!(pc, 50);
}

#[test]
fn values_order_by_variant_then_content() {
    assert_eq!(types_compare(&Types::I8(5), &Types::U8(0)), Some(-1));
    assert_eq!(types_compare(&Types::U8(5), &Types::U8(5)), Some(0));
    assert_eq!(types_compare(&Types::F64(f64::NAN.to_bits()), &Types::F64(0)), None);
    assert_eq!(types_compare(&Types::Function("ab".to_string()), &Types::Function("b".to_string())), Some(-1));
    assert_eq!(types_compare(&Types::Function("ab".to_string()), &Types::Function("a".to_string())), Some(1));
}
