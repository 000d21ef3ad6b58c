use rainbow::_type::Types;
use rainbow::error::ParseError;
use rainbow::frame::Frame;
use rainbow::interp::{get_var, Env};
use rainbow::parse_scope::{parse_immediate, parse_program};
use rainbow::scope::Scope;
use rainbow::value::Values;

fn decode(program: &[u8], imports: &Vec<(String, Vec<u8>)>, consts: &Vec<(String, i32)>, fuel: usize) -> (Result<(), ParseError>, Vec<Frame>, Scope) {
    let mut stack: Vec<Frame> = Vec::new();
    let mut scope = Scope::new();
    let r = parse_program(&program.to_vec(), &mut stack, &mut scope, imports, consts, fuel);
    (r, stack, scope)
}

#[test]
fn immediates_of_void_type_struct_are_refused() {
    let mut i = 0;
    assert!(matches!(parse_immediate(&[0x00], &mut i), Err(ParseError::UnsupportedImmediate(Types::VOID))));
    let mut i = 0;
    assert!(matches!(parse_immediate(&[0x0D, 1], &mut i), Err(ParseError::UnsupportedImmediate(Types::TYPE))));
    let mut i = 0;
    assert!(matches!(parse_immediate(&[0x0E, 1], &mut i), Err(ParseError::UnsupportedImmediate(Types::STRUCT))));
}

#[test]
fn conditions_need_declared_constants() {
    let program = [0xF7, 0x00, 1, b'x', 0x00, 1, b'y', 0xFE, 0xFD, 0xF7, 0x03];
    let (r, _, _) = decode(&program, &Vec::new(), &Vec::new(), 4);
    assert!(matches!(r, Err(ParseError::UnknownConst(n)) if n == "x"));

    let consts = vec![("X".to_string(), 1)];
    let (r, _, _) = decode(&program, &Vec::new(), &consts, 4);
    assert!(matches!(r, Err(ParseError::UnknownConstSimilar { name, similar }) if name == "x" && similar == "X"));
}

#[test]
fn conditions_compare_with_known_operators() {
    let consts = vec![("X".to_string(), 1)];
    let program = [0xF7, 0x00, 1, b'X', 0x09, 1, b'X', 0xFE, 0xFD, 0xF7, 0x03];
    let (r, _, _) = decode(&program, &Vec::new(), &consts, 4);
    assert!(matches!(r, Err(ParseError::UnknownCondition(9))));

    let (r, _, _) = decode(&[0xF7, 0x07], &Vec::new(), &consts, 4);
    assert!(matches!(r, Err(ParseError::UnknownConditionalBlock(7))));
}

#[test]
fn imports_must_be_given_and_end() {
    let (r, _, _) = decode(&[0xFA, 1, b'm'], &Vec::new(), &Vec::new(), 4);
    assert!(matches!(r, Err(ParseError::ImportMissing(n)) if n == "m"));

    let imports = vec![("m".to_string(), vec![0xFA, 1, b'm'])];
    let (r, _, _) = decode(&[0xFA, 1, b'm'], &imports, &Vec::new(), 3);
    assert!(matches!(r, Err(ParseError::ImportTooDeep(n)) if n == "m"));
}

#[test]
fn data_section_declares_pointer_constants() {
    let program = [0xFC, 1, b'd', 0x0C, 0x05, 0x01, 0x02, 7, 9];
    let (r, stack, scope) = decode(&program, &Vec::new(), &Vec::new(), 4);
    r.unwrap();
    let env = Env { cur: 0, module: 0, global: 0 };
    assert!(matches!(get_var(&"d".to_string(), &scope, &stack, env).unwrap().val, Values::POINTER(1, 2)));
    assert!(matches!(stack[0].stack[1].val, Values::UNSIGNED(7)));
    assert!(matches!(stack[0].stack[2].val, Values::UNSIGNED(9)));

    let (r, _, _) = decode(&[0xFC, 1, b'd', 0x05, 0x01, 0x01, 7], &Vec::new(), &Vec::new(), 4);
    assert!(matches!(r, Err(ParseError::UnsupportedDataType(t)) if t.typ == vec![Types::U8]));
}
