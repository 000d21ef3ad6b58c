use rainbow::frame::Frame;
use rainbow::interp::{get_var, Env};
use rainbow::parse_scope::parse_program;
use rainbow::run::{exec_block, BlockExit};
use rainbow::scope::{Block, Scope};
use rainbow::value::Values;

fn env0() -> Env {
    Env { cur: 0, module: 0, global: 0 }
}

/// Parses `program`, runs its first block to the end and reads `name`.
fn run_and_read(program: &[u8], name: &str) -> Values {
    let mut stack: Vec<Frame> = Vec::new();
    let mut scope = Scope::new();
    parse_program(&program.to_vec(), &mut stack, &mut scope, &Vec::new(), &Vec::new(), 8).unwrap();
    let code = match &scope.blocks[0] {
        Block::CODE(c) => c,
        _ => panic!("expected code"),
    };
    let mut pc = 0;
    let r = exec_block(code, &scope, &mut stack, env0(), &mut pc, 0, 100).unwrap();
    assert!(matches!(r, BlockExit::Done(0)));
    assert_eq!(pc, code.len());
    get_var(&name.to_string(), &scope, &stack, env0()).unwrap().val
}

#[test]
fn readme_adds_two_numbers() {
    let program = [0x66, 0x05, 0x01, 0x61, 0x08, 0x01, 0x01, 0x01, 0x02, 0x01, 0x61];
    assert!(matches!(run_and_read(&program, "a"), Values::UNSIGNED(3)));
}

#[test]
fn guide_adds_two_numbers() {
    let program = [
        0x66, 0x02, 0x06, 0x72, 0x65, 0x73, 0x75, 0x6C, 0x74,
        0x08, 0x02, 0x00, 0x01, 0x02, 0x00, 0x02, 0x06, 0x72, 0x65, 0x73, 0x75, 0x6C, 0x74,
    ];
    assert!(matches!(run_and_read(&program, "result"), Values::SIGNED(3)));
}

#[test]
fn guide_adds_three_numbers() {
    let program = [
        0x66, 0x02, 0x06, 0x72, 0x65, 0x73, 0x75, 0x6C, 0x74,
        0x08, 0x02, 0x00, 0x01, 0x02, 0x00, 0x02, 0x06, 0x72, 0x65, 0x73, 0x75, 0x6C, 0x74,
        0x0A, 0x02, 0x00, 0x03, 0x06, 0x72, 0x65, 0x73, 0x75, 0x6C, 0x74, 0x06, 0x72, 0x65, 0x73, 0x75, 0x6C, 0x74,
    ];
    assert!(matches!(run_and_read(&program, "result"), Values::SIGNED(6)));
}

#[test]
fn spec_moves_an_immediate_into_a_variable() {
    let program = [0x66, 0x03, 0x01, 0x61, 0x4A, 0x03, 0x00, 0x00, 0x00, 0x05, 0x01, 0x61];
    assert!(matches!(run_and_read(&program, "a"), Values::SIGNED(5)));
}

#[test]
fn spec_bytecode_string_example() {
    let bytes = [0x0D, 0x48, 0x65, 0x6C, 0x6C, 0x6F, 0x2C, 0x20, 0x57, 0x6F, 0x72, 0x6C, 0x64, 0x21];
    let mut i = 0;
    assert_eq!(rainbow::parse_scope::parse_bytecode_string(&bytes, &mut i).unwrap(), "Hello, World!");
    assert_eq!(i, 14);
}
