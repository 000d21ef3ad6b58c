use rainbow::_struct::Struct;
use rainbow::_type::{Type, Types};
use rainbow::calls::{back_block, enter_function, init_consts, resolve_call, seek_block, unwind, Callee};
use rainbow::frame::Frame;
use rainbow::instruction::{Instruction, Opcode};
use rainbow::interp::{get_var, set_var, Env, Fault};
use rainbow::machine::exec_instruction;
use rainbow::parse_scope::parse_program;
use rainbow::run::{exec_block, BlockExit};
use rainbow::scope::{Block, Function, Scope};
use rainbow::step::Control;
use rainbow::value::{MathOp, Value, Values};

fn ty(t: Types) -> Type {
    Type { typ: vec![t] }
}

fn imm(t: Types, v: Values) -> Value {
    Value { typ: ty(t), val: v }
}

fn ins(opcode: Opcode) -> Instruction {
    Instruction { index: 0, opcode }
}

fn env0() -> Env {
    Env { cur: 0, module: 0, global: 0 }
}

fn run(stack: &mut Vec<Frame>, scope: &Scope, op: Opcode) -> Result<Control, Fault> {
    exec_instruction(&ins(op), scope, stack, env0())
}

fn read(stack: &Vec<Frame>, scope: &Scope, name: &str) -> Values {
    get_var(&name.to_string(), scope, stack, env0()).unwrap().val
}

#[test]
fn var_mov_add() {
    let scope = Scope::new();
    let mut stack = vec![Frame::new()];
    run(&mut stack, &scope, Opcode::VAR_TYPE_NAME(ty(Types::I64), "x".to_string())).unwrap();
    assert!(matches!(read(&stack, &scope, "x"), Values::SIGNED(0)));
    run(&mut stack, &scope, Opcode::MOV_I_V(imm(Types::I64, Values::SIGNED(40)), "x".to_string())).unwrap();
    run(&mut stack, &scope, Opcode::ADD_V_I("x".to_string(), imm(Types::I64, Values::SIGNED(2)), "x".to_string())).unwrap();
    assert!(matches!(read(&stack, &scope, "x"), Values::SIGNED(42)));
}

#[test]
fn undefined_variable() {
    let scope = Scope::new();
    let mut stack = vec![Frame::new()];
    let r = run(&mut stack, &scope, Opcode::MOV_I_V(imm(Types::I64, Values::SIGNED(1)), "y".to_string()));
    assert!(matches!(r, Err(Fault::UndefinedVariable)));
    let r = run(&mut stack, &scope, Opcode::MOV_I_V(imm(Types::I64, Values::SIGNED(1)), "_".to_string()));
    assert!(matches!(r, Ok(Control::Next)));
}

#[test]
fn push_pop_and_peek() {
    let scope = Scope::new();
    let mut stack = vec![Frame::new()];
    run(&mut stack, &scope, Opcode::VAR_TYPE_NAME(ty(Types::U8), "a".to_string())).unwrap();
    run(&mut stack, &scope, Opcode::PUSH_IMM(imm(Types::U8, Values::UNSIGNED(7)))).unwrap();
    run(&mut stack, &scope, Opcode::PEEK_IMM(imm(Types::U8, Values::UNSIGNED(1)), "a".to_string())).unwrap();
    assert!(matches!(read(&stack, &scope, "a"), Values::UNSIGNED(7)));
    run(&mut stack, &scope, Opcode::MOV_I_V(imm(Types::U8, Values::UNSIGNED(0)), "a".to_string())).unwrap();
    run(&mut stack, &scope, Opcode::POP("a".to_string())).unwrap();
    assert!(matches!(read(&stack, &scope, "a"), Values::UNSIGNED(7)));
    assert_eq!(stack[0].len(), 1);
}

#[test]
fn jumps() {
    let scope = Scope::new();
    let mut stack = vec![Frame::new()];
    let r = run(&mut stack, &scope, Opcode::JMP_IMM(imm(Types::U64, Values::UNSIGNED(9)))).unwrap();
    assert!(matches!(r, Control::Jump(9)));
    let r = run(&mut stack, &scope, Opcode::JMP_IMM(imm(Types::I64, Values::SIGNED(-1))));
    assert!(matches!(r, Err(Fault::NegativeAddress)));
    let a = imm(Types::I64, Values::SIGNED(3));
    let b = imm(Types::U64, Values::UNSIGNED(3));
    let c = imm(Types::U64, Values::UNSIGNED(12));
    let r = run(&mut stack, &scope, Opcode::JE_I_I_I(a, b, c)).unwrap();
    assert!(matches!(r, Control::Jump(12)));
    let a = imm(Types::I64, Values::SIGNED(-1));
    let b = imm(Types::I64, Values::SIGNED(3));
    let c = imm(Types::U64, Values::UNSIGNED(12));
    let r = run(&mut stack, &scope, Opcode::JGE_I_I_I(a, b, c)).unwrap();
    assert!(matches!(r, Control::Next));
    let a = imm(Types::F64, Values::DECIMAL(2.5f64.to_bits()));
    let b = imm(Types::F64, Values::DECIMAL(2.0f64.to_bits()));
    let c = imm(Types::U64, Values::UNSIGNED(4));
    let r = run(&mut stack, &scope, Opcode::JG_I_I_I(a, b, c)).unwrap();
    assert!(matches!(r, Control::Jump(4)));
}

#[test]
fn compare_sets_one_or_zero() {
    let scope = Scope::new();
    let mut stack = vec![Frame::new()];
    run(&mut stack, &scope, Opcode::VAR_TYPE_NAME(ty(Types::U8), "r".to_string())).unwrap();
    let cond = |c: u64| imm(Types::U8, Values::UNSIGNED(c));
    let two = || imm(Types::I64, Values::SIGNED(2));
    let five = || imm(Types::I64, Values::SIGNED(5));
    run(&mut stack, &scope, Opcode::CMP_I_I_I(cond(5), two(), five(), "r".to_string())).unwrap();
    assert!(matches!(read(&stack, &scope, "r"), Values::UNSIGNED(1)));
    run(&mut stack, &scope, Opcode::CMP_I_I_I(cond(2), two(), five(), "r".to_string())).unwrap();
    assert!(matches!(read(&stack, &scope, "r"), Values::UNSIGNED(0)));
    let r = run(&mut stack, &scope, Opcode::CMP_I_I_I(cond(9), two(), five(), "r".to_string()));
    assert!(matches!(r, Err(Fault::InvalidCondition)));
}

#[test]
fn float_arithmetic_is_handed_back() {
    let scope = Scope::new();
    let mut stack = vec![Frame::new()];
    let a = imm(Types::F64, Values::DECIMAL(1.25f64.to_bits()));
    let b = imm(Types::I64, Values::SIGNED(3));
    match run(&mut stack, &scope, Opcode::MUL_I_I(a, b, "f".to_string())).unwrap() {
        Control::Float(MathOp::Mul, x, y, out) => {
            assert_eq!(f64::from_bits(x), 1.25);
            assert_eq!(f64::from_bits(y), 3.0);
            assert_eq!(out, "f");
        }
        _ => panic!("expected a float operation"),
    }
}

#[test]
fn division_by_zero_is_a_fault() {
    let scope = Scope::new();
    let mut stack = vec![Frame::new()];
    run(&mut stack, &scope, Opcode::VAR_TYPE_NAME(ty(Types::I64), "x".to_string())).unwrap();
    let r = run(&mut stack, &scope, Opcode::DIV_I_I(imm(Types::I64, Values::SIGNED(1)), imm(Types::I64, Values::SIGNED(0)), "x".to_string()));
    assert!(matches!(r, Err(Fault::InvalidOperands)));
}

#[test]
fn alloc_pmov_deref_free() {
    let scope = Scope::new();
    let mut stack = vec![Frame::new()];
    run(&mut stack, &scope, Opcode::VAR_TYPE_NAME(Type { typ: vec![Types::POINTER, Types::I32] }, "p".to_string())).unwrap();
    run(&mut stack, &scope, Opcode::VAR_TYPE_NAME(ty(Types::I32), "v".to_string())).unwrap();
    run(&mut stack, &scope, Opcode::ALLOC_TYPE_IMM(ty(Types::I32), imm(Types::U64, Values::UNSIGNED(3)), "p".to_string())).unwrap();
    assert_eq!(stack[0].len(), 5);
    assert!(matches!(read(&stack, &scope, "p"), Values::POINTER(2, 3)));
    run(&mut stack, &scope, Opcode::PMOV_IMM_IMM(imm(Types::I32, Values::SIGNED(8)), "p".to_string(), imm(Types::U64, Values::UNSIGNED(1)))).unwrap();
    run(&mut stack, &scope, Opcode::DEREF_IMM(imm(Types::U64, Values::UNSIGNED(3)), "v".to_string())).unwrap();
    assert!(matches!(read(&stack, &scope, "v"), Values::SIGNED(8)));
    run(&mut stack, &scope, Opcode::FREE_IMM_IMM(imm(Types::U64, Values::UNSIGNED(2)), imm(Types::U64, Values::UNSIGNED(3)))).unwrap();
    assert_eq!(stack[0].len(), 2);
}

#[test]
fn structs_fields() {
    let mut scope = Scope::new();
    let mut s = Struct::new("pt".to_string());
    s.add_field(ty(Types::I32), "x".to_string(), 0);
    s.add_field(ty(Types::I32), "y".to_string(), 1);
    scope.structs.push(("pt".to_string(), s));
    let mut stack = vec![Frame::new()];
    run(&mut stack, &scope, Opcode::VAR_TYPE_NAME(ty(Types::STRUCT), "p".to_string())).unwrap();
    run(&mut stack, &scope, Opcode::INST_NAME("pt".to_string(), "p".to_string())).unwrap();
    assert_eq!(stack[0].len(), 3);
    run(&mut stack, &scope, Opcode::MOV_I_V(imm(Types::I32, Values::SIGNED(6)), "p.y".to_string())).unwrap();
    assert!(matches!(read(&stack, &scope, "p.y"), Values::SIGNED(6)));
    assert!(matches!(read(&stack, &scope, "p.x"), Values::SIGNED(0)));
    let r = get_var(&"p.z".to_string(), &scope, &stack, env0());
    assert!(matches!(r, Err(Fault::UnknownField)));
}

#[test]
fn return_at_the_global_frame_finishes() {
    let scope = Scope::new();
    let mut stack = vec![Frame::new()];
    let r = run(&mut stack, &scope, Opcode::RET_IMM(imm(Types::F64, Values::DECIMAL(1e12f64.to_bits())))).unwrap();
    assert!(matches!(r, Control::Finish(i32::MAX)));
    let r = run(&mut stack, &scope, Opcode::RET_IMM(imm(Types::I64, Values::SIGNED(-3)))).unwrap();
    assert!(matches!(r, Control::Finish(-3)));
}

#[test]
fn unknown_instruction_fault() {
    let scope = Scope::new();
    let mut stack = vec![Frame::new()];
    let r = exec_instruction(&Instruction { index: 17, opcode: Opcode::INST_VAR("a".to_string(), "b".to_string()) }, &scope, &mut stack, env0());
    assert!(matches!(r, Err(Fault::UnknownInstruction(0x72, 17))));
}

#[test]
fn a_block_runs_to_its_return() {
    let program = vec![0x66, 0x04, 1, b'x', 0x08, 0x04, 0, 0, 0, 0, 0, 0, 0, 2, 0x04, 0, 0, 0, 0, 0, 0, 0, 3, 1, b'x', 0x6C, 1, b'x'];
    let mut stack: Vec<Frame> = Vec::new();
    let mut scope = Scope::new();
    parse_program(&program, &mut stack, &mut scope, &Vec::new(), &Vec::new(), 8).unwrap();
    let code = match &scope.blocks[0] {
        Block::CODE(c) => c,
        _ => panic!("expected code"),
    };
    let mut pc = 0;
    let r = exec_block(code, &scope, &mut stack, env0(), &mut pc, 0, 100).unwrap();
    assert!(matches!(r, BlockExit::Done(5)));
    let mut pc = 0;
    let r = exec_block(code, &scope, &mut stack, env0(), &mut pc, 0, 1).unwrap();
    assert!(matches!(r, BlockExit::Yield));
    assert_eq!(pc, 1);
}

#[test]
fn calls_resolve_to_functions_and_frames_bind_arguments() {
    let mut scope = Scope::new();
    let f = Function {
        name: "f".to_string(),
        ret_type: ty(Types::I64),
        arg_types: vec![ty(Types::I64), ty(Types::I64)],
        arg_names: vec!["a".to_string(), "b".to_string()],
        scope: Scope::new(),
    };
    scope.functions.push(("f".to_string(), f));
    let func = match resolve_call(&"f".to_string(), &scope, &scope, 0, 0) {
        Some(Callee::Function(frame, func)) => {
            assert_eq!(frame, 0);
            func
        }
        _ => panic!("expected a function"),
    };
    assert!(resolve_call(&"g".to_string(), &scope, &scope, 0, 0).is_none());

    let mut stack = vec![Frame::new()];
    stack[0].push(imm(Types::I64, Values::SIGNED(1)));
    stack[0].push(imm(Types::I64, Values::SIGNED(2)));
    let k = enter_function(&func, &mut stack).unwrap();
    assert_eq!(k, 1);
    assert_eq!(stack[0].len(), 0);
    let env = Env { cur: 1, module: 0, global: 0 };
    assert!(matches!(get_var(&"a".to_string(), &scope, &stack, env).unwrap().val, Values::SIGNED(1)));
    assert!(matches!(get_var(&"b".to_string(), &scope, &stack, env).unwrap().val, Values::SIGNED(2)));
    set_var(&"b".to_string(), &Values::SIGNED(9), &scope, &mut stack, env).unwrap();
    unwind(&mut stack, 1, 0).unwrap();
    assert_eq!(stack[1].len(), 0);
}

#[test]
fn block_navigation() {
    let starts = vec![0, 4, 5, 9];
    assert_eq!(seek_block(&starts, 0, 0), Some((0, 0)));
    assert_eq!(seek_block(&starts, 4, 0), Some((0, 0)));
    assert_eq!(seek_block(&starts, 6, 0), Some((2, 5)));
    assert_eq!(seek_block(&starts, 100, 0), Some((3, 9)));
    assert_eq!(seek_block(&starts, 0, 7), None);
    assert_eq!(back_block(&starts, 2, 3), Some((0, true)));
    assert_eq!(back_block(&starts, 9, 3), Some((3, false)));
}

#[test]
fn platform_constants() {
    let mut consts = Vec::new();
    init_consts(&mut consts, "linux");
    assert!(consts.contains(&("PLATFORM".to_string(), 0)));
    assert!(consts.contains(&("PLATFORM_WIN32".to_string(), 1)));
    let mut consts = Vec::new();
    init_consts(&mut consts, "windows");
    assert!(consts.contains(&("PLATFORM".to_string(), 1)));
    let mut consts = Vec::new();
    init_consts(&mut consts, "macos");
    assert!(consts.contains(&("PLATFORM".to_string(), 2)));
    assert_eq!(consts.len(), 4);
}
