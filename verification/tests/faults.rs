use rainbow::_type::{Type, Types};
use rainbow::frame::Frame;
use rainbow::instruction::{Instruction, Opcode};
use rainbow::interp::{get_var, Env, Fault};
use rainbow::machine::exec_instruction;
use rainbow::scope::Scope;
use rainbow::step::Control;
use rainbow::value::{Value, Values};

fn ty(t: Types) -> Type {
    Type { typ: vec![t] }
}

fn imm(t: Types, v: Values) -> Value {
    Value { typ: ty(t), val: v }
}

fn step(stack: &mut Vec<Frame>, scope: &Scope, env: Env, op: Opcode) -> Result<Control, Fault> {
    exec_instruction(&Instruction { index: 0, opcode: op }, scope, stack, env)
}

fn env0() -> Env {
    Env { cur: 0, module: 0, global: 0 }
}

#[test]
fn popping_an_empty_frame_is_out_of_bounds() {
    let scope = Scope::new();
    let mut stack = vec![Frame::new()];
    assert!(matches!(step(&mut stack, &scope, env0(), Opcode::POP("x".to_string())), Err(Fault::OutOfBounds)));
}

#[test]
fn popping_a_slot_of_a_forgotten_variable_is_a_corrupt_frame() {
    let scope = Scope::new();
    let mut f = Frame::new();
    f.stack.push(imm(Types::I32, Values::SIGNED(1)));
    f.allocs.push("gone".to_string());
    let mut stack = vec![f];
    assert!(matches!(step(&mut stack, &scope, env0(), Opcode::POP("x".to_string())), Err(Fault::CorruptFrame)));
}

#[test]
fn values_of_the_wrong_kind_are_refused() {
    let scope = Scope::new();
    let mut stack = vec![Frame::new()];
    step(&mut stack, &scope, env0(), Opcode::VAR_TYPE_NAME(ty(Types::I32), "v".to_string())).unwrap();
    let r = step(&mut stack, &scope, env0(), Opcode::JMP_IMM(imm(Types::F64, Values::DECIMAL(1.0f64.to_bits()))));
    assert!(matches!(r, Err(Fault::NotAnAddress)));
    assert!(matches!(step(&mut stack, &scope, env0(), Opcode::CALL_VAR("v".to_string())), Err(Fault::NotAName)));
    let r = step(&mut stack, &scope, env0(), Opcode::VAR_VAR_NAME("v".to_string(), "w".to_string()));
    assert!(matches!(r, Err(Fault::NotAType)));
    assert!(matches!(get_var(&"v.x".to_string(), &scope, &stack, env0()), Err(Fault::NotAStruct)));
}

#[test]
fn instances_need_a_declared_struct() {
    let scope = Scope::new();
    let mut stack = vec![Frame::new()];
    step(&mut stack, &scope, env0(), Opcode::VAR_TYPE_NAME(ty(Types::STRUCT), "p".to_string())).unwrap();
    let r = step(&mut stack, &scope, env0(), Opcode::INST_NAME("nope".to_string(), "p".to_string()));
    assert!(matches!(r, Err(Fault::UnknownStruct)));
}

#[test]
fn returning_from_the_bottom_frame_has_no_caller() {
    let scope = Scope::new();
    let mut stack = vec![Frame::new(), Frame::new()];
    let env = Env { cur: 0, module: 1, global: 1 };
    let r = step(&mut stack, &scope, env, Opcode::RET_IMM(imm(Types::I32, Values::SIGNED(1))));
    assert!(matches!(r, Err(Fault::NoCaller)));
}
