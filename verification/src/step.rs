//! What one instruction does to the frames, and which action it leaves to the
//! caller: the next instruction, a jump, leaving the block, finishing with an
//! exit code, a call, or a float operation.
use vstd::prelude::*;
use crate::_type::{Type, Types};
use crate::_struct::{Struct, struct_view};
use crate::frame::{Frame, FrameV, frame_view, push_slot, declare_var, default_val, set_slot};
use crate::names::{klookup, kremove, lookup, get_name};
use crate::parse_scope::frames_view;
use crate::scope::Scope;
use crate::instruction::{Arg, ArgV, Instruction, instr_view, arg_views, decode};
use crate::interp::{Env, Fault, env_ok, var_of, read_var, write_var, write_slot, slot_value, structs_of,
    get_var, set_var};
use crate::value::{Value, Values, ValuesV, MathOp, BitOp, Arith, ArithV, is_number, to_i64, to_u64, to_usize,
    to_f64, math_ok, math_v, bit_ok, bit_v, not_v, relation_v, relation};
use crate::float::{f64_eq, f64_lt, f64_as_i64, f64_as_u64, f64_to_i64, f64_to_u64, f64_equal, f64_less};

verus! {

/// What the caller does after an instruction.
#[derive(Debug)]
pub enum Control {
    /// Run the next instruction.
    Next,
    /// Continue at this address.
    Jump(usize),
    /// Leave the block.
    Exit,
    /// Stop with this exit code.
    Finish(i32),
    /// Call the function or native function of this name.
    Call(String),
    /// Compute this float operation on two f64 bit patterns and store the
    /// decimal result in the variable.
    Float(MathOp, u64, u64, String),
}

pub enum ControlV {
    Next,
    Jump(usize),
    Exit,
    Finish(i32),
    Call(Seq<char>),
    Float(MathOp, u64, u64, Seq<char>),
}

impl View for Control {
    type V = ControlV;

    open spec fn view(&self) -> ControlV {
        match self {
            Control::Next => ControlV::Next,
            Control::Jump(p) => ControlV::Jump(*p),
            Control::Exit => ControlV::Exit,
            Control::Finish(c) => ControlV::Finish(*c),
            Control::Call(n) => ControlV::Call(n@),
            Control::Float(op, a, b, n) => ControlV::Float(*op, *a, *b, n@),
        }
    }
}

/// The action and the frames after an instruction, or its fault.
pub type Outcome = Result<(ControlV, Seq<FrameV>), Fault>;

pub type Structs = Seq<(String, Struct)>;

/// The value an argument stands for: an immediate, or a variable's value.
pub open spec fn operand(fs: Seq<FrameV>, env: Env, st: Structs, a: ArgV) -> Result<(Seq<Types>, ValuesV), Fault> {
    match a {
        ArgV::Imm(v) => Ok(v),
        ArgV::Str(n) => read_var(fs, env, st, n),
        ArgV::Ty(_) => Err(Fault::InvalidOperands),
    }
}

/// A name written in the instruction.
pub open spec fn literal_name(a: ArgV) -> Result<Seq<char>, Fault> {
    match a {
        ArgV::Str(n) => Ok(n),
        _ => Err(Fault::InvalidOperands),
    }
}

/// A name held by the variable the argument names.
pub open spec fn held_name(fs: Seq<FrameV>, env: Env, st: Structs, a: ArgV) -> Result<Seq<char>, Fault> {
    match literal_name(a) {
        Err(e) => Err(e),
        Ok(n) => match read_var(fs, env, st, n) {
            Err(e) => Err(e),
            Ok(v) => match v.1 {
                ValuesV::NAME(x) => Ok(x),
                _ => Err(Fault::NotAName),
            },
        },
    }
}

/// A name written in the instruction, or held by a variable.
pub open spec fn name_in(fs: Seq<FrameV>, env: Env, st: Structs, a: ArgV, held: bool) -> Result<Seq<char>, Fault> {
    if held { held_name(fs, env, st, a) } else { literal_name(a) }
}

/// A type written in the instruction, or held by a variable.
pub open spec fn type_in(fs: Seq<FrameV>, env: Env, st: Structs, a: ArgV, held: bool) -> Result<Seq<Types>, Fault> {
    if held {
        match literal_name(a) {
            Err(e) => Err(e),
            Ok(n) => match read_var(fs, env, st, n) {
                Err(e) => Err(e),
                Ok(v) => match v.1 {
                    ValuesV::TYPE(t) => Ok(t),
                    _ => Err(Fault::NotAType),
                },
            },
        }
    } else {
        match a {
            ArgV::Ty(t) => Ok(t),
            _ => Err(Fault::InvalidOperands),
        }
    }
}

/// A number used as a slot index, converted as `as usize` does.
pub open spec fn index_of(v: ValuesV) -> Result<usize, Fault> {
    if is_number(v) { Ok(to_usize(v)) } else { Err(Fault::InvalidOperands) }
}

/// A jump address: an unsigned integer, or a signed one that is not negative.
pub open spec fn jump_addr(v: ValuesV) -> Result<usize, Fault> {
    match v {
        ValuesV::UNSIGNED(c) => Ok(c as usize),
        ValuesV::SIGNED(c) => if c < 0 { Err(Fault::NegativeAddress) } else { Ok(c as usize) },
        _ => Err(Fault::NotAnAddress),
    }
}

/// The six jump conditions on integers: `0` not equal, `1` equal, `2` at
/// least, `3` above, `4` at most, `5` below.
pub open spec fn rel6(k: int, x: int, y: int) -> bool {
    if k == 0 { x != y } else if k == 1 { x == y } else if k == 2 { x >= y } else if k == 3 { x > y } else if k == 4 { x <= y } else { x < y }
}

/// The six jump conditions on f64s.
pub open spec fn frel6(k: int, x: u64, y: u64) -> bool {
    if k == 0 {
        !f64_eq(x, y)
    } else if k == 1 {
        f64_eq(x, y)
    } else if k == 2 {
        f64_lt(y, x) || f64_eq(x, y)
    } else if k == 3 {
        f64_lt(y, x)
    } else if k == 4 {
        f64_lt(x, y) || f64_eq(x, y)
    } else {
        f64_lt(x, y)
    }
}

/// Whether a conditional jump on `a` and `b` is taken: both must be signed,
/// unsigned or decimal, and `a` is converted to the kind of `b`.
pub open spec fn jump_cond(k: int, a: ValuesV, b: ValuesV) -> Result<bool, Fault> {
    if !(a is SIGNED || a is UNSIGNED || a is DECIMAL) {
        Err(Fault::InvalidOperands)
    } else {
        match b {
            ValuesV::SIGNED(y) => Ok(rel6(k, to_i64(a) as int, y as int)),
            ValuesV::UNSIGNED(y) => Ok(rel6(k, to_u64(a) as int, y as int)),
            ValuesV::DECIMAL(y) => Ok(frel6(k, to_f64(a), y)),
            _ => Err(Fault::InvalidOperands),
        }
    }
}

/// The number of arguments each opcode takes.
pub open spec fn arity(o: u8) -> int {
    if o == 0x00 || o == 0x6A {
        0
    } else if o == 0x01 || o == 0x02 || o == 0x03 || o == 0x06 || o == 0x07 || o == 0x18 || o == 0x19
        || o == 0x6B || o == 0x6C || o == 0x7F {
        1
    } else if o == 0x04 || o == 0x05 || (0x4A <= o <= 0x4F) || o == 0x5C || o == 0x5D || (0x66 <= o <= 0x69)
        || (0x6D <= o <= 0x72) || (0x80 <= o <= 0x83) {
        2
    } else if 0x8C <= o <= 0x93 {
        4
    } else {
        3
    }
}

/// The opcodes the interpreter does not run.
pub open spec fn unknown_op(o: u8) -> bool {
    o == 0x72 || (0x84 <= o <= 0x8B) || o > 0x93
}

/// The arithmetic operation of an opcode of the ADD, SUB, MUL, DIV or MOD
/// families.
pub open spec fn math_op_of(o: u8) -> MathOp {
    if o <= 0x0B {
        MathOp::Add
    } else if o <= 0x0F {
        MathOp::Sub
    } else if o <= 0x13 {
        MathOp::Mul
    } else if o <= 0x17 {
        MathOp::Div
    } else {
        MathOp::Rem
    }
}

/// The bitwise operation of an opcode of the AND, OR, XOR, LSH or RSH
/// families.
pub open spec fn bit_op_of(o: u8) -> BitOp {
    if o <= 0x53 {
        BitOp::And
    } else if o <= 0x57 {
        BitOp::Or
    } else if o <= 0x5B {
        BitOp::Xor
    } else if o <= 0x61 {
        BitOp::Lsh
    } else {
        BitOp::Rsh
    }
}

/// `PUSH`: the operand goes on top of the current frame.
pub open spec fn push_step(fs: Seq<FrameV>, env: Env, st: Structs, args: Seq<ArgV>) -> Outcome {
    match operand(fs, env, st, args[0]) {
        Err(e) => Err(e),
        Ok(v) => Ok((ControlV::Next, fs.update(env.cur as int, push_slot(fs[env.cur as int], v, Seq::empty())))),
    }
}

/// Popping the top slot of a frame: the slot and the frame after it, which
/// forgets the variable owning the slot.
pub open spec fn pop_frame(f: FrameV) -> Result<((Seq<Types>, ValuesV), FrameV), Fault> {
    if f.allocs.len() == 0 {
        Err(Fault::OutOfBounds)
    } else if f.allocs.last().len() > 0 && klookup(f.vars, f.allocs.last()) is None {
        Err(Fault::CorruptFrame)
    } else if f.stack.len() == 0 {
        Err(Fault::OutOfBounds)
    } else {
        Ok((f.stack.last(), FrameV {
            vars: if f.allocs.last().len() > 0 { kremove(f.vars, f.allocs.last()) } else { f.vars },
            stack: f.stack.drop_last(),
            allocs: f.allocs.drop_last(),
        }))
    }
}

/// `POP`: the top slot of the current frame goes into the variable.
pub open spec fn pop_step(fs: Seq<FrameV>, env: Env, st: Structs, args: Seq<ArgV>) -> Outcome {
    match literal_name(args[0]) {
        Err(e) => Err(e),
        Ok(n) => match pop_frame(fs[env.cur as int]) {
            Err(e) => Err(e),
            Ok((v, f)) => match write_var(fs.update(env.cur as int, f), env, st, n, v.1) {
                Err(e) => Err(e),
                Ok(fs2) => Ok((ControlV::Next, fs2)),
            },
        },
    }
}

/// `PEEK`: the slot of the current frame at the given index goes into the
/// variable.
pub open spec fn peek_step(fs: Seq<FrameV>, env: Env, st: Structs, args: Seq<ArgV>) -> Outcome {
    match operand(fs, env, st, args[0]) {
        Err(e) => Err(e),
        Ok(v) => match index_of(v.1) {
            Err(e) => Err(e),
            Ok(i) => match slot_value(fs, (env.cur as int, i as int)) {
                Err(e) => Err(e),
                Ok(x) => match literal_name(args[1]) {
                    Err(e) => Err(e),
                    Ok(n) => match write_var(fs, env, st, n, x.1) {
                        Err(e) => Err(e),
                        Ok(fs2) => Ok((ControlV::Next, fs2)),
                    },
                },
            },
        },
    }
}

/// `CALL`: the call of a function named in the instruction or held by a
/// variable.
pub open spec fn call_step(fs: Seq<FrameV>, env: Env, st: Structs, o: u8, args: Seq<ArgV>) -> Outcome {
    match name_in(fs, env, st, args[0], o == 0x07) {
        Err(e) => Err(e),
        Ok(n) => Ok((ControlV::Call(n), fs)),
    }
}

/// `ADD`, `SUB`, `MUL`, `DIV`, `MOD`: the result goes into the variable; a
/// decimal left operand leaves the float operation to the caller.
pub open spec fn math_step(fs: Seq<FrameV>, env: Env, st: Structs, op: MathOp, args: Seq<ArgV>) -> Outcome {
    match operand(fs, env, st, args[0]) {
        Err(e) => Err(e),
        Ok(a) => match operand(fs, env, st, args[1]) {
            Err(e) => Err(e),
            Ok(b) => match literal_name(args[2]) {
                Err(e) => Err(e),
                Ok(n) => if !math_ok(op, a.1, b.1) {
                    Err(Fault::InvalidOperands)
                } else {
                    match math_v(op, a.1, b.1) {
                        ArithV::Done(v) => match write_var(fs, env, st, n, v) {
                            Err(e) => Err(e),
                            Ok(fs2) => Ok((ControlV::Next, fs2)),
                        },
                        ArithV::Float(o, x, y) => Ok((ControlV::Float(o, x, y, n), fs)),
                    }
                },
            },
        },
    }
}

/// `JMP`: continue at the operand's address.
pub open spec fn jmp_step(fs: Seq<FrameV>, env: Env, st: Structs, args: Seq<ArgV>) -> Outcome {
    match operand(fs, env, st, args[0]) {
        Err(e) => Err(e),
        Ok(v) => match jump_addr(v.1) {
            Err(e) => Err(e),
            Ok(p) => Ok((ControlV::Jump(p), fs)),
        },
    }
}

/// `JNE`, `JE`, `JGE`, `JG`, `JLE`, `JL`: continue at the third operand's
/// address when the condition holds of the first two.
pub open spec fn jcc_step(fs: Seq<FrameV>, env: Env, st: Structs, k: int, args: Seq<ArgV>) -> Outcome {
    match operand(fs, env, st, args[0]) {
        Err(e) => Err(e),
        Ok(a) => match operand(fs, env, st, args[1]) {
            Err(e) => Err(e),
            Ok(b) => match operand(fs, env, st, args[2]) {
                Err(e) => Err(e),
                Ok(c) => match jump_addr(c.1) {
                    Err(e) => Err(e),
                    Ok(p) => match jump_cond(k, a.1, b.1) {
                        Err(e) => Err(e),
                        Ok(t) => Ok((if t { ControlV::Jump(p) } else { ControlV::Next }, fs)),
                    },
                },
            },
        },
    }
}

/// `MOV`: the source (an immediate, a variable, or a variable named by a
/// variable) goes into the target (named in the instruction or by a
/// variable).
pub open spec fn mov_step(fs: Seq<FrameV>, env: Env, st: Structs, o: u8, args: Seq<ArgV>) -> Outcome {
    let f = o - 0x4A;
    let src = if f % 3 == 2 {
        match held_name(fs, env, st, args[0]) {
            Err(e) => Err(e),
            Ok(n) => read_var(fs, env, st, n),
        }
    } else {
        operand(fs, env, st, args[0])
    };
    match src {
        Err(e) => Err(e),
        Ok(v) => match name_in(fs, env, st, args[1], f >= 3) {
            Err(e) => Err(e),
            Ok(n) => match write_var(fs, env, st, n, v.1) {
                Err(e) => Err(e),
                Ok(fs2) => Ok((ControlV::Next, fs2)),
            },
        },
    }
}

/// `AND`, `OR`, `XOR`, `LSH`, `RSH`: the result goes into the variable.
pub open spec fn bit_step(fs: Seq<FrameV>, env: Env, st: Structs, op: BitOp, args: Seq<ArgV>) -> Outcome {
    match operand(fs, env, st, args[0]) {
        Err(e) => Err(e),
        Ok(a) => match operand(fs, env, st, args[1]) {
            Err(e) => Err(e),
            Ok(b) => match literal_name(args[2]) {
                Err(e) => Err(e),
                Ok(n) => if !bit_ok(op, a.1, b.1) {
                    Err(Fault::InvalidOperands)
                } else {
                    match write_var(fs, env, st, n, bit_v(op, a.1, b.1)) {
                        Err(e) => Err(e),
                        Ok(fs2) => Ok((ControlV::Next, fs2)),
                    }
                },
            },
        },
    }
}

/// `NOT`: the result goes into the variable.
pub open spec fn not_step(fs: Seq<FrameV>, env: Env, st: Structs, args: Seq<ArgV>) -> Outcome {
    match operand(fs, env, st, args[0]) {
        Err(e) => Err(e),
        Ok(a) => match literal_name(args[1]) {
            Err(e) => Err(e),
            Ok(n) => if !(a.1 is VOID || is_number(a.1)) {
                Err(Fault::InvalidOperands)
            } else {
                match write_var(fs, env, st, n, not_v(a.1)) {
                    Err(e) => Err(e),
                    Ok(fs2) => Ok((ControlV::Next, fs2)),
                }
            },
        },
    }
}

/// `VAR`: declares a variable of the given type in the current frame (a name
/// already declared there is kept).
pub open spec fn var_step(fs: Seq<FrameV>, env: Env, st: Structs, o: u8, args: Seq<ArgV>) -> Outcome {
    let f = o - 0x66;
    match type_in(fs, env, st, args[0], f % 2 == 1) {
        Err(e) => Err(e),
        Ok(t) => match name_in(fs, env, st, args[1], f >= 2) {
            Err(e) => Err(e),
            Ok(n) => if t.len() == 0 {
                Err(Fault::InvalidOperands)
            } else {
                Ok((ControlV::Next, fs.update(env.cur as int, declare_var(fs[env.cur as int], n, (t, default_val(t[0]))))))
            },
        },
    }
}

/// `f as i32` for the f64 with bit pattern `b`: its integer part saturated to
/// the range of `i32`; a NaN gives 0.
pub open spec fn f64_as_i32(b: u64) -> i32 {
    let x = f64_as_i64(b);
    if x < i32::MIN { i32::MIN } else if x > i32::MAX { i32::MAX } else { x as i32 }
}

/// The exit code a returned value gives: a number cast to `i32` as `as` does,
/// anything else 0.
pub open spec fn exit_code(v: ValuesV) -> i32 {
    match v {
        ValuesV::SIGNED(n) => n as i32,
        ValuesV::UNSIGNED(n) => n as i32,
        ValuesV::DECIMAL(n) => f64_as_i32(n),
        ValuesV::POINTER(n, _) => n as i32,
        _ => 0,
    }
}

/// `RET` with a value: below the global frame the value goes on top of the
/// frame beneath and the block is left; at the global frame the program
/// finishes with the value's exit code.
pub open spec fn ret_step(fs: Seq<FrameV>, env: Env, st: Structs, args: Seq<ArgV>) -> Outcome {
    match operand(fs, env, st, args[0]) {
        Err(e) => Err(e),
        Ok(v) => if env.cur != env.global {
            if env.cur == 0 {
                Err(Fault::NoCaller)
            } else {
                Ok((ControlV::Exit, fs.update(env.cur - 1, push_slot(fs[env.cur - 1], v, Seq::empty()))))
            }
        } else {
            Ok((ControlV::Finish(exit_code(v.1)), fs))
        },
    }
}

/// `DEREF`: the slot of the global frame at the pointer's index goes into the
/// variable.
pub open spec fn deref_step(fs: Seq<FrameV>, env: Env, st: Structs, args: Seq<ArgV>) -> Outcome {
    match operand(fs, env, st, args[0]) {
        Err(e) => Err(e),
        Ok(p) => match index_of(p.1) {
            Err(e) => Err(e),
            Ok(i) => match slot_value(fs, (env.global as int, i as int)) {
                Err(e) => Err(e),
                Ok(x) => match literal_name(args[1]) {
                    Err(e) => Err(e),
                    Ok(n) => match write_var(fs, env, st, n, x.1) {
                        Err(e) => Err(e),
                        Ok(fs2) => Ok((ControlV::Next, fs2)),
                    },
                },
            },
        },
    }
}

/// Making the pointer variable `out` point at slot `i` of the global frame:
/// its type must be a pointer type.
pub open spec fn point_to(fs: Seq<FrameV>, env: Env, st: Structs, out: Seq<char>, i: usize) -> Outcome {
    match read_var(fs, env, st, out) {
        Err(e) => Err(e),
        Ok(v) => if v.0.len() == 0 || v.0[0] != Types::POINTER {
            Err(Fault::InvalidOperands)
        } else {
            match write_var(fs, env, st, out, ValuesV::POINTER(i, 1)) {
                Err(e) => Err(e),
                Ok(fs2) => Ok((ControlV::Next, fs2)),
            }
        },
    }
}

/// `REF` of an immediate: the value goes on top of the global frame and the
/// variable points at it.
pub open spec fn ref_imm_step(fs: Seq<FrameV>, env: Env, st: Structs, args: Seq<ArgV>) -> Outcome {
    match operand(fs, env, st, args[0]) {
        Err(e) => Err(e),
        Ok(v) => match literal_name(args[1]) {
            Err(e) => Err(e),
            Ok(out) => point_to(fs.update(env.global as int, push_slot(fs[env.global as int], v, Seq::empty())),
                env, st, out, fs[env.global as int].stack.len() as usize),
        },
    }
}

/// `REF` of a variable: a variable of the current frame that the global frame
/// lacks is declared there with its value, and the pointer variable points at
/// the end of the global frame as it was.
pub open spec fn ref_var_step(fs: Seq<FrameV>, env: Env, st: Structs, args: Seq<ArgV>) -> Outcome {
    let g = env.global as int;
    let c = env.cur as int;
    match literal_name(args[0]) {
        Err(e) => Err(e),
        Ok(var) => {
            let fs1: Result<Seq<FrameV>, Fault> = if var_of(fs[g], var) is Some {
                Ok(fs)
            } else {
                match var_of(fs[c], var) {
                    None => Err(Fault::UndefinedVariable),
                    Some(i) => match slot_value(fs, (c, i as int)) {
                        Err(e) => Err(e),
                        Ok(x) => Ok(fs.update(g, declare_var(fs[g], var, x))),
                    },
                }
            };
            match fs1 {
                Err(e) => Err(e),
                Ok(fs1) => match literal_name(args[1]) {
                    Err(e) => Err(e),
                    Ok(out) => point_to(fs1, env, st, out, fs[g].stack.len() as usize),
                },
            }
        },
    }
}

/// A frame with default slots of the given types pushed, owned by no variable.
pub open spec fn push_defaults(f: FrameV, ts: Seq<Seq<Types>>) -> FrameV {
    FrameV {
        stack: f.stack + ts.map_values(|t: Seq<Types>| (t, default_val(t[0]))),
        allocs: f.allocs + Seq::new(ts.len(), |i: int| Seq::<char>::empty()),
        ..f
    }
}

/// `INST`: the variable gets a struct value at the end of the current frame,
/// and one default slot per field is pushed there.
pub open spec fn inst_step(fs: Seq<FrameV>, env: Env, st: Structs, args: Seq<ArgV>) -> Outcome {
    let c = env.cur as int;
    match literal_name(args[0]) {
        Err(e) => Err(e),
        Ok(sname) => match literal_name(args[1]) {
            Err(e) => Err(e),
            Ok(out) => match lookup(st, sname) {
                None => Err(Fault::UnknownStruct),
                Some(def) => match write_var(fs, env, st, out, ValuesV::STRUCT(sname, fs[c].stack.len() as usize)) {
                    Err(e) => Err(e),
                    Ok(fs1) => {
                        let ts = struct_view(def).var_types;
                        if !(forall|i: int| 0 <= i < ts.len() ==> #[trigger] ts[i].len() > 0) {
                            Err(Fault::InvalidOperands)
                        } else {
                            Ok((ControlV::Next, fs1.update(c, push_defaults(fs1[c], ts))))
                        }
                    },
                },
            },
        },
    }
}

/// `PMOV`: the value goes into the slot of the global frame at the pointer
/// variable's index plus the offset.
pub open spec fn pmov_step(fs: Seq<FrameV>, env: Env, st: Structs, args: Seq<ArgV>) -> Outcome {
    match operand(fs, env, st, args[2]) {
        Err(e) => Err(e),
        Ok(off) => match operand(fs, env, st, args[0]) {
            Err(e) => Err(e),
            Ok(v) => match literal_name(args[1]) {
                Err(e) => Err(e),
                Ok(pn) => match read_var(fs, env, st, pn) {
                    Err(e) => Err(e),
                    Ok(pv) => match index_of(pv.1) {
                        Err(e) => Err(e),
                        Ok(p) => match index_of(off.1) {
                            Err(e) => Err(e),
                            Ok(o) => if p + o > usize::MAX || p + o > fs[env.global as int].stack.len() {
                                Err(Fault::OutOfBounds)
                            } else {
                                match write_slot(fs, (env.global as int, p + o), v.1) {
                                    Err(e) => Err(e),
                                    Ok(fs2) => Ok((ControlV::Next, fs2)),
                                }
                            },
                        },
                    },
                },
            },
        },
    }
}

/// The element count an allocation takes: a signed, unsigned or decimal
/// number converted as `as u64` does.
pub open spec fn amount_of(v: ValuesV) -> Result<u64, Fault> {
    if v is SIGNED || v is UNSIGNED || v is DECIMAL { Ok(to_u64(v)) } else { Err(Fault::InvalidOperands) }
}

/// A frame with `n` default slots of type `t` pushed, owned by `owner`.
pub open spec fn push_allocs(f: FrameV, t: Seq<Types>, owner: Seq<char>, n: nat) -> FrameV {
    FrameV {
        stack: f.stack + Seq::new(n, |i: int| (t, default_val(t[0]))),
        allocs: f.allocs + Seq::new(n, |i: int| owner),
        ..f
    }
}

/// `ALLOC`: the variable of the current frame points at the end of the global
/// frame, where the given number of default slots of the type are pushed.
pub open spec fn alloc_step(fs: Seq<FrameV>, env: Env, st: Structs, o: u8, args: Seq<ArgV>) -> Outcome {
    let f = o - 0x7B;
    let g = env.global as int;
    match type_in(fs, env, st, args[0], f % 2 == 1) {
        Err(e) => Err(e),
        Ok(t) => match operand(fs, env, st, args[1]) {
            Err(e) => Err(e),
            Ok(a) => match amount_of(a.1) {
                Err(e) => Err(e),
                Ok(n) => match literal_name(args[2]) {
                    Err(e) => Err(e),
                    Ok(out) => match var_of(fs[env.cur as int], out) {
                        None => Err(Fault::UndefinedVariable),
                        Some(i) => match write_slot(fs, (env.cur as int, i as int),
                            ValuesV::POINTER(fs[g].stack.len() as usize, n as usize)) {
                            Err(e) => Err(e),
                            Ok(fs1) => if n > 0 && t.len() == 0 {
                                Err(Fault::InvalidOperands)
                            } else {
                                Ok((ControlV::Next, fs1.update(g, push_allocs(fs1[g], t, out, n as nat))))
                            },
                        },
                    },
                },
            },
        },
    }
}

/// The loop that frees an allocation: while the owner recorded at `index`
/// is `p`, the slot at `start` is removed and `index` moves on.
pub open spec fn free_run(f: FrameV, p: Seq<char>, start: int, index: int) -> Result<FrameV, Fault>
    decreases f.allocs.len() + 1 - index,
{
    if !(0 <= index < f.allocs.len()) {
        Err(Fault::OutOfBounds)
    } else if f.allocs[index] != p {
        Ok(f)
    } else if !(0 <= start < f.allocs.len() && start < f.stack.len()) {
        Err(Fault::OutOfBounds)
    } else {
        free_run(FrameV { allocs: f.allocs.remove(start), stack: f.stack.remove(start), ..f }, p, start, index + 1)
    }
}

/// `FREE` of a pointer variable of the global frame: the variable is removed
/// and the slots it owns from its slot on are removed.
pub open spec fn free_var_step(fs: Seq<FrameV>, env: Env, args: Seq<ArgV>) -> Outcome {
    let g = env.global as int;
    match literal_name(args[0]) {
        Err(e) => Err(e),
        Ok(p) => match var_of(fs[g], p) {
            None => Err(Fault::UndefinedVariable),
            Some(i) => match free_run(FrameV { vars: kremove(fs[g].vars, p), ..fs[g] }, p, i as int, i as int) {
                Err(e) => Err(e),
                Ok(f) => Ok((ControlV::Next, fs.update(g, f))),
            },
        },
    }
}

/// `FREE` of a count of slots: that many slots of the global frame are
/// removed from the pointer's index on.
pub open spec fn free_step(fs: Seq<FrameV>, env: Env, st: Structs, args: Seq<ArgV>) -> Outcome {
    let g = env.global as int;
    match operand(fs, env, st, args[0]) {
        Err(e) => Err(e),
        Ok(pv) => match operand(fs, env, st, args[1]) {
            Err(e) => Err(e),
            Ok(av) => match index_of(pv.1) {
                Err(e) => Err(e),
                Ok(s) => match index_of(av.1) {
                    Err(e) => Err(e),
                    Ok(n) => if n == 0 {
                        Ok((ControlV::Next, fs))
                    } else if s + n > fs[g].allocs.len() || s + n > fs[g].stack.len() {
                        Err(Fault::OutOfBounds)
                    } else {
                        Ok((ControlV::Next, fs.update(g, FrameV {
                            allocs: fs[g].allocs.take(s as int) + fs[g].allocs.skip(s + n),
                            stack: fs[g].stack.take(s as int) + fs[g].stack.skip(s + n),
                            ..fs[g]
                        })))
                    },
                },
            },
        },
    }
}

/// The condition code of `CMP`: a signed, unsigned or decimal number
/// converted as `as u64` does.
pub open spec fn cond_code(v: ValuesV) -> Result<u64, Fault> {
    if v is SIGNED || v is UNSIGNED || v is DECIMAL { Ok(to_u64(v)) } else { Err(Fault::InvalidCondition) }
}

/// `CMP`'s comparisons of values, by `==`, `!=` and the order of values:
/// `0` equal, `1` not equal, `2` at least, `3` above, `4` at most, `5` below.
pub open spec fn compare_values(c: u64, a: ValuesV, b: ValuesV) -> Result<bool, Fault> {
    let less = relation_v(1, a, b);
    let greater = relation_v(2, a, b);
    if c == 0 {
        Ok(relation_v(0, a, b))
    } else if c == 1 {
        Ok(!relation_v(0, a, b))
    } else if c == 2 {
        Ok(!less)
    } else if c == 3 {
        Ok(!less && greater)
    } else if c == 4 {
        Ok(less || !greater)
    } else if c == 5 {
        Ok(less)
    } else {
        Err(Fault::InvalidCondition)
    }
}

/// `CMP`: 1 or 0 goes into the variable as the comparison holds or not.
pub open spec fn compare_step(fs: Seq<FrameV>, env: Env, st: Structs, args: Seq<ArgV>) -> Outcome {
    match operand(fs, env, st, args[0]) {
        Err(e) => Err(e),
        Ok(c) => match operand(fs, env, st, args[1]) {
            Err(e) => Err(e),
            Ok(a) => match operand(fs, env, st, args[2]) {
                Err(e) => Err(e),
                Ok(b) => match literal_name(args[3]) {
                    Err(e) => Err(e),
                    Ok(out) => match cond_code(c.1) {
                        Err(e) => Err(e),
                        Ok(code) => match compare_values(code, a.1, b.1) {
                            Err(e) => Err(e),
                            Ok(r) => match write_var(fs, env, st, out, ValuesV::UNSIGNED(if r { 1 } else { 0 })) {
                                Err(e) => Err(e),
                                Ok(fs2) => Ok((ControlV::Next, fs2)),
                            },
                        },
                    },
                },
            },
        },
    }
}

/// What an instruction does: its action and the frames after it, or its
/// fault.
#[verifier::opaque]
pub open spec fn step_v(fs: Seq<FrameV>, env: Env, st: Structs, ins: (int, (u8, Seq<ArgV>))) -> Outcome {
    let o = ins.1.0;
    let args = ins.1.1;
    if unknown_op(o) {
        Err(Fault::UnknownInstruction(o, ins.0 as usize))
    } else if args.len() != arity(o) {
        Err(Fault::InvalidOperands)
    } else if o == 0x00 {
        Ok((ControlV::Next, fs))
    } else if o <= 0x02 {
        push_step(fs, env, st, args)
    } else if o == 0x03 {
        pop_step(fs, env, st, args)
    } else if o <= 0x05 {
        peek_step(fs, env, st, args)
    } else if o <= 0x07 {
        call_step(fs, env, st, o, args)
    } else if o <= 0x17 || (0x73 <= o <= 0x76) {
        math_step(fs, env, st, math_op_of(o), args)
    } else if o <= 0x19 {
        jmp_step(fs, env, st, args)
    } else if o <= 0x49 {
        jcc_step(fs, env, st, (o - 0x1A) / 8, args)
    } else if o <= 0x4F {
        mov_step(fs, env, st, o, args)
    } else if o == 0x5C || o == 0x5D {
        not_step(fs, env, st, args)
    } else if o <= 0x65 {
        bit_step(fs, env, st, bit_op_of(o), args)
    } else if o <= 0x69 {
        var_step(fs, env, st, o, args)
    } else if o == 0x6A {
        Ok((ControlV::Exit, fs))
    } else if o <= 0x6C {
        ret_step(fs, env, st, args)
    } else if o <= 0x6E {
        deref_step(fs, env, st, args)
    } else if o == 0x6F {
        ref_imm_step(fs, env, st, args)
    } else if o == 0x70 {
        ref_var_step(fs, env, st, args)
    } else if o == 0x71 {
        inst_step(fs, env, st, args)
    } else if o <= 0x7A {
        pmov_step(fs, env, st, args)
    } else if o <= 0x7E {
        alloc_step(fs, env, st, o, args)
    } else if o == 0x7F {
        free_var_step(fs, env, args)
    } else if o <= 0x83 {
        free_step(fs, env, st, args)
    } else {
        compare_step(fs, env, st, args)
    }
}

} // verus!