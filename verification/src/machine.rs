//! Running one instruction against the frames, as `step_v` says.
use vstd::prelude::*;
use crate::_type::{Type, Types};
use crate::_struct::{Struct, struct_view};
use crate::frame::{Frame, FrameV, frame_view, push_slot, declare_var, default_val, usize_id};
use crate::names::{klookup, kremove, lookup, get_name, contains_name, remove_name, lemma_kfind, lemma_kview_remove};
use crate::parse_scope::frames_view;
use crate::scope::Scope;
use crate::instruction::{Arg, ArgV, Instruction, instr_view, arg_views, decode};
use crate::interp::{Env, Fault, env_ok, var_of, read_var, write_var, write_slot, slot_value, structs_of,
    get_var, set_var, var_index, slot_set};
use crate::value::{Value, Values, ValuesV, MathOp, BitOp, Arith, ArithV, is_number, to_i64, to_u64, to_usize,
    to_f64, math_ok, math_v, bit_ok, bit_v, not_v, relation_v, relation, math_allowed, bit_allowed,
    num_to_i64, num_to_u64, num_to_usize, num_to_f64};
use crate::float::{f64_to_i64, f64_to_u64, f64_equal, f64_less};
use crate::step::{Control, ControlV, Outcome, operand, literal_name, held_name, name_in, type_in, index_of,
    jump_addr, rel6, frel6, jump_cond, arity, unknown_op, math_op_of, bit_op_of, push_step, pop_frame, pop_step,
    peek_step, call_step, math_step, jmp_step, jcc_step, mov_step, bit_step, not_step, var_step, f64_as_i32,
    exit_code, ret_step, deref_step, point_to, ref_imm_step, ref_var_step, push_defaults, inst_step, pmov_step,
    amount_of, push_allocs, alloc_step, free_run, free_var_step, free_step, cond_code, compare_values, compare_step, step_v};
use vstd::string::StrSliceExecFns;

verus! {

/// Whether `r` is the value result `s`.
pub open spec fn value_is(r: Result<Value, Fault>, s: Result<(Seq<Types>, ValuesV), Fault>) -> bool {
    match r {
        Ok(v) => s == Ok::<(Seq<Types>, ValuesV), Fault>(v@),
        Err(e) => s == Err::<(Seq<Types>, ValuesV), Fault>(e),
    }
}

/// Whether `r` is the name result `s`.
pub open spec fn name_is(r: Result<String, Fault>, s: Result<Seq<char>, Fault>) -> bool {
    match r {
        Ok(v) => s == Ok::<Seq<char>, Fault>(v@),
        Err(e) => s == Err::<Seq<char>, Fault>(e),
    }
}

/// Whether `r` and the frames `fs` are the outcome `s`.
pub open spec fn outcome_is(r: Result<Control, Fault>, s: Outcome, fs: Seq<FrameV>) -> bool {
    match r {
        Ok(c) => s == Ok::<(ControlV, Seq<FrameV>), Fault>((c@, fs)),
        Err(e) => s == Err::<(ControlV, Seq<FrameV>), Fault>(e),
    }
}

fn operand_of(a: &Arg, gs: &Scope, stack: &Vec<Frame>, env: Env) -> (r: Result<Value, Fault>)
    requires
        env_ok(frames_view(stack@), env),
    ensures
        value_is(r, operand(frames_view(stack@), env, structs_of(gs), a@)),
{
    match a {
        Arg::Imm(v) => Ok(v.clone()),
        Arg::Str(n) => get_var(n, gs, stack, env),
        Arg::Ty(_) => Err(Fault::InvalidOperands),
    }
}

fn literal_of(a: &Arg) -> (r: Result<String, Fault>)
    ensures
        name_is(r, literal_name(a@)),
{
    match a {
        Arg::Str(n) => Ok(n.clone()),
        _ => Err(Fault::InvalidOperands),
    }
}

fn name_of(a: &Arg, held: bool, gs: &Scope, stack: &Vec<Frame>, env: Env) -> (r: Result<String, Fault>)
    requires
        env_ok(frames_view(stack@), env),
    ensures
        name_is(r, name_in(frames_view(stack@), env, structs_of(gs), a@, held)),
{
    let n = match literal_of(a) {
        Ok(n) => n,
        Err(e) => return Err(e),
    };
    if !held {
        return Ok(n);
    }
    match get_var(&n, gs, stack, env) {
        Ok(v) => match v.val {
            Values::NAME(x) => Ok(x),
            _ => Err(Fault::NotAName),
        },
        Err(e) => Err(e),
    }
}

fn type_of(a: &Arg, held: bool, gs: &Scope, stack: &Vec<Frame>, env: Env) -> (r: Result<Type, Fault>)
    requires
        env_ok(frames_view(stack@), env),
    ensures
        match r {
            Ok(t) => type_in(frames_view(stack@), env, structs_of(gs), a@, held) == Ok::<Seq<Types>, Fault>(t@),
            Err(e) => type_in(frames_view(stack@), env, structs_of(gs), a@, held) == Err::<Seq<Types>, Fault>(e),
        },
{
    if !held {
        return match a {
            Arg::Ty(t) => Ok(t.clone()),
            _ => Err(Fault::InvalidOperands),
        };
    }
    let n = match literal_of(a) {
        Ok(n) => n,
        Err(e) => return Err(e),
    };
    match get_var(&n, gs, stack, env) {
        Ok(v) => match v.val {
            Values::TYPE(t) => Ok(t),
            _ => Err(Fault::NotAType),
        },
        Err(e) => Err(e),
    }
}

fn index_exec(v: &Values) -> (r: Result<usize, Fault>)
    ensures
        match r {
            Ok(i) => index_of(v@) == Ok::<usize, Fault>(i),
            Err(e) => index_of(v@) == Err::<usize, Fault>(e),
        },
{
    match v {
        Values::SIGNED(_) | Values::UNSIGNED(_) | Values::DECIMAL(_) | Values::POINTER(_, _) => Ok(num_to_usize(v)),
        _ => Err(Fault::InvalidOperands),
    }
}

fn addr_exec(v: &Values) -> (r: Result<usize, Fault>)
    ensures
        match r {
            Ok(i) => jump_addr(v@) == Ok::<usize, Fault>(i),
            Err(e) => jump_addr(v@) == Err::<usize, Fault>(e),
        },
{
    match v {
        Values::UNSIGNED(c) => Ok(*c as usize),
        Values::SIGNED(c) => if *c < 0 { Err(Fault::NegativeAddress) } else { Ok(*c as usize) },
        _ => Err(Fault::NotAnAddress),
    }
}

fn push_frame(stack: &mut Vec<Frame>, k: usize, v: Value)
    requires
        k < old(stack)@.len(),
    ensures
        final(stack)@.len() == old(stack)@.len(),
        frames_view(final(stack)@) == frames_view(old(stack)@).update(k as int,
            push_slot(frames_view(old(stack)@)[k as int], v@, Seq::empty())),
{
    stack[k].push(v);
    proof {
        assert(frames_view(stack@) =~= frames_view(old(stack)@).update(k as int,
            push_slot(frames_view(old(stack)@)[k as int], v@, Seq::empty())));
    }
}

fn push_exec(args: &Vec<Arg>, gs: &Scope, stack: &mut Vec<Frame>, env: Env) -> (r: Result<Control, Fault>)
    requires
        env_ok(frames_view(old(stack)@), env),
        args@.len() == 1,
    ensures
        final(stack)@.len() == old(stack)@.len(),
        outcome_is(r, push_step(frames_view(old(stack)@), env, structs_of(gs), arg_views(args@)), frames_view(final(stack)@)),
{
    let v = match operand_of(&args[0], gs, stack, env) {
        Ok(v) => v,
        Err(e) => return Err(e),
    };
    push_frame(stack, env.cur, v);
    Ok(Control::Next)
}

fn pop_exec(args: &Vec<Arg>, gs: &Scope, stack: &mut Vec<Frame>, env: Env) -> (r: Result<Control, Fault>)
    requires
        env_ok(frames_view(old(stack)@), env),
        args@.len() == 1,
    ensures
        final(stack)@.len() == old(stack)@.len(),
        outcome_is(r, pop_step(frames_view(old(stack)@), env, structs_of(gs), arg_views(args@)), frames_view(final(stack)@)),
{
    let n = match literal_of(&args[0]) {
        Ok(n) => n,
        Err(e) => return Err(e),
    };
    let ghost fs = frames_view(stack@);
    let c = env.cur;
    let na = stack[c].allocs.len();
    if na == 0 {
        return Err(Fault::OutOfBounds);
    }
    proof {
        lemma_kfind(stack@[c as int].vars@, |x: usize| usize_id(x), stack@[c as int].allocs@[na - 1]@);
        assert(fs[c as int].allocs.last() == stack@[c as int].allocs@.last()@);
    }
    if stack[c].allocs[na - 1].as_str().unicode_len() > 0 && !contains_name(&stack[c].vars, &stack[c].allocs[na - 1]) {
        return Err(Fault::CorruptFrame);
    }
    if stack[c].stack.len() == 0 {
        return Err(Fault::OutOfBounds);
    }
    let v = stack[c].pop();
    proof {
        assert(frames_view(stack@) =~= fs.update(c as int, pop_frame(fs[c as int])->Ok_0.1));
    }
    match set_var(&n, &v.val, gs, stack, env) {
        Ok(_) => Ok(Control::Next),
        Err(e) => Err(e),
    }
}

fn peek_exec(args: &Vec<Arg>, gs: &Scope, stack: &mut Vec<Frame>, env: Env) -> (r: Result<Control, Fault>)
    requires
        env_ok(frames_view(old(stack)@), env),
        args@.len() == 2,
    ensures
        final(stack)@.len() == old(stack)@.len(),
        outcome_is(r, peek_step(frames_view(old(stack)@), env, structs_of(gs), arg_views(args@)), frames_view(final(stack)@)),
{
    let v = match operand_of(&args[0], gs, stack, env) {
        Ok(v) => v,
        Err(e) => return Err(e),
    };
    let i = match index_exec(&v.val) {
        Ok(i) => i,
        Err(e) => return Err(e),
    };
    if i >= stack[env.cur].len() {
        return Err(Fault::OutOfBounds);
    }
    let x = stack[env.cur].get(i).clone();
    let n = match literal_of(&args[1]) {
        Ok(n) => n,
        Err(e) => return Err(e),
    };
    match set_var(&n, &x.val, gs, stack, env) {
        Ok(_) => Ok(Control::Next),
        Err(e) => Err(e),
    }
}

fn call_exec(o: u8, args: &Vec<Arg>, gs: &Scope, stack: &Vec<Frame>, env: Env) -> (r: Result<Control, Fault>)
    requires
        env_ok(frames_view(stack@), env),
        args@.len() == 1,
    ensures
        outcome_is(r, call_step(frames_view(stack@), env, structs_of(gs), o, arg_views(args@)), frames_view(stack@)),
{
    match name_of(&args[0], o == 0x07, gs, stack, env) {
        Ok(n) => Ok(Control::Call(n)),
        Err(e) => Err(e),
    }
}

fn math_exec(op: MathOp, args: &Vec<Arg>, gs: &Scope, stack: &mut Vec<Frame>, env: Env) -> (r: Result<Control, Fault>)
    requires
        env_ok(frames_view(old(stack)@), env),
        args@.len() == 3,
    ensures
        final(stack)@.len() == old(stack)@.len(),
        outcome_is(r, math_step(frames_view(old(stack)@), env, structs_of(gs), op, arg_views(args@)), frames_view(final(stack)@)),
{
    let a = match operand_of(&args[0], gs, stack, env) {
        Ok(v) => v,
        Err(e) => return Err(e),
    };
    let b = match operand_of(&args[1], gs, stack, env) {
        Ok(v) => v,
        Err(e) => return Err(e),
    };
    let n = match literal_of(&args[2]) {
        Ok(n) => n,
        Err(e) => return Err(e),
    };
    if !math_allowed(op, &a.val, &b.val) {
        return Err(Fault::InvalidOperands);
    }
    match a.val.math(op, &b.val) {
        Arith::Done(v) => match set_var(&n, &v, gs, stack, env) {
            Ok(_) => Ok(Control::Next),
            Err(e) => Err(e),
        },
        Arith::Float(o, x, y) => Ok(Control::Float(o, x, y, n)),
    }
}

fn jmp_exec(args: &Vec<Arg>, gs: &Scope, stack: &Vec<Frame>, env: Env) -> (r: Result<Control, Fault>)
    requires
        env_ok(frames_view(stack@), env),
        args@.len() == 1,
    ensures
        outcome_is(r, jmp_step(frames_view(stack@), env, structs_of(gs), arg_views(args@)), frames_view(stack@)),
{
    let v = match operand_of(&args[0], gs, stack, env) {
        Ok(v) => v,
        Err(e) => return Err(e),
    };
    match addr_exec(&v.val) {
        Ok(p) => Ok(Control::Jump(p)),
        Err(e) => Err(e),
    }
}

fn rel6_exec(k: u8, x: i128, y: i128) -> (r: bool)
    ensures
        r == rel6(k as int, x as int, y as int),
{
    if k == 0 { x != y } else if k == 1 { x == y } else if k == 2 { x >= y } else if k == 3 { x > y } else if k == 4 { x <= y } else { x < y }
}

fn frel6_exec(k: u8, x: u64, y: u64) -> (r: bool)
    ensures
        r == frel6(k as int, x, y),
{
    if k == 0 {
        !f64_equal(x, y)
    } else if k == 1 {
        f64_equal(x, y)
    } else if k == 2 {
        f64_less(y, x) || f64_equal(x, y)
    } else if k == 3 {
        f64_less(y, x)
    } else if k == 4 {
        f64_less(x, y) || f64_equal(x, y)
    } else {
        f64_less(x, y)
    }
}

fn jump_cond_exec(k: u8, a: &Values, b: &Values) -> (r: Result<bool, Fault>)
    ensures
        match r {
            Ok(t) => jump_cond(k as int, a@, b@) == Ok::<bool, Fault>(t),
            Err(e) => jump_cond(k as int, a@, b@) == Err::<bool, Fault>(e),
        },
{
    match a {
        Values::SIGNED(_) | Values::UNSIGNED(_) | Values::DECIMAL(_) => {},
        _ => return Err(Fault::InvalidOperands),
    }
    match b {
        Values::SIGNED(y) => Ok(rel6_exec(k, num_to_i64(a) as i128, *y as i128)),
        Values::UNSIGNED(y) => Ok(rel6_exec(k, num_to_u64(a) as i128, *y as i128)),
        Values::DECIMAL(y) => Ok(frel6_exec(k, num_to_f64(a), *y)),
        _ => Err(Fault::InvalidOperands),
    }
}

fn jcc_exec(k: u8, args: &Vec<Arg>, gs: &Scope, stack: &Vec<Frame>, env: Env) -> (r: Result<Control, Fault>)
    requires
        env_ok(frames_view(stack@), env),
        args@.len() == 3,
    ensures
        outcome_is(r, jcc_step(frames_view(stack@), env, structs_of(gs), k as int, arg_views(args@)), frames_view(stack@)),
{
    let a = match operand_of(&args[0], gs, stack, env) {
        Ok(v) => v,
        Err(e) => return Err(e),
    };
    let b = match operand_of(&args[1], gs, stack, env) {
        Ok(v) => v,
        Err(e) => return Err(e),
    };
    let c = match operand_of(&args[2], gs, stack, env) {
        Ok(v) => v,
        Err(e) => return Err(e),
    };
    let p = match addr_exec(&c.val) {
        Ok(p) => p,
        Err(e) => return Err(e),
    };
    match jump_cond_exec(k, &a.val, &b.val) {
        Ok(t) => Ok(if t { Control::Jump(p) } else { Control::Next }),
        Err(e) => Err(e),
    }
}

fn mov_exec(o: u8, args: &Vec<Arg>, gs: &Scope, stack: &mut Vec<Frame>, env: Env) -> (r: Result<Control, Fault>)
    requires
        env_ok(frames_view(old(stack)@), env),
        args@.len() == 2,
        0x4A <= o <= 0x4F,
    ensures
        final(stack)@.len() == old(stack)@.len(),
        outcome_is(r, mov_step(frames_view(old(stack)@), env, structs_of(gs), o, arg_views(args@)), frames_view(final(stack)@)),
{
    let f = o - 0x4A;
    let v = if f % 3 == 2 {
        let n = match name_of(&args[0], true, gs, stack, env) {
            Ok(n) => n,
            Err(e) => return Err(e),
        };
        match get_var(&n, gs, stack, env) {
            Ok(v) => v,
            Err(e) => return Err(e),
        }
    } else {
        match operand_of(&args[0], gs, stack, env) {
            Ok(v) => v,
            Err(e) => return Err(e),
        }
    };
    let n = match name_of(&args[1], f >= 3, gs, stack, env) {
        Ok(n) => n,
        Err(e) => return Err(e),
    };
    match set_var(&n, &v.val, gs, stack, env) {
        Ok(_) => Ok(Control::Next),
        Err(e) => Err(e),
    }
}

fn bit_exec(op: BitOp, args: &Vec<Arg>, gs: &Scope, stack: &mut Vec<Frame>, env: Env) -> (r: Result<Control, Fault>)
    requires
        env_ok(frames_view(old(stack)@), env),
        args@.len() == 3,
    ensures
        final(stack)@.len() == old(stack)@.len(),
        outcome_is(r, bit_step(frames_view(old(stack)@), env, structs_of(gs), op, arg_views(args@)), frames_view(final(stack)@)),
{
    let a = match operand_of(&args[0], gs, stack, env) {
        Ok(v) => v,
        Err(e) => return Err(e),
    };
    let b = match operand_of(&args[1], gs, stack, env) {
        Ok(v) => v,
        Err(e) => return Err(e),
    };
    let n = match literal_of(&args[2]) {
        Ok(n) => n,
        Err(e) => return Err(e),
    };
    if !bit_allowed(op, &a.val, &b.val) {
        return Err(Fault::InvalidOperands);
    }
    let v = a.val.bitwise(op, &b.val);
    match set_var(&n, &v, gs, stack, env) {
        Ok(_) => Ok(Control::Next),
        Err(e) => Err(e),
    }
}

fn not_exec(args: &Vec<Arg>, gs: &Scope, stack: &mut Vec<Frame>, env: Env) -> (r: Result<Control, Fault>)
    requires
        env_ok(frames_view(old(stack)@), env),
        args@.len() == 2,
    ensures
        final(stack)@.len() == old(stack)@.len(),
        outcome_is(r, not_step(frames_view(old(stack)@), env, structs_of(gs), arg_views(args@)), frames_view(final(stack)@)),
{
    let a = match operand_of(&args[0], gs, stack, env) {
        Ok(v) => v,
        Err(e) => return Err(e),
    };
    let n = match literal_of(&args[1]) {
        Ok(n) => n,
        Err(e) => return Err(e),
    };
    match &a.val {
        Values::VOID | Values::SIGNED(_) | Values::UNSIGNED(_) | Values::DECIMAL(_) | Values::POINTER(_, _) => {},
        _ => return Err(Fault::InvalidOperands),
    }
    let v = a.val.not();
    match set_var(&n, &v, gs, stack, env) {
        Ok(_) => Ok(Control::Next),
        Err(e) => Err(e),
    }
}

fn var_exec(o: u8, args: &Vec<Arg>, gs: &Scope, stack: &mut Vec<Frame>, env: Env) -> (r: Result<Control, Fault>)
    requires
        env_ok(frames_view(old(stack)@), env),
        args@.len() == 2,
        0x66 <= o <= 0x69,
    ensures
        final(stack)@.len() == old(stack)@.len(),
        outcome_is(r, var_step(frames_view(old(stack)@), env, structs_of(gs), o, arg_views(args@)), frames_view(final(stack)@)),
{
    let f = o - 0x66;
    let t = match type_of(&args[0], f % 2 == 1, gs, stack, env) {
        Ok(t) => t,
        Err(e) => return Err(e),
    };
    let n = match name_of(&args[1], f >= 2, gs, stack, env) {
        Ok(n) => n,
        Err(e) => return Err(e),
    };
    if t.typ.len() == 0 {
        return Err(Fault::InvalidOperands);
    }
    let ghost fs = frames_view(stack@);
    stack[env.cur].create_var(n, t);
    proof {
        assert(frames_view(stack@) =~= fs.update(env.cur as int, declare_var(fs[env.cur as int], n@, (t@, default_val(t@[0])))));
    }
    Ok(Control::Next)
}

fn exit_code_exec(v: &Values) -> (r: i32)
    ensures
        r == exit_code(v@),
{
    match v {
        Values::SIGNED(n) => *n as i32,
        Values::UNSIGNED(n) => *n as i32,
        Values::DECIMAL(n) => {
            let x = f64_to_i64(*n);
            if x < i32::MIN as i64 { i32::MIN } else if x > i32::MAX as i64 { i32::MAX } else { x as i32 }
        },
        Values::POINTER(n, _) => *n as i32,
        _ => 0,
    }
}

fn ret_exec(args: &Vec<Arg>, gs: &Scope, stack: &mut Vec<Frame>, env: Env) -> (r: Result<Control, Fault>)
    requires
        env_ok(frames_view(old(stack)@), env),
        args@.len() == 1,
    ensures
        final(stack)@.len() == old(stack)@.len(),
        outcome_is(r, ret_step(frames_view(old(stack)@), env, structs_of(gs), arg_views(args@)), frames_view(final(stack)@)),
{
    let v = match operand_of(&args[0], gs, stack, env) {
        Ok(v) => v,
        Err(e) => return Err(e),
    };
    if env.cur != env.global {
        if env.cur == 0 {
            return Err(Fault::NoCaller);
        }
        push_frame(stack, env.cur - 1, v);
        Ok(Control::Exit)
    } else {
        Ok(Control::Finish(exit_code_exec(&v.val)))
    }
}

fn deref_exec(args: &Vec<Arg>, gs: &Scope, stack: &mut Vec<Frame>, env: Env) -> (r: Result<Control, Fault>)
    requires
        env_ok(frames_view(old(stack)@), env),
        args@.len() == 2,
    ensures
        final(stack)@.len() == old(stack)@.len(),
        outcome_is(r, deref_step(frames_view(old(stack)@), env, structs_of(gs), arg_views(args@)), frames_view(final(stack)@)),
{
    let p = match operand_of(&args[0], gs, stack, env) {
        Ok(v) => v,
        Err(e) => return Err(e),
    };
    let i = match index_exec(&p.val) {
        Ok(i) => i,
        Err(e) => return Err(e),
    };
    if i >= stack[env.global].len() {
        return Err(Fault::OutOfBounds);
    }
    let x = stack[env.global].get(i).clone();
    let n = match literal_of(&args[1]) {
        Ok(n) => n,
        Err(e) => return Err(e),
    };
    match set_var(&n, &x.val, gs, stack, env) {
        Ok(_) => Ok(Control::Next),
        Err(e) => Err(e),
    }
}

fn point_exec(out: &String, i: usize, gs: &Scope, stack: &mut Vec<Frame>, env: Env) -> (r: Result<Control, Fault>)
    requires
        env_ok(frames_view(old(stack)@), env),
    ensures
        final(stack)@.len() == old(stack)@.len(),
        outcome_is(r, point_to(frames_view(old(stack)@), env, structs_of(gs), out@, i), frames_view(final(stack)@)),
{
    let v = match get_var(out, gs, stack, env) {
        Ok(v) => v,
        Err(e) => return Err(e),
    };
    if v.typ.typ.len() == 0 || v.typ.typ[0] != Types::POINTER {
        return Err(Fault::InvalidOperands);
    }
    match set_var(out, &Values::POINTER(i, 1), gs, stack, env) {
        Ok(_) => Ok(Control::Next),
        Err(e) => Err(e),
    }
}

fn ref_imm_exec(args: &Vec<Arg>, gs: &Scope, stack: &mut Vec<Frame>, env: Env) -> (r: Result<Control, Fault>)
    requires
        env_ok(frames_view(old(stack)@), env),
        args@.len() == 2,
    ensures
        final(stack)@.len() == old(stack)@.len(),
        outcome_is(r, ref_imm_step(frames_view(old(stack)@), env, structs_of(gs), arg_views(args@)), frames_view(final(stack)@)),
{
    let v = match operand_of(&args[0], gs, stack, env) {
        Ok(v) => v,
        Err(e) => return Err(e),
    };
    let out = match literal_of(&args[1]) {
        Ok(n) => n,
        Err(e) => return Err(e),
    };
    let i = stack[env.global].len();
    push_frame(stack, env.global, v);
    point_exec(&out, i, gs, stack, env)
}

fn ref_var_exec(args: &Vec<Arg>, gs: &Scope, stack: &mut Vec<Frame>, env: Env) -> (r: Result<Control, Fault>)
    requires
        env_ok(frames_view(old(stack)@), env),
        args@.len() == 2,
    ensures
        final(stack)@.len() == old(stack)@.len(),
        outcome_is(r, ref_var_step(frames_view(old(stack)@), env, structs_of(gs), arg_views(args@)), frames_view(final(stack)@)),
{
    let var = match literal_of(&args[0]) {
        Ok(n) => n,
        Err(e) => return Err(e),
    };
    let g = env.global;
    let i = stack[g].len();
    let ghost fs = frames_view(stack@);
    match var_index(&stack[g], &var) {
        Some(_) => {},
        None => match var_index(&stack[env.cur], &var) {
            None => return Err(Fault::UndefinedVariable),
            Some(j) => {
                if j >= stack[env.cur].len() {
                    return Err(Fault::OutOfBounds);
                }
                let x = stack[env.cur].get(j).clone();
                stack[g].push_var(&var, x.typ, x.val);
                proof {
                    assert(frames_view(stack@) =~= fs.update(g as int, declare_var(fs[g as int], var@, x@)));
                }
            },
        },
    }
    let out = match literal_of(&args[1]) {
        Ok(n) => n,
        Err(e) => return Err(e),
    };
    point_exec(&out, i, gs, stack, env)
}

fn all_nonempty(v: &Vec<Type>) -> (r: bool)
    ensures
        r == (forall|j: int| 0 <= j < v@.len() ==> #[trigger] v@[j]@.len() > 0),
{
    let mut k: usize = 0;
    while k < v.len()
        invariant
            k <= v@.len(),
            forall|j: int| 0 <= j < k ==> #[trigger] v@[j]@.len() > 0,
        decreases v@.len() - k,
    {
        if v[k].typ.len() == 0 {
            assert(v@[k as int]@.len() == 0);
            return false;
        }
        k = k + 1;
    }
    true
}

fn inst_exec(args: &Vec<Arg>, gs: &Scope, stack: &mut Vec<Frame>, env: Env) -> (r: Result<Control, Fault>)
    requires
        env_ok(frames_view(old(stack)@), env),
        args@.len() == 2,
    ensures
        final(stack)@.len() == old(stack)@.len(),
        outcome_is(r, inst_step(frames_view(old(stack)@), env, structs_of(gs), arg_views(args@)), frames_view(final(stack)@)),
{
    let sname = match literal_of(&args[0]) {
        Ok(n) => n,
        Err(e) => return Err(e),
    };
    let out = match literal_of(&args[1]) {
        Ok(n) => n,
        Err(e) => return Err(e),
    };
    let def = match get_name(&gs.structs, &sname) {
        Some(d) => d,
        None => return Err(Fault::UnknownStruct),
    };
    let c = env.cur;
    let start = stack[c].len();
    match set_var(&out, &Values::STRUCT(sname.clone(), start), gs, stack, env) {
        Ok(_) => {},
        Err(e) => return Err(e),
    }
    let ghost ts = struct_view(*def).var_types;
    let n = def.var_types.len();
    if !all_nonempty(&def.var_types) {
        proof {
            let j = choose|j: int| 0 <= j < def.var_types@.len() && !(#[trigger] def.var_types@[j]@.len() > 0);
            assert(ts[j] == def.var_types@[j]@);
        }
        return Err(Fault::InvalidOperands);
    }
    let ghost fs1 = frames_view(stack@);
    proof {
        assert(ts.take(0) =~= Seq::<Seq<Types>>::empty());
        assert(push_defaults(fs1[c as int], ts.take(0)) =~= fs1[c as int]);
        assert(fs1.update(c as int, fs1[c as int]) =~= fs1);
    }
    let mut k: usize = 0;
    while k < n
        invariant
            k <= n,
            n == def.var_types@.len(),
            ts == struct_view(*def).var_types,
            forall|j: int| 0 <= j < n ==> #[trigger] ts[j].len() > 0,
            c < fs1.len(),
            stack@.len() == fs1.len(),
            frames_view(stack@) == fs1.update(c as int, push_defaults(fs1[c as int], ts.take(k as int))),
        decreases n - k,
    {
        let ghost pre = stack@;
        assert(ts[k as int].len() > 0);
        assert(def.var_types@[k as int]@ == ts[k as int]);
        stack[c].push_type(&def.var_types[k]);
        proof {
            let f0 = fs1[c as int];
            let a = push_defaults(f0, ts.take(k as int));
            let b = push_defaults(f0, ts.take(k + 1));
            let t = ts[k as int];
            assert(frames_view(pre)[c as int] == a);
            assert(frame_view(pre[c as int]) == a);
            assert(b.stack =~= a.stack.push((t, default_val(t[0]))));
            assert(b.allocs =~= a.allocs.push(Seq::<char>::empty()));
            assert(b == push_slot(a, (t, default_val(t[0])), Seq::empty()));
            assert(frame_view(stack@[c as int]) == b);
            assert(stack@.len() == pre.len());
            assert(forall|j: int| 0 <= j < pre.len() && j != c ==> stack@[j] == pre[j]);
            assert forall|j: int| 0 <= j < fs1.len() implies frames_view(stack@)[j] == fs1.update(c as int, b)[j] by {
                if j != c {
                    assert(frames_view(pre)[j] == fs1.update(c as int, a)[j]);
                }
            }
            assert(frames_view(stack@) =~= fs1.update(c as int, b));
        }
        k = k + 1;
    }
    assert(ts.take(n as int) =~= ts);
    Ok(Control::Next)
}

fn pmov_exec(args: &Vec<Arg>, gs: &Scope, stack: &mut Vec<Frame>, env: Env) -> (r: Result<Control, Fault>)
    requires
        env_ok(frames_view(old(stack)@), env),
        args@.len() == 3,
    ensures
        final(stack)@.len() == old(stack)@.len(),
        outcome_is(r, pmov_step(frames_view(old(stack)@), env, structs_of(gs), arg_views(args@)), frames_view(final(stack)@)),
{
    let off = match operand_of(&args[2], gs, stack, env) {
        Ok(v) => v,
        Err(e) => return Err(e),
    };
    let v = match operand_of(&args[0], gs, stack, env) {
        Ok(v) => v,
        Err(e) => return Err(e),
    };
    let pn = match literal_of(&args[1]) {
        Ok(n) => n,
        Err(e) => return Err(e),
    };
    let pv = match get_var(&pn, gs, stack, env) {
        Ok(v) => v,
        Err(e) => return Err(e),
    };
    let p = match index_exec(&pv.val) {
        Ok(i) => i,
        Err(e) => return Err(e),
    };
    let o = match index_exec(&off.val) {
        Ok(i) => i,
        Err(e) => return Err(e),
    };
    if p > usize::MAX - o || p + o > stack[env.global].len() {
        return Err(Fault::OutOfBounds);
    }
    match slot_set(stack, (env.global, p + o), &v.val) {
        Ok(_) => Ok(Control::Next),
        Err(e) => Err(e),
    }
}

fn amount_exec(v: &Values) -> (r: Result<u64, Fault>)
    ensures
        match r {
            Ok(n) => amount_of(v@) == Ok::<u64, Fault>(n),
            Err(e) => amount_of(v@) == Err::<u64, Fault>(e),
        },
{
    match v {
        Values::SIGNED(_) | Values::UNSIGNED(_) | Values::DECIMAL(_) => Ok(num_to_u64(v)),
        _ => Err(Fault::InvalidOperands),
    }
}

fn alloc_exec(o: u8, args: &Vec<Arg>, gs: &Scope, stack: &mut Vec<Frame>, env: Env) -> (r: Result<Control, Fault>)
    requires
        env_ok(frames_view(old(stack)@), env),
        args@.len() == 3,
        0x7B <= o <= 0x7E,
    ensures
        final(stack)@.len() == old(stack)@.len(),
        outcome_is(r, alloc_step(frames_view(old(stack)@), env, structs_of(gs), o, arg_views(args@)), frames_view(final(stack)@)),
{
    let f = o - 0x7B;
    let t = match type_of(&args[0], f % 2 == 1, gs, stack, env) {
        Ok(t) => t,
        Err(e) => return Err(e),
    };
    let a = match operand_of(&args[1], gs, stack, env) {
        Ok(v) => v,
        Err(e) => return Err(e),
    };
    let n = match amount_exec(&a.val) {
        Ok(n) => n,
        Err(e) => return Err(e),
    };
    let out = match literal_of(&args[2]) {
        Ok(n) => n,
        Err(e) => return Err(e),
    };
    let g = env.global;
    let gl = stack[g].len();
    let i = match var_index(&stack[env.cur], &out) {
        Some(i) => i,
        None => return Err(Fault::UndefinedVariable),
    };
    match slot_set(stack, (env.cur, i), &Values::POINTER(gl, n as usize)) {
        Ok(_) => {},
        Err(e) => return Err(e),
    }
    if n > 0 && t.typ.len() == 0 {
        return Err(Fault::InvalidOperands);
    }
    let ghost fs1 = frames_view(stack@);
    proof {
        let f0 = fs1[g as int];
        assert(push_allocs(f0, t@, out@, 0).stack =~= f0.stack);
        assert(push_allocs(f0, t@, out@, 0).allocs =~= f0.allocs);
        assert(fs1.update(g as int, push_allocs(f0, t@, out@, 0)) =~= fs1);
    }
    let mut k: u64 = 0;
    while k < n
        invariant
            k <= n,
            n > 0 ==> t@.len() > 0,
            g < fs1.len(),
            stack@.len() == fs1.len(),
            frames_view(stack@) == fs1.update(g as int, push_allocs(fs1[g as int], t@, out@, k as nat)),
        decreases n - k,
    {
        let ghost pre = stack@;
        let o2 = out.clone();
        stack[g].push_alloc(&t, o2);
        proof {
            let f0 = fs1[g as int];
            let x = push_allocs(f0, t@, out@, k as nat);
            let y = push_allocs(f0, t@, out@, (k + 1) as nat);
            assert(frames_view(pre)[g as int] == x);
            assert(frame_view(pre[g as int]) == x);
            assert(y.stack =~= x.stack.push((t@, default_val(t@[0]))));
            assert(y.allocs =~= x.allocs.push(out@));
            assert(y == push_slot(x, (t@, default_val(t@[0])), out@));
            assert(frame_view(stack@[g as int]) == y);
            assert(stack@.len() == pre.len());
            assert(forall|j: int| 0 <= j < pre.len() && j != g ==> stack@[j] == pre[j]);
            assert forall|j: int| 0 <= j < fs1.len() implies frames_view(stack@)[j] == fs1.update(g as int, y)[j] by {
                if j != g {
                    assert(frames_view(pre)[j] == fs1.update(g as int, x)[j]);
                }
            }
            assert(frames_view(stack@) =~= fs1.update(g as int, y));
        }
        k = k + 1;
    }
    Ok(Control::Next)
}

fn free_var_exec(args: &Vec<Arg>, gs: &Scope, stack: &mut Vec<Frame>, env: Env) -> (r: Result<Control, Fault>)
    requires
        env_ok(frames_view(old(stack)@), env),
        args@.len() == 1,
    ensures
        final(stack)@.len() == old(stack)@.len(),
        outcome_is(r, free_var_step(frames_view(old(stack)@), env, arg_views(args@)), frames_view(final(stack)@)),
{
    let p = match literal_of(&args[0]) {
        Ok(n) => n,
        Err(e) => return Err(e),
    };
    let g = env.global;
    let i = match var_index(&stack[g], &p) {
        Some(i) => i,
        None => return Err(Fault::UndefinedVariable),
    };
    let ghost fs = frames_view(stack@);
    let ghost pre = stack@;
    remove_name(&mut stack[g].vars, &p);
    proof {
        lemma_kview_remove(pre[g as int].vars@, |x: usize| usize_id(x), p@);
        assert(frame_view(stack@[g as int]) == (FrameV { vars: kremove(fs[g as int].vars, p@), ..fs[g as int] }));
        assert forall|j: int| 0 <= j < fs.len() implies frames_view(stack@)[j] == fs.update(g as int, frame_view(stack@[g as int]))[j] by {
            if j != g {
                assert(stack@[j] == pre[j]);
            }
        }
        assert(frames_view(stack@) =~= fs.update(g as int, frame_view(stack@[g as int])));
    }
    let ghost target = free_run(frame_view(stack@[g as int]), p@, i as int, i as int);
    let start = i;
    let mut index = i;
    loop
        invariant
            g < stack@.len(),
            stack@.len() == fs.len(),
            start <= index,
            frames_view(stack@) == fs.update(g as int, frame_view(stack@[g as int])),
            free_run(frame_view(stack@[g as int]), p@, start as int, index as int) == target,
            target == free_run(FrameV { vars: kremove(fs[g as int].vars, p@), ..fs[g as int] }, p@, i as int, i as int),
            fs == frames_view(old(stack)@),
            g == env.global,
            literal_name(arg_views(args@)[0]) == Ok::<Seq<char>, Fault>(p@),
            var_of(fs[g as int], p@) == Some(i),
        ensures
            match target {
                Ok(f) => f == frame_view(stack@[g as int]),
                Err(_) => false,
            },
            frames_view(stack@) == fs.update(g as int, frame_view(stack@[g as int])),
        decreases stack@[g as int].allocs@.len() + 1 - index,
    {
        let ghost cur = frame_view(stack@[g as int]);
        if index >= stack[g].allocs.len() {
            return Err(Fault::OutOfBounds);
        }
        if !(stack[g].allocs[index] == p) {
            break;
        }
        if start >= stack[g].allocs.len() || start >= stack[g].stack.len() {
            return Err(Fault::OutOfBounds);
        }
        let ghost pre2 = stack@;
        stack[g].allocs.remove(start);
        stack[g].stack.remove(start);
        proof {
            let nf = FrameV { allocs: cur.allocs.remove(start as int), stack: cur.stack.remove(start as int), ..cur };
            assert(frame_view(stack@[g as int]).allocs =~= nf.allocs);
            assert(frame_view(stack@[g as int]).stack =~= nf.stack);
            assert(frame_view(stack@[g as int]) == nf);
            assert forall|j: int| 0 <= j < fs.len() implies frames_view(stack@)[j] == fs.update(g as int, frame_view(stack@[g as int]))[j] by {
                if j != g {
                    assert(stack@[j] == pre2[j]);
                    assert(frames_view(pre2)[j] == fs[j]);
                }
            }
            assert(frames_view(stack@) =~= fs.update(g as int, frame_view(stack@[g as int])));
        }
        index = index + 1;
    }
    Ok(Control::Next)
}

fn free_exec(args: &Vec<Arg>, gs: &Scope, stack: &mut Vec<Frame>, env: Env) -> (r: Result<Control, Fault>)
    requires
        env_ok(frames_view(old(stack)@), env),
        args@.len() == 2,
    ensures
        final(stack)@.len() == old(stack)@.len(),
        outcome_is(r, free_step(frames_view(old(stack)@), env, structs_of(gs), arg_views(args@)), frames_view(final(stack)@)),
{
    let pv = match operand_of(&args[0], gs, stack, env) {
        Ok(v) => v,
        Err(e) => return Err(e),
    };
    let av = match operand_of(&args[1], gs, stack, env) {
        Ok(v) => v,
        Err(e) => return Err(e),
    };
    let s = match index_exec(&pv.val) {
        Ok(i) => i,
        Err(e) => return Err(e),
    };
    let n = match index_exec(&av.val) {
        Ok(i) => i,
        Err(e) => return Err(e),
    };
    if n == 0 {
        return Ok(Control::Next);
    }
    let g = env.global;
    let al = stack[g].allocs.len();
    let sl = stack[g].stack.len();
    if s > al || n > al - s || s > sl || n > sl - s {
        return Err(Fault::OutOfBounds);
    }
    let ghost fs = frames_view(stack@);
    let ghost pre = stack@;
    let ghost a0 = pre[g as int].allocs@;
    let ghost s0 = pre[g as int].stack@;
    let mut k: usize = 0;
    proof {
        assert(a0 =~= a0.take(s as int) + a0.skip(s as int));
        assert(s0 =~= s0.take(s as int) + s0.skip(s as int));
    }
    while k < n
        invariant
            k <= n,
            s + n <= a0.len(),
            s + n <= s0.len(),
            g < stack@.len(),
            stack@.len() == pre.len(),
            forall|j: int| 0 <= j < pre.len() && j != g ==> stack@[j] == pre[j],
            stack@[g as int].vars == pre[g as int].vars,
            stack@[g as int].allocs@ == a0.take(s as int) + a0.skip(s + k),
            stack@[g as int].stack@ == s0.take(s as int) + s0.skip(s + k),
        decreases n - k,
    {
        let ghost pre2 = stack@;
        stack[g].allocs.remove(s);
        stack[g].stack.remove(s);
        proof {
            assert(stack@[g as int].allocs@ =~= a0.take(s as int) + a0.skip(s + k + 1));
            assert(stack@[g as int].stack@ =~= s0.take(s as int) + s0.skip(s + k + 1));
            assert forall|j: int| 0 <= j < pre.len() && j != g implies stack@[j] == pre[j] by {
                assert(stack@[j] == pre2[j]);
            }
        }
        k = k + 1;
    }
    proof {
        let f = FrameV {
            allocs: fs[g as int].allocs.take(s as int) + fs[g as int].allocs.skip(s + n),
            stack: fs[g as int].stack.take(s as int) + fs[g as int].stack.skip(s + n),
            ..fs[g as int]
        };
        assert(frame_view(stack@[g as int]).allocs =~= f.allocs);
        assert(frame_view(stack@[g as int]).stack =~= f.stack);
        assert(frame_view(stack@[g as int]) == f);
        assert forall|j: int| 0 <= j < fs.len() implies frames_view(stack@)[j] == fs.update(g as int, f)[j] by {
            if j != g {
                assert(stack@[j] == pre[j]);
            }
        }
        assert(frames_view(stack@) =~= fs.update(g as int, f));
    }
    Ok(Control::Next)
}

fn cond_exec(v: &Values) -> (r: Result<u64, Fault>)
    ensures
        match r {
            Ok(n) => cond_code(v@) == Ok::<u64, Fault>(n),
            Err(e) => cond_code(v@) == Err::<u64, Fault>(e),
        },
{
    match v {
        Values::SIGNED(_) | Values::UNSIGNED(_) | Values::DECIMAL(_) => Ok(num_to_u64(v)),
        _ => Err(Fault::InvalidCondition),
    }
}

fn compare_values_exec(c: u64, a: &Values, b: &Values) -> (r: Result<bool, Fault>)
    ensures
        match r {
            Ok(t) => compare_values(c, a@, b@) == Ok::<bool, Fault>(t),
            Err(e) => compare_values(c, a@, b@) == Err::<bool, Fault>(e),
        },
{
    let less = relation(1, a, b);
    let greater = relation(2, a, b);
    if c == 0 {
        Ok(relation(0, a, b))
    } else if c == 1 {
        Ok(!relation(0, a, b))
    } else if c == 2 {
        Ok(!less)
    } else if c == 3 {
        Ok(!less && greater)
    } else if c == 4 {
        Ok(less || !greater)
    } else if c == 5 {
        Ok(less)
    } else {
        Err(Fault::InvalidCondition)
    }
}

fn compare_exec(args: &Vec<Arg>, gs: &Scope, stack: &mut Vec<Frame>, env: Env) -> (r: Result<Control, Fault>)
    requires
        env_ok(frames_view(old(stack)@), env),
        args@.len() == 4,
    ensures
        final(stack)@.len() == old(stack)@.len(),
        outcome_is(r, compare_step(frames_view(old(stack)@), env, structs_of(gs), arg_views(args@)), frames_view(final(stack)@)),
{
    let c = match operand_of(&args[0], gs, stack, env) {
        Ok(v) => v,
        Err(e) => return Err(e),
    };
    let a = match operand_of(&args[1], gs, stack, env) {
        Ok(v) => v,
        Err(e) => return Err(e),
    };
    let b = match operand_of(&args[2], gs, stack, env) {
        Ok(v) => v,
        Err(e) => return Err(e),
    };
    let out = match literal_of(&args[3]) {
        Ok(n) => n,
        Err(e) => return Err(e),
    };
    let code = match cond_exec(&c.val) {
        Ok(n) => n,
        Err(e) => return Err(e),
    };
    let t = match compare_values_exec(code, &a.val, &b.val) {
        Ok(t) => t,
        Err(e) => return Err(e),
    };
    match set_var(&out, &Values::UNSIGNED(if t { 1 } else { 0 }), gs, stack, env) {
        Ok(_) => Ok(Control::Next),
        Err(e) => Err(e),
    }
}

fn arity_exec(o: u8) -> (r: usize)
    ensures
        r as int == arity(o),
{
    if o == 0x00 || o == 0x6A {
        0
    } else if o == 0x01 || o == 0x02 || o == 0x03 || o == 0x06 || o == 0x07 || o == 0x18 || o == 0x19
        || o == 0x6B || o == 0x6C || o == 0x7F {
        1
    } else if o == 0x04 || o == 0x05 || (0x4A <= o && o <= 0x4F) || o == 0x5C || o == 0x5D || (0x66 <= o && o <= 0x69)
        || (0x6D <= o && o <= 0x72) || (0x80 <= o && o <= 0x83) {
        2
    } else if 0x8C <= o && o <= 0x93 {
        4
    } else {
        3
    }
}

/// Runs one instruction against the frames, as `step_v` says, and returns
/// what the caller does next. After a fault the frames are left as far as the
/// instruction got; a fault ends the program.
pub fn exec_instruction(instr: &Instruction, global_scope: &Scope, stack: &mut Vec<Frame>, env: Env)
    -> (r: Result<Control, Fault>)
    requires
        env_ok(frames_view(old(stack)@), env),
    ensures
        final(stack)@.len() == old(stack)@.len(),
        outcome_is(r, step_v(frames_view(old(stack)@), env, structs_of(global_scope), instr_view(*instr)),
            frames_view(final(stack)@)),
{
    reveal(step_v);
    let (o, args) = decode(&instr.opcode);
    if o == 0x72 || (0x84 <= o && o <= 0x8B) || o > 0x93 {
        return Err(Fault::UnknownInstruction(o, instr.index));
    }
    if args.len() != arity_exec(o) {
        return Err(Fault::InvalidOperands);
    }
    let gs = global_scope;
    if o == 0x00 {
        Ok(Control::Next)
    } else if o <= 0x02 {
        push_exec(&args, gs, stack, env)
    } else if o == 0x03 {
        pop_exec(&args, gs, stack, env)
    } else if o <= 0x05 {
        peek_exec(&args, gs, stack, env)
    } else if o <= 0x07 {
        call_exec(o, &args, gs, stack, env)
    } else if o <= 0x17 || (0x73 <= o && o <= 0x76) {
        let op = if o <= 0x0B {
            MathOp::Add
        } else if o <= 0x0F {
            MathOp::Sub
        } else if o <= 0x13 {
            MathOp::Mul
        } else if o <= 0x17 {
            MathOp::Div
        } else {
            MathOp::Rem
        };
        math_exec(op, &args, gs, stack, env)
    } else if o <= 0x19 {
        jmp_exec(&args, gs, stack, env)
    } else if o <= 0x49 {
        jcc_exec((o - 0x1A) / 8, &args, gs, stack, env)
    } else if o <= 0x4F {
        mov_exec(o, &args, gs, stack, env)
    } else if o == 0x5C || o == 0x5D {
        not_exec(&args, gs, stack, env)
    } else if o <= 0x65 {
        let op = if o <= 0x53 {
            BitOp::And
        } else if o <= 0x57 {
            BitOp::Or
        } else if o <= 0x5B {
            BitOp::Xor
        } else if o <= 0x61 {
            BitOp::Lsh
        } else {
            BitOp::Rsh
        };
        bit_exec(op, &args, gs, stack, env)
    } else if o <= 0x69 {
        var_exec(o, &args, gs, stack, env)
    } else if o == 0x6A {
        Ok(Control::Exit)
    } else if o <= 0x6C {
        ret_exec(&args, gs, stack, env)
    } else if o <= 0x6E {
        deref_exec(&args, gs, stack, env)
    } else if o == 0x6F {
        ref_imm_exec(&args, gs, stack, env)
    } else if o == 0x70 {
        ref_var_exec(&args, gs, stack, env)
    } else if o == 0x71 {
        inst_exec(&args, gs, stack, env)
    } else if o <= 0x7A {
        pmov_exec(&args, gs, stack, env)
    } else if o <= 0x7E {
        alloc_exec(o, &args, gs, stack, env)
    } else if o == 0x7F {
        free_var_exec(&args, gs, stack, env)
    } else if o <= 0x83 {
        free_exec(&args, gs, stack, env)
    } else {
        compare_exec(&args, gs, stack, env)
    }
}

} // verus!
