//! Properties of the interpreter that hold across instructions.
use vstd::prelude::*;
use crate::_type::Types;
use crate::frame::{FrameV, push_slot, declare_var, default_val, set_slot};
use crate::names::{kfind, kinsert, klookup, lemma_kfind_from};
use crate::instruction::ArgV;
use crate::interp::{Env, Fault, env_ok, var_of, read_var, write_var, read_slot, slot_value};
use crate::step::{ControlV, Outcome, Structs, push_step, pop_step, pop_frame, var_step};
use crate::value::{ValuesV, set_ok, set_v, is_number, relation_v};
use crate::step::{jcc_step, jump_cond, compare_values, ret_step};
use crate::cast::{float_to, int_to, in_range};
use crate::float::{f64_trunc, f64_sign, f64_is_nan, f64_is_inf};
use crate::parse_scope::{cond_header, spec_cond_if, spec_cond_loop, spec_scope_loop, spec_skip_loop, step};
use crate::scope::{ScopeV, empty_scope_v};

verus! {

/// Popping a slot that was just pushed (owned by no variable) gives back the
/// pushed value and the frame as it was.
pub proof fn lemma_push_then_pop(f: FrameV, v: (Seq<Types>, ValuesV))
    ensures
        pop_frame(push_slot(f, v, Seq::empty())) == Ok::<((Seq<Types>, ValuesV), FrameV), Fault>((v, f)),
{
    let g = push_slot(f, v, Seq::empty());
    assert(g.stack.drop_last() =~= f.stack);
    assert(g.allocs.drop_last() =~= f.allocs);
}

/// `PUSH` of an immediate followed by `POP` into a variable stores the pushed
/// value in the variable, exactly as writing it there directly would.
pub proof fn lemma_push_pop_moves(fs: Seq<FrameV>, env: Env, st: Structs, v: (Seq<Types>, ValuesV), name: Seq<char>)
    requires
        env_ok(fs, env),
    ensures
        push_step(fs, env, st, seq![ArgV::Imm(v)]) matches Ok((c, fs1))
            && c == ControlV::Next
            && pop_step(fs1, env, st, seq![ArgV::Str(name)]) == match write_var(fs, env, st, name, v.1) {
                Ok(fs2) => Ok::<(ControlV, Seq<FrameV>), Fault>((ControlV::Next, fs2)),
                Err(e) => Err::<(ControlV, Seq<FrameV>), Fault>(e),
            },
{
    let c = env.cur as int;
    let fs1 = fs.update(c, push_slot(fs[c], v, Seq::empty()));
    lemma_push_then_pop(fs[c], v);
    assert(fs1[c] == push_slot(fs[c], v, Seq::empty()));
    assert(fs1.update(c, fs[c]) =~= fs);
}

/// Writing a variable of the current frame and reading it back gives the
/// written value converted to the variable's kind, under its own type.
pub proof fn lemma_write_then_read(fs: Seq<FrameV>, env: Env, st: Structs, name: Seq<char>, v: ValuesV)
    requires
        env_ok(fs, env),
        name != seq!['_'],
        var_of(fs[env.cur as int], name) is Some,
        var_of(fs[env.cur as int], name)->0 < fs[env.cur as int].stack.len(),
        set_ok(fs[env.cur as int].stack[var_of(fs[env.cur as int], name)->0 as int].1, v),
    ensures
        ({
            let i = var_of(fs[env.cur as int], name)->0 as int;
            let old_slot = fs[env.cur as int].stack[i];
            write_var(fs, env, st, name, v) matches Ok(fs2)
                && read_var(fs2, env, st, name) == Ok::<(Seq<Types>, ValuesV), Fault>((old_slot.0, set_v(old_slot.1, v)))
        }),
{
    let c = env.cur as int;
    let i = var_of(fs[c], name)->0 as int;
    let fs2 = fs.update(c, set_slot(fs[c], i, v));
    assert(fs2[c].vars == fs[c].vars);
    assert(fs2[c].stack[i] == (fs[c].stack[i].0, set_v(fs[c].stack[i].1, v)));
}

/// `VAR` declares a variable that reads as the default value of its type.
pub proof fn lemma_var_then_read(fs: Seq<FrameV>, env: Env, st: Structs, t: Seq<Types>, name: Seq<char>)
    requires
        env_ok(fs, env),
        t.len() > 0,
        var_of(fs[env.cur as int], name) is None,
        fs[env.cur as int].stack.len() <= usize::MAX,
    ensures
        var_step(fs, env, st, 0x66, seq![ArgV::Ty(t), ArgV::Str(name)]) matches Ok((c, fs1))
            && read_var(fs1, env, st, name) == Ok::<(Seq<Types>, ValuesV), Fault>((t, default_val(t[0]))),
{
    let c = env.cur as int;
    let f = fs[c];
    let g = declare_var(f, name, (t, default_val(t[0])));
    assert(kfind(f.vars, name) < 0);
    let n = f.stack.len() as usize;
    assert(g.vars == kinsert(f.vars, name, n));
    lemma_kfind_insert_new(f.vars, name, n);
    assert(var_of(g, name) == Some(n));
    assert(g.stack[n as int] == (t, default_val(t[0])));
}

/// A name bound for the first time is found at the end of the table.
proof fn lemma_kfind_insert_new(s: Seq<(Seq<char>, usize)>, k: Seq<char>, v: usize)
    requires
        kfind(s, k) < 0,
    ensures
        klookup(kinsert(s, k, v), k) == Some(v),
{
    let t = s.push((k, v));
    assert(kinsert(s, k, v) == t);
    lemma_kfind_prefix(s, k, v, 0);
}

proof fn lemma_kfind_prefix(s: Seq<(Seq<char>, usize)>, k: Seq<char>, v: usize, i: int)
    requires
        0 <= i <= s.len(),
        crate::names::kfind_from(s, k, i) < 0,
    ensures
        crate::names::kfind_from(s.push((k, v)), k, i) == s.len(),
    decreases s.len() - i,
{
    if i < s.len() {
        lemma_kfind_prefix(s, k, v, i + 1);
    }
}

/// The order of values agrees with their equality: two numbers, the first
/// signed, unsigned or a pointer, are equal exactly when neither is below the
/// other, and at most one of the two is below the other.
pub proof fn lemma_order_matches_equality(a: ValuesV, b: ValuesV)
    requires
        a is SIGNED || a is UNSIGNED || a is POINTER,
        is_number(b),
    ensures
        relation_v(0, a, b) <==> (!relation_v(1, a, b) && !relation_v(2, a, b)),
        !(relation_v(1, a, b) && relation_v(2, a, b)),
{
}

/// The six comparisons of conditional jumps and `CMP`, by their codes:
/// `0` not equal, `1` equal, `2` at least, `3` above, `4` at most, `5` below.
pub open spec fn jump_relation(k: int, x: int, y: int) -> bool {
    if k == 0 {
        x != y
    } else if k == 1 {
        x == y
    } else if k == 2 {
        x >= y
    } else if k == 3 {
        x > y
    } else if k == 4 {
        x <= y
    } else {
        x < y
    }
}

/// A conditional jump on two signed integers, or on two unsigned ones, is
/// taken exactly when they stand in its relation: `JNE` when they differ,
/// `JE` when equal, `JGE` when the first is at least the second, `JG` when
/// above, `JLE` when at most, `JL` when below. With immediate operands and an
/// unsigned address the jump goes to that address, else to the next
/// instruction.
pub proof fn lemma_integer_jumps(fs: Seq<FrameV>, env: Env, st: Structs, k: int, ta: Seq<Types>, tb: Seq<Types>,
    tc: Seq<Types>, a: ValuesV, b: ValuesV, p: u64)
    requires
        0 <= k <= 5,
        (a is SIGNED && b is SIGNED) || (a is UNSIGNED && b is UNSIGNED),
    ensures
        ({
            let (x, y) = match (a, b) {
                (ValuesV::SIGNED(x), ValuesV::SIGNED(y)) => (x as int, y as int),
                (ValuesV::UNSIGNED(x), ValuesV::UNSIGNED(y)) => (x as int, y as int),
                _ => (0, 0),
            };
            &&& jump_cond(k, a, b) == Ok::<bool, Fault>(jump_relation(k, x, y))
            &&& jcc_step(fs, env, st, k, seq![ArgV::Imm((ta, a)), ArgV::Imm((tb, b)), ArgV::Imm((tc, ValuesV::UNSIGNED(p)))])
                == Ok::<(ControlV, Seq<FrameV>), Fault>((
                    if jump_relation(k, x, y) { ControlV::Jump(p as usize) } else { ControlV::Next }, fs))
        }),
{
}

/// `CMP` on two signed integers stores 1 exactly when they stand in the
/// relation its code names (`0` equal, `1` not equal, `2` at least, `3` above,
/// `4` at most, `5` below), else 0; any other code is refused.
pub proof fn lemma_compare_signed(c: u64, x: i64, y: i64)
    ensures
        compare_values(c, ValuesV::SIGNED(x), ValuesV::SIGNED(y)) == if c == 0 {
            Ok::<bool, Fault>(x == y)
        } else if c == 1 {
            Ok(x != y)
        } else if c == 2 {
            Ok(x >= y)
        } else if c == 3 {
            Ok(x > y)
        } else if c == 4 {
            Ok(x <= y)
        } else if c == 5 {
            Ok(x < y)
        } else {
            Err(Fault::InvalidCondition)
        },
{
}

/// `CMP` with code 4 holds exactly when the first number is below or equal
/// to the second, for a signed, unsigned or pointer first operand.
pub proof fn lemma_compare_at_most(a: ValuesV, b: ValuesV)
    requires
        a is SIGNED || a is UNSIGNED || a is POINTER,
        is_number(b),
    ensures
        compare_values(4, a, b) == Ok::<bool, Fault>(relation_v(1, a, b) || relation_v(0, a, b)),
{
    lemma_order_matches_equality(a, b);
}

/// The integer part of a finite f64, with its sign.
pub open spec fn f64_int_part(b: u64) -> int {
    if f64_sign(b) { -(f64_trunc(b) as int) } else { f64_trunc(b) as int }
}

/// Casting a finite float to an integer type that holds its integer part
/// gives that integer part.
pub proof fn lemma_float_cast_in_range(b: u64, t: u8)
    requires
        !f64_is_nan(b),
        !f64_is_inf(b),
        0x01 <= t <= 0x08,
        in_range(f64_int_part(b), t),
    ensures
        float_to(b, t) == int_to(f64_int_part(b), t),
{
}

/// `RET` at the global frame finishes the program with the returned number as
/// its exit code, when a signed or unsigned value lies in `i32`'s range.
pub proof fn lemma_return_exit_code(fs: Seq<FrameV>, env: Env, st: Structs, t: Seq<Types>, v: ValuesV, args: Seq<ArgV>)
    requires
        env.cur == env.global,
        args.len() >= 1,
        args[0] == ArgV::Imm((t, v)),
        (v matches ValuesV::SIGNED(x) && i32::MIN <= x <= i32::MAX)
            || (v matches ValuesV::UNSIGNED(n) && n <= i32::MAX),
    ensures
        ret_step(fs, env, st, args) matches Ok((ControlV::Finish(code), fs2)) && fs2 == fs && code as int == match v {
            ValuesV::SIGNED(x) => x as int,
            ValuesV::UNSIGNED(n) => n as int,
            _ => 0,
        },
{
}

/// An if or else-if block decodes its own body exactly when its condition
/// holds between the two constants it names (`0` equal, `1` not equal, `2` at
/// least, `3` above, `4` at most, `5` below); otherwise its body is skipped
/// and the next block of the conditional is evaluated.
pub proof fn lemma_cond_block_taken(bytes: Seq<u8>, i: int, st: Seq<FrameV>, consts: Seq<(Seq<char>, i32)>,
    imports: Seq<(Seq<char>, Seq<u8>)>, fuel: nat, left: Seq<char>, c: u8, right: Seq<char>, l: i32, r: i32)
    requires
        0 <= i < bytes.len(),
        cond_header(bytes, i).0 == Ok::<(Seq<char>, u8, Seq<char>), crate::error::ParseErrorV>((left, c, right)),
        i < cond_header(bytes, i).1,
        klookup(consts, left) == Some(l),
        klookup(consts, right) == Some(r),
        c <= 5,
    ensures
        ({
            let j = cond_header(bytes, i).1;
            let body = spec_scope_loop(bytes, j, empty_scope_v(), st, consts, imports, fuel);
            let result = spec_cond_if(bytes, i, st, consts, imports, fuel);
            &&& jump_relation(if c == 0 { 1 } else if c == 1 { 0 } else { c as int }, l as int, r as int)
                ==> (body.0 matches Ok(sc) ==> (i < body.1 ==> result.0 == Ok::<Option<ScopeV>,
                    crate::error::ParseErrorV>(Some(sc))))
            &&& !jump_relation(if c == 0 { 1 } else if c == 1 { 0 } else { c as int }, l as int, r as int)
                ==> result == ({
                    let k = step(spec_skip_loop(bytes, j, imports, fuel), bytes.len() as int);
                    if i < k {
                        spec_cond_loop(bytes, k, st, consts, imports, fuel)
                    } else {
                        (Err(crate::error::ParseErrorV::TooLarge), k, st)
                    }
                })
        }),
{
    reveal_with_fuel(spec_cond_if, 1);
}

} // verus!
