//! The interpreter's decisions: resolving variables across frames, and what
//! one instruction does to the frames. Calls, native functions and float
//! arithmetic are handed back to the caller as actions.
use vstd::prelude::*;
use crate::_type::{Type, Types};
use crate::_struct::{Struct, struct_view, pair_lookup};
use crate::frame::{Frame, FrameV, frame_view, usize_id, set_slot};
use crate::names::{lookup, klookup, get_name, lemma_kfind, first_dot, before_dot, after_dot, split_first_dot};
use crate::parse_scope::frames_view;
use crate::scope::Scope;
use crate::value::{Value, Values, ValuesV, set_ok, set_v, set_allowed};
use vstd::string::StrSliceExecFns;

verus! {

/// The frames an instruction runs against: the current one, the one of the
/// module the code belongs to, and the global one.
#[derive(Debug, Clone, Copy)]
pub struct Env {
    pub cur: usize,
    pub module: usize,
    pub global: usize,
}

/// Why an instruction cannot run.
#[derive(Debug, Clone, Copy, PartialEq, Eq, Structural)]
pub enum Fault {
    /// No frame holds the variable.
    UndefinedVariable,
    /// A field was read or written through a value that is not a struct.
    NotAStruct,
    /// A struct value names a struct that is not declared.
    UnknownStruct,
    /// A struct has no field of the given name.
    UnknownField,
    /// A slot index past the end of a frame.
    OutOfBounds,
    /// An operation got values it does not take.
    InvalidOperands,
    /// A value that should name a variable or function does not.
    NotAName,
    /// A value that should hold a type does not.
    NotAType,
    /// A jump to a negative address.
    NegativeAddress,
    /// A jump address that is not an integer.
    NotAnAddress,
    /// A `CMP` condition outside `0..=5`.
    InvalidCondition,
    /// A popped slot names a variable its frame does not hold.
    CorruptFrame,
    /// A value is returned from a frame with no frame below it.
    NoCaller,
    /// An opcode the interpreter does not run, with the instruction's index.
    UnknownInstruction(u8, usize),
}

/// Whether the frame indices of an environment are frames of the stack.
pub open spec fn env_ok(fs: Seq<FrameV>, env: Env) -> bool {
    env.cur < fs.len() && env.module < fs.len() && env.global < fs.len()
}

/// The slot of variable `name` in frame `f`, if it holds one.
pub open spec fn var_of(f: FrameV, name: Seq<char>) -> Option<usize> {
    klookup(f.vars, name)
}

/// The segment of a dotted name that names the field: what lies between the
/// first `.` and the next one (or the end).
pub open spec fn field_part(name: Seq<char>) -> Seq<char> {
    let rest = after_dot(name);
    if first_dot(rest) >= 0 { before_dot(rest) } else { rest }
}

/// The slot a name without `.` resolves to: the current frame, then the
/// module's, then the global one.
pub open spec fn plain_slot(fs: Seq<FrameV>, env: Env, name: Seq<char>) -> Result<(int, int), Fault> {
    if var_of(fs[env.cur as int], name) is Some {
        Ok((env.cur as int, var_of(fs[env.cur as int], name)->0 as int))
    } else if var_of(fs[env.module as int], name) is Some {
        Ok((env.module as int, var_of(fs[env.module as int], name)->0 as int))
    } else if var_of(fs[env.global as int], name) is Some {
        Ok((env.global as int, var_of(fs[env.global as int], name)->0 as int))
    } else {
        Err(Fault::UndefinedVariable)
    }
}

/// The content of a slot, if it exists.
pub open spec fn slot_value(fs: Seq<FrameV>, s: (int, int)) -> Result<(Seq<Types>, ValuesV), Fault> {
    if 0 <= s.1 < fs[s.0].stack.len() {
        Ok(fs[s.0].stack[s.1])
    } else {
        Err(Fault::OutOfBounds)
    }
}

/// The offset of field `field` in the struct declared as `sname`.
pub open spec fn field_offset(structs: Seq<(String, Struct)>, sname: Seq<char>, field: Seq<char>) -> Result<usize, Fault> {
    match lookup(structs, sname) {
        Some(st) => match pair_lookup(struct_view(st).var_offsets, field) {
            Some(o) => Ok(o),
            None => Err(Fault::UnknownField),
        },
        None => Err(Fault::UnknownStruct),
    }
}

/// The slot of a field `a.b`: the struct value `a` (found without dots)
/// points at its first slot in the current frame, and the field's offset is
/// added.
pub open spec fn field_slot(fs: Seq<FrameV>, env: Env, structs: Seq<(String, Struct)>, name: Seq<char>) -> Result<(int, int), Fault> {
    match plain_slot(fs, env, before_dot(name)) {
        Err(e) => Err(e),
        Ok(s) => match slot_value(fs, s) {
            Err(e) => Err(e),
            Ok(v) => match v.1 {
                ValuesV::STRUCT(sn, idx) => match field_offset(structs, sn, field_part(name)) {
                    Err(e) => Err(e),
                    Ok(off) => if idx + off <= usize::MAX { Ok((env.cur as int, idx + off)) } else { Err(Fault::OutOfBounds) },
                },
                _ => Err(Fault::NotAStruct),
            },
        },
    }
}

/// The slot a variable name reads: the current frame, then a struct field
/// when the name has a `.`, then the module's frame, then the global one.
pub open spec fn read_slot(fs: Seq<FrameV>, env: Env, structs: Seq<(String, Struct)>, name: Seq<char>) -> Result<(int, int), Fault> {
    if var_of(fs[env.cur as int], name) is Some {
        Ok((env.cur as int, var_of(fs[env.cur as int], name)->0 as int))
    } else if first_dot(name) >= 0 {
        field_slot(fs, env, structs, name)
    } else {
        plain_slot(fs, env, name)
    }
}

/// The typed value a variable name reads.
pub open spec fn read_var(fs: Seq<FrameV>, env: Env, structs: Seq<(String, Struct)>, name: Seq<char>) -> Result<(Seq<Types>, ValuesV), Fault> {
    match read_slot(fs, env, structs, name) {
        Err(e) => Err(e),
        Ok(s) => slot_value(fs, s),
    }
}

/// The frames after storing `v` in slot `s`, converted to the slot's kind.
pub open spec fn write_slot(fs: Seq<FrameV>, s: (int, int), v: ValuesV) -> Result<Seq<FrameV>, Fault> {
    if !(0 <= s.1 < fs[s.0].stack.len()) {
        Err(Fault::OutOfBounds)
    } else if !set_ok(fs[s.0].stack[s.1].1, v) {
        Err(Fault::InvalidOperands)
    } else {
        Ok(fs.update(s.0, set_slot(fs[s.0], s.1, v)))
    }
}

/// The slot a variable name writes: `_` writes nothing; then the current
/// frame, the global one, a struct field when the name has a `.`, and the
/// module's frame.
pub open spec fn write_target(fs: Seq<FrameV>, env: Env, structs: Seq<(String, Struct)>, name: Seq<char>) -> Result<(int, int), Fault> {
    if var_of(fs[env.cur as int], name) is Some {
        Ok((env.cur as int, var_of(fs[env.cur as int], name)->0 as int))
    } else if var_of(fs[env.global as int], name) is Some {
        Ok((env.global as int, var_of(fs[env.global as int], name)->0 as int))
    } else if first_dot(name) >= 0 {
        field_slot(fs, env, structs, name)
    } else if var_of(fs[env.module as int], name) is Some {
        Ok((env.module as int, var_of(fs[env.module as int], name)->0 as int))
    } else {
        Err(Fault::UndefinedVariable)
    }
}

/// The frames after storing `v` in the variable `name`.
pub open spec fn write_var(fs: Seq<FrameV>, env: Env, structs: Seq<(String, Struct)>, name: Seq<char>, v: ValuesV) -> Result<Seq<FrameV>, Fault> {
    if name == seq!['_'] {
        Ok(fs)
    } else {
        match write_target(fs, env, structs, name) {
            Err(e) => Err(e),
            Ok(s) => write_slot(fs, s, v),
        }
    }
}

/// The structs of the global scope.
pub open spec fn structs_of(gs: &Scope) -> Seq<(String, Struct)> {
    gs.structs@
}

pub(crate) fn var_index(f: &Frame, name: &String) -> (r: Option<usize>)
    ensures
        r == var_of(frame_view(*f), name@),
{
    proof {
        lemma_kfind(f.vars@, |x: usize| usize_id(x), name@);
    }
    match get_name(&f.vars, name) {
        Some(i) => Some(*i),
        None => None,
    }
}

fn plain_find(stack: &Vec<Frame>, env: Env, name: &String) -> (r: Result<(usize, usize), Fault>)
    requires
        env_ok(frames_view(stack@), env),
    ensures
        match r {
            Ok(s) => plain_slot(frames_view(stack@), env, name@) == Ok::<(int, int), Fault>((s.0 as int, s.1 as int)),
            Err(e) => plain_slot(frames_view(stack@), env, name@) == Err::<(int, int), Fault>(e),
        },
{
    match var_index(&stack[env.cur], name) {
        Some(i) => return Ok((env.cur, i)),
        None => {},
    }
    match var_index(&stack[env.module], name) {
        Some(i) => return Ok((env.module, i)),
        None => {},
    }
    match var_index(&stack[env.global], name) {
        Some(i) => Ok((env.global, i)),
        None => Err(Fault::UndefinedVariable),
    }
}

fn slot_get(stack: &Vec<Frame>, s: (usize, usize)) -> (r: Result<Value, Fault>)
    requires
        s.0 < stack@.len(),
    ensures
        match r {
            Ok(v) => slot_value(frames_view(stack@), (s.0 as int, s.1 as int)) == Ok::<(Seq<Types>, ValuesV), Fault>(v@),
            Err(e) => slot_value(frames_view(stack@), (s.0 as int, s.1 as int)) == Err::<(Seq<Types>, ValuesV), Fault>(e),
        },
{
    if s.1 < stack[s.0].len() {
        Ok(stack[s.0].get(s.1).clone())
    } else {
        Err(Fault::OutOfBounds)
    }
}

fn find_offset(structs: &Vec<(String, Struct)>, sname: &String, field: &String) -> (r: Result<usize, Fault>)
    ensures
        match r {
            Ok(o) => field_offset(structs@, sname@, field@) == Ok::<usize, Fault>(o),
            Err(e) => field_offset(structs@, sname@, field@) == Err::<usize, Fault>(e),
        },
{
    match get_name(structs, sname) {
        Some(st) => match st.offset_of(field) {
            Some(o) => Ok(o),
            None => Err(Fault::UnknownField),
        },
        None => Err(Fault::UnknownStruct),
    }
}

fn field_of(name: &String) -> (r: Option<(String, String)>)
    ensures
        match r {
            Some((a, b)) => first_dot(name@) >= 0 && a@ == before_dot(name@) && b@ == field_part(name@),
            None => first_dot(name@) == -1,
        },
{
    match split_first_dot(name) {
        Some((a, rest)) => match split_first_dot(&rest) {
            Some((b, _)) => Some((a, b)),
            None => Some((a, rest)),
        },
        None => None,
    }
}

fn field_find(stack: &Vec<Frame>, env: Env, structs: &Vec<(String, Struct)>, base: &String, field: &String)
    -> (r: Result<(usize, usize), Fault>)
    requires
        env_ok(frames_view(stack@), env),
    ensures
        forall|name: Seq<char>| before_dot(name) == base@ && field_part(name) == field@ ==>
            match r {
                Ok(s) => field_slot(frames_view(stack@), env, structs@, name) == Ok::<(int, int), Fault>((s.0 as int, s.1 as int)),
                Err(e) => field_slot(frames_view(stack@), env, structs@, name) == Err::<(int, int), Fault>(e),
            },
{
    let s = match plain_find(stack, env, base) {
        Ok(s) => s,
        Err(e) => return Err(e),
    };
    let v = match slot_get(stack, s) {
        Ok(v) => v,
        Err(e) => return Err(e),
    };
    match &v.val {
        Values::STRUCT(sn, idx) => match find_offset(structs, sn, field) {
            Ok(off) => if *idx <= usize::MAX - off { Ok((env.cur, *idx + off)) } else { Err(Fault::OutOfBounds) },
            Err(e) => Err(e),
        },
        _ => Err(Fault::NotAStruct),
    }
}

/// The value of the variable `name`, as `read_var` says.
pub fn get_var(name: &String, global_scope: &Scope, stack: &Vec<Frame>, env: Env) -> (r: Result<Value, Fault>)
    requires
        env_ok(frames_view(stack@), env),
    ensures
        match r {
            Ok(v) => read_var(frames_view(stack@), env, structs_of(global_scope), name@) == Ok::<(Seq<Types>, ValuesV), Fault>(v@),
            Err(e) => read_var(frames_view(stack@), env, structs_of(global_scope), name@) == Err::<(Seq<Types>, ValuesV), Fault>(e),
        },
{
    let s = match var_index(&stack[env.cur], name) {
        Some(i) => (env.cur, i),
        None => match field_of(name) {
            Some((base, field)) => match field_find(stack, env, &global_scope.structs, &base, &field) {
                Ok(s) => s,
                Err(e) => return Err(e),
            },
            None => match plain_find(stack, env, name) {
                Ok(s) => s,
                Err(e) => return Err(e),
            },
        },
    };
    slot_get(stack, s)
}

pub(crate) fn slot_set(stack: &mut Vec<Frame>, s: (usize, usize), v: &Values) -> (r: Result<(), Fault>)
    requires
        s.0 < old(stack)@.len(),
    ensures
        final(stack)@.len() == old(stack)@.len(),
        match r {
            Ok(_) => write_slot(frames_view(old(stack)@), (s.0 as int, s.1 as int), v@)
                == Ok::<Seq<FrameV>, Fault>(frames_view(final(stack)@)),
            Err(e) => write_slot(frames_view(old(stack)@), (s.0 as int, s.1 as int), v@) == Err::<Seq<FrameV>, Fault>(e)
                && final(stack)@ == old(stack)@,
        },
{
    if s.1 >= stack[s.0].len() {
        return Err(Fault::OutOfBounds);
    }
    if !set_allowed(&stack[s.0].stack[s.1].val, v) {
        return Err(Fault::InvalidOperands);
    }
    let ghost old_fs = frames_view(stack@);
    stack[s.0].set(s.1, v);
    proof {
        assert(frames_view(stack@) =~= old_fs.update(s.0 as int, set_slot(old_fs[s.0 as int], s.1 as int, v@)));
    }
    Ok(())
}

fn is_discard(name: &String) -> (r: bool)
    ensures
        r == (name@ == seq!['_']),
{
    let st = name.as_str();
    if st.unicode_len() == 1 {
        let c = st.get_char(0);
        if c == '_' {
            assert(name@ =~= seq!['_']);
            true
        } else {
            false
        }
    } else {
        false
    }
}

/// Stores `value` in the variable `name`, as `write_var` says; on a fault
/// nothing changes.
pub fn set_var(name: &String, value: &Values, global_scope: &Scope, stack: &mut Vec<Frame>, env: Env) -> (r: Result<(), Fault>)
    requires
        env_ok(frames_view(old(stack)@), env),
    ensures
        final(stack)@.len() == old(stack)@.len(),
        match r {
            Ok(_) => write_var(frames_view(old(stack)@), env, structs_of(global_scope), name@, value@)
                == Ok::<Seq<FrameV>, Fault>(frames_view(final(stack)@)),
            Err(e) => write_var(frames_view(old(stack)@), env, structs_of(global_scope), name@, value@)
                == Err::<Seq<FrameV>, Fault>(e) && final(stack)@ == old(stack)@,
        },
{
    if is_discard(name) {
        return Ok(());
    }
    let s = match var_index(&stack[env.cur], name) {
        Some(i) => (env.cur, i),
        None => match var_index(&stack[env.global], name) {
            Some(i) => (env.global, i),
            None => match field_of(name) {
                Some((base, field)) => match field_find(stack, env, &global_scope.structs, &base, &field) {
                    Ok(s) => s,
                    Err(e) => return Err(e),
                },
                None => match var_index(&stack[env.module], name) {
                    Some(i) => (env.module, i),
                    None => return Err(Fault::UndefinedVariable),
                },
            },
        },
    };
    slot_set(stack, s, value)
}

} // verus!
