//! Calls: finding the function or native function a name refers to, binding
//! a called function's arguments in a new frame, and dropping a scope's slots
//! when it ends; also how the scope loop moves between blocks.
use vstd::prelude::*;
use crate::_type::Types;
use crate::frame::{Frame, FrameV, frame_view, empty_frame, declare_var, usize_id};
use crate::names::{klookup, kremove, lookup, get_name, contains_name, lemma_kfind, first_dot, before_dot,
    after_dot, split_first_dot, lemma_dot_from, kview, kinsert, insert_name, lemma_kview_insert};
use crate::parse_scope::{frames_view, consts_view, i32_id};
use crate::scope::{Scope, Function, FunctionV, Extern, ExternV, Module, function_view, extern_view, clone_function,
    clone_extern, spec_func_exists, spec_find_func, lemma_func_exists_find};
use crate::interp::Fault;
use crate::step::pop_frame;
use crate::value::{Value, ValuesV};
use vstd::string::{StrSliceExecFns, StringExecFns};

verus! {

/// The module a name refers to from scope `s`: one of `s`, else one of the
/// global scope `g`.
pub open spec fn module_of(s: Scope, g: Scope, name: Seq<char>) -> Option<Module> {
    match lookup(s.modules@, name) {
        Some(m) => Some(m),
        None => lookup(g.modules@, name),
    }
}

pub proof fn lemma_after_dot_shorter(name: Seq<char>)
    requires
        first_dot(name) >= 0,
    ensures
        after_dot(name).len() < name.len(),
{
    lemma_dot_from(name, 0);
}

/// The function a call of `name` from scope `s` runs, with the frame of the
/// module it belongs to: one seen from `s` (frame `mf`), else one seen from
/// the global scope (frame `gf`), else, for `m.rest`, the function `rest`
/// of module `m`.
pub open spec fn resolve_func(s: Scope, g: Scope, name: Seq<char>, mf: usize, gf: usize) -> Option<(usize, FunctionV)>
    decreases name.len(),
{
    if spec_func_exists(s, name, false) {
        Some((mf, spec_find_func(s, name)->0))
    } else if spec_func_exists(g, name, false) {
        Some((gf, spec_find_func(g, name)->0))
    } else if first_dot(name) >= 0 {
        proof {
            lemma_after_dot_shorter(name);
        }
        match module_of(s, g, before_dot(name)) {
            Some(m) => resolve_func(m.scope, g, after_dot(name), m.frame, gf),
            None => None,
        }
    } else {
        None
    }
}

/// The native function a call of `name` from scope `s` runs: one declared in
/// `s`, else in the global scope, else, for `m.rest`, `rest` in module `m`.
pub open spec fn resolve_extern(s: Scope, g: Scope, name: Seq<char>) -> Option<ExternV>
    decreases name.len(),
{
    match lookup(s.externs@, name) {
        Some(e) => Some(extern_view(e)),
        None => match lookup(g.externs@, name) {
            Some(e) => Some(extern_view(e)),
            None => if first_dot(name) >= 0 {
                proof {
                    lemma_after_dot_shorter(name);
                }
                match module_of(s, g, before_dot(name)) {
                    Some(m) => resolve_extern(m.scope, g, after_dot(name)),
                    None => None,
                }
            } else {
                None
            },
        },
    }
}

/// The module `name` refers to from `scope`, as `module_of` says.
pub fn get_module<'a>(name: &String, scope: &'a Scope, global_scope: &'a Scope) -> (r: Option<&'a Module>)
    ensures
        match r {
            Some(m) => module_of(*scope, *global_scope, name@) == Some(*m),
            None => module_of(*scope, *global_scope, name@) is None,
        },
{
    match get_name(&scope.modules, name) {
        Some(m) => Some(m),
        None => get_name(&global_scope.modules, name),
    }
}

/// The function a call of `name` runs and the frame of its module, as
/// `resolve_func` says.
pub fn get_func(name: &String, scope: &Scope, global_scope: &Scope, module_frame: usize, global_frame: usize)
    -> (r: Option<(usize, Function)>)
    ensures
        match r {
            Some((f, func)) => resolve_func(*scope, *global_scope, name@, module_frame, global_frame)
                == Some((f, function_view(func))),
            None => resolve_func(*scope, *global_scope, name@, module_frame, global_frame) is None,
        },
    decreases name@.len(),
{
    if scope.func_exists(name, false) {
        return Some((module_frame, scope.get_func(name)));
    }
    if global_scope.func_exists(name, false) {
        return Some((global_frame, global_scope.get_func(name)));
    }
    match split_first_dot(name) {
        Some((mname, rest)) => {
            proof {
                lemma_after_dot_shorter(name@);
            }
            match get_module(&mname, scope, global_scope) {
                Some(m) => get_func(&rest, &m.scope, global_scope, m.frame, global_frame),
                None => None,
            }
        },
        None => None,
    }
}

/// The native function a call of `name` runs, as `resolve_extern` says.
pub fn get_extern<'a>(name: &String, scope: &'a Scope, global_scope: &'a Scope) -> (r: Option<&'a Extern>)
    ensures
        match r {
            Some(e) => resolve_extern(*scope, *global_scope, name@) == Some(extern_view(*e)),
            None => resolve_extern(*scope, *global_scope, name@) is None,
        },
    decreases name@.len(),
{
    match get_name(&scope.externs, name) {
        Some(e) => return Some(e),
        None => {},
    }
    match get_name(&global_scope.externs, name) {
        Some(e) => return Some(e),
        None => {},
    }
    match split_first_dot(name) {
        Some((mname, rest)) => {
            proof {
                lemma_after_dot_shorter(name@);
            }
            match get_module(&mname, scope, global_scope) {
                Some(m) => get_extern(&rest, &m.scope, global_scope),
                None => None,
            }
        },
        None => None,
    }
}

/// Whether `name` names a function (not a native one) from `scope`: one seen
/// from it or from the global scope, looking into modules for dotted names.
pub fn func_exists(name: &String, scope: &Scope, global_scope: &Scope) -> (r: bool)
    ensures
        r == (spec_func_exists(*scope, name@, true) || spec_func_exists(*global_scope, name@, true)),
{
    scope.func_exists(name, true) || global_scope.func_exists(name, true)
}

/// What a call runs: a function with the frame of its module, or a native
/// function.
#[derive(Debug)]
pub enum Callee {
    Function(usize, Function),
    Extern(Extern),
}

pub enum CalleeV {
    Function(usize, FunctionV),
    Extern(ExternV),
}

/// What a call of `name` runs: a function when `name` names one (see
/// `func_exists`), else a native function.
pub open spec fn resolve_call_v(s: Scope, g: Scope, name: Seq<char>, mf: usize, gf: usize) -> Option<CalleeV> {
    if spec_func_exists(s, name, true) || spec_func_exists(g, name, true) {
        match resolve_func(s, g, name, mf, gf) {
            Some((f, func)) => Some(CalleeV::Function(f, func)),
            None => None,
        }
    } else {
        match resolve_extern(s, g, name) {
            Some(e) => Some(CalleeV::Extern(e)),
            None => None,
        }
    }
}

/// What a call of `name` runs, as `resolve_call_v` says; `None` when nothing
/// of that name can be called.
pub fn resolve_call(name: &String, scope: &Scope, global_scope: &Scope, module_frame: usize, global_frame: usize)
    -> (r: Option<Callee>)
    ensures
        match r {
            Some(Callee::Function(f, func)) => resolve_call_v(*scope, *global_scope, name@, module_frame, global_frame)
                == Some(CalleeV::Function(f, function_view(func))),
            Some(Callee::Extern(e)) => resolve_call_v(*scope, *global_scope, name@, module_frame, global_frame)
                == Some(CalleeV::Extern(extern_view(e))),
            None => resolve_call_v(*scope, *global_scope, name@, module_frame, global_frame) is None,
        },
{
    if func_exists(name, scope, global_scope) {
        match get_func(name, scope, global_scope, module_frame, global_frame) {
            Some((f, func)) => Some(Callee::Function(f, func)),
            None => None,
        }
    } else {
        match get_extern(name, scope, global_scope) {
            Some(e) => Some(Callee::Extern(clone_extern(e))),
            None => None,
        }
    }
}

/// Binding the arguments of a call: the top `names.len() - i` slots of the
/// caller's frame are popped, the last one into the last argument, each
/// declared in the callee's frame with the argument's type.
pub open spec fn bind_args(fs: Seq<FrameV>, caller: int, callee: int, names: Seq<Seq<char>>, types: Seq<Seq<Types>>, i: nat)
    -> Result<Seq<FrameV>, Fault>
    decreases names.len() - i,
{
    if i >= names.len() {
        Ok(fs)
    } else {
        match pop_frame(fs[caller]) {
            Err(e) => Err(e),
            Ok((v, f)) => {
                let k = names.len() - 1 - i;
                let fs1 = fs.update(caller, f);
                bind_args(fs1.update(callee, declare_var(fs1[callee], names[k], (types[k], v.1))), caller, callee,
                    names, types, i + 1)
            },
        }
    }
}

/// The frames after entering a function: a new frame on top holding its
/// arguments, taken from the frame below.
pub open spec fn enter_v(fs: Seq<FrameV>, f: FunctionV) -> Result<Seq<FrameV>, Fault> {
    if fs.len() == 0 {
        Err(Fault::NoCaller)
    } else if f.arg_types.len() < f.arg_names.len() {
        Err(Fault::InvalidOperands)
    } else {
        bind_args(fs.push(empty_frame()), fs.len() - 1, fs.len() as int, f.arg_names, f.arg_types, 0)
    }
}

/// Pops the top slot of frame `k`, as `pop_frame` says.
pub fn pop_checked(stack: &mut Vec<Frame>, k: usize) -> (r: Result<Value, Fault>)
    requires
        k < old(stack)@.len(),
    ensures
        final(stack)@.len() == old(stack)@.len(),
        match r {
            Ok(v) => pop_frame(frames_view(old(stack)@)[k as int]) matches Ok((x, f)) && x == v@
                && frames_view(final(stack)@) == frames_view(old(stack)@).update(k as int, f),
            Err(e) => pop_frame(frames_view(old(stack)@)[k as int]) == Err::<((Seq<Types>, ValuesV), FrameV), Fault>(e),
        },
{
    let ghost fs = frames_view(stack@);
    let na = stack[k].allocs.len();
    if na == 0 {
        return Err(Fault::OutOfBounds);
    }
    proof {
        lemma_kfind(stack@[k as int].vars@, |x: usize| usize_id(x), stack@[k as int].allocs@[na - 1]@);
        assert(fs[k as int].allocs.last() == stack@[k as int].allocs@.last()@);
    }
    if stack[k].allocs[na - 1].as_str().unicode_len() > 0 && !contains_name(&stack[k].vars, &stack[k].allocs[na - 1]) {
        return Err(Fault::CorruptFrame);
    }
    if stack[k].stack.len() == 0 {
        return Err(Fault::OutOfBounds);
    }
    let v = stack[k].pop();
    proof {
        assert(frames_view(stack@) =~= fs.update(k as int, pop_frame(fs[k as int])->Ok_0.1));
    }
    Ok(v)
}

/// Enters a function: pushes its frame and binds its arguments, as `enter_v`
/// says, and returns the new frame's index.
pub fn enter_function(func: &Function, stack: &mut Vec<Frame>) -> (r: Result<usize, Fault>)
    ensures
        match r {
            Ok(k) => k == old(stack)@.len() && enter_v(frames_view(old(stack)@), function_view(*func))
                == Ok::<Seq<FrameV>, Fault>(frames_view(final(stack)@)),
            Err(e) => enter_v(frames_view(old(stack)@), function_view(*func)) == Err::<Seq<FrameV>, Fault>(e),
        },
{
    let len = stack.len();
    if len == 0 {
        return Err(Fault::NoCaller);
    }
    let n = func.arg_names.len();
    if func.arg_types.len() < n {
        return Err(Fault::InvalidOperands);
    }
    let ghost f = function_view(*func);
    let ghost fs0 = frames_view(stack@).push(empty_frame());
    stack.push(Frame::new());
    proof {
        assert(frames_view(stack@) =~= fs0);
    }
    let ghost target = bind_args(fs0, len - 1, len as int, f.arg_names, f.arg_types, 0);
    let mut i: usize = 0;
    while i < n
        invariant
            i <= n,
            n == f.arg_names.len(),
            f == function_view(*func),
            n <= func.arg_types@.len(),
            stack@.len() == len + 1,
            len > 0,
            target == bind_args(fs0, len - 1, len as int, f.arg_names, f.arg_types, 0),
            target == enter_v(frames_view(old(stack)@), f),
            bind_args(frames_view(stack@), len - 1, len as int, f.arg_names, f.arg_types, i as nat) == target,
        decreases n - i,
    {
        let ghost fs = frames_view(stack@);
        let v = match pop_checked(stack, len - 1) {
            Ok(v) => v,
            Err(e) => return Err(e),
        };
        let index = n - 1 - i;
        let ghost fs1 = frames_view(stack@);
        let ghost pre = stack@;
        let t = func.arg_types[index].clone();
        stack[len].push_var(&func.arg_names[index], t, v.val);
        proof {
            assert(f.arg_names[index as int] == func.arg_names@[index as int]@);
            assert(f.arg_types[index as int] == func.arg_types@[index as int]@);
            assert forall|j: int| 0 <= j < fs1.len() implies frames_view(stack@)[j]
                == fs1.update(len as int, declare_var(fs1[len as int], f.arg_names[index as int],
                    (f.arg_types[index as int], v@.1)))[j] by {
                if j != len {
                    assert(stack@[j] == pre[j]);
                }
            }
            assert(frames_view(stack@) =~= fs1.update(len as int, declare_var(fs1[len as int], f.arg_names[index as int],
                (f.arg_types[index as int], v@.1))));
        }
        i = i + 1;
    }
    Ok(len)
}

/// The frame after dropping its top slots down to `start`, each popped as
/// `pop_frame` does.
pub open spec fn unwind_v(f: FrameV, start: nat) -> Result<FrameV, Fault>
    decreases f.stack.len(),
{
    if f.stack.len() <= start {
        Ok(f)
    } else if f.allocs.len() == 0 {
        Err(Fault::OutOfBounds)
    } else if f.allocs.last().len() > 0 && klookup(f.vars, f.allocs.last()) is None {
        Err(Fault::CorruptFrame)
    } else {
        unwind_v(FrameV {
            vars: if f.allocs.last().len() > 0 { kremove(f.vars, f.allocs.last()) } else { f.vars },
            stack: f.stack.drop_last(),
            allocs: f.allocs.drop_last(),
        }, start)
    }
}

/// Drops the slots of frame `k` above `start`, as a scope does when it ends.
pub fn unwind(stack: &mut Vec<Frame>, k: usize, start: usize) -> (r: Result<(), Fault>)
    requires
        k < old(stack)@.len(),
    ensures
        final(stack)@.len() == old(stack)@.len(),
        match r {
            Ok(_) => unwind_v(frames_view(old(stack)@)[k as int], start as nat) matches Ok(f)
                && frames_view(final(stack)@) == frames_view(old(stack)@).update(k as int, f),
            Err(e) => unwind_v(frames_view(old(stack)@)[k as int], start as nat) == Err::<FrameV, Fault>(e),
        },
{
    let ghost fs = frames_view(stack@);
    let ghost target = unwind_v(fs[k as int], start as nat);
    while stack[k].stack.len() > start
        invariant
            k < stack@.len(),
            stack@.len() == fs.len(),
            fs == frames_view(old(stack)@),
            target == unwind_v(fs[k as int], start as nat),
            frames_view(stack@) == fs.update(k as int, frames_view(stack@)[k as int]),
            unwind_v(frames_view(stack@)[k as int], start as nat) == target,
        decreases stack@[k as int].stack@.len(),
    {
        let ghost cur = frames_view(stack@)[k as int];
        match pop_checked(stack, k) {
            Ok(_) => {},
            Err(e) => return Err(e),
        }
        proof {
            assert(frames_view(stack@) =~= fs.update(k as int, frames_view(stack@)[k as int]));
        }
    }
    proof {
        assert(frames_view(stack@) =~= fs.update(k as int, frames_view(stack@)[k as int]));
    }
    Ok(())
}

/// The block the scope loop runs with the position at `pc`, from block `i`
/// on: while `pc` lies past the start of the next block it moves on (to the
/// last block at most). `None` when block `i` has no start.
pub open spec fn seek_v(starts: Seq<usize>, pc: usize, i: int) -> Option<(int, usize)>
    decreases starts.len() - i,
{
    if i < 0 {
        None
    } else if starts.len() > i + 1 {
        if pc > starts[i + 1] {
            if i + 1 >= starts.len() - 1 {
                Some((i + 1, starts[i + 1]))
            } else {
                seek_v(starts, pc, i + 1)
            }
        } else {
            Some((i, starts[i]))
        }
    } else if i < starts.len() {
        Some((i, starts[i]))
    } else {
        None
    }
}

/// The block to run and its start address, as `seek_v` says.
pub fn seek_block(starts: &Vec<usize>, pc: usize, i: usize) -> (r: Option<(usize, usize)>)
    ensures
        match r {
            Some((j, s)) => seek_v(starts@, pc, i as int) == Some((j as int, s)),
            None => seek_v(starts@, pc, i as int) is None,
        },
{
    let mut j = i;
    let n = starts.len();
    if n > j && n - j > 1 {
        while pc > starts[j + 1]
            invariant
                n == starts@.len(),
                n > j + 1,
                seek_v(starts@, pc, j as int) == seek_v(starts@, pc, i as int),
            decreases starts@.len() - j,
        {
            j = j + 1;
            if j >= starts.len() - 1 {
                return Some((j, starts[j]));
            }
        }
        Some((j, starts[j]))
    } else if j < starts.len() {
        Some((j, starts[j]))
    } else {
        None
    }
}

/// After a block ran: while the position lies before the start of block `i`
/// (and `i` is above 0), the loop steps back a block; `skip` records that it
/// did. `None` when a block it looks at has no start.
pub open spec fn back_v(starts: Seq<usize>, pc: usize, i: int, skip: bool) -> Option<(int, bool)>
    decreases i,
{
    if i <= 0 {
        Some((i, skip))
    } else if i >= starts.len() {
        None
    } else if pc < starts[i] {
        back_v(starts, pc, i - 1, true)
    } else {
        Some((i, skip))
    }
}

/// Steps the scope loop back as `back_v` says, starting with `skip` false.
pub fn back_block(starts: &Vec<usize>, pc: usize, i: usize) -> (r: Option<(usize, bool)>)
    ensures
        match r {
            Some((j, skip)) => back_v(starts@, pc, i as int, false) == Some((j as int, skip)),
            None => back_v(starts@, pc, i as int, false) is None,
        },
{
    let mut j = i;
    let mut skip = false;
    while j > 0
        invariant
            back_v(starts@, pc, j as int, skip) == back_v(starts@, pc, i as int, false),
        decreases j,
    {
        if j >= starts.len() {
            return None;
        }
        if pc < starts[j] {
            j = j - 1;
            skip = true;
        } else {
            return Some((j, skip));
        }
    }
    Some((j, skip))
}

/// Whether two strings hold the same characters.
pub fn same_str(a: &str, b: &str) -> (r: bool)
    ensures
        r == (a@ == b@),
{
    let n = a.unicode_len();
    if n != b.unicode_len() {
        return false;
    }
    let mut i: usize = 0;
    while i < n
        invariant
            i <= n,
            n == a@.len(),
            n == b@.len(),
            forall|j: int| 0 <= j < i ==> a@[j] == b@[j],
        decreases n - i,
    {
        if a.get_char(i) != b.get_char(i) {
            return false;
        }
        i = i + 1;
    }
    assert(a@ =~= b@);
    true
}

/// The platform constant of an operating system name: 0 for Linux, 1 for
/// Windows, 2 for any other.
pub open spec fn platform_code(os: Seq<char>) -> i32 {
    if os == "linux"@ {
        0
    } else if os == "windows"@ {
        1
    } else {
        2
    }
}

/// The runtime constants after `init_consts`: the three platform codes and
/// `PLATFORM`, the code of the operating system the program runs on.
pub open spec fn consts_after_init(c: Seq<(Seq<char>, i32)>, os: Seq<char>) -> Seq<(Seq<char>, i32)> {
    kinsert(kinsert(kinsert(kinsert(c, "PLATFORM_LINUX"@, 0), "PLATFORM_WIN32"@, 1), "PLATFORM_OTHER"@, 2),
        "PLATFORM"@, platform_code(os))
}

/// Defines the runtime constants that describe the platform, `os` being the
/// name of the operating system (as `std::env::consts::OS` gives it).
pub fn init_consts(consts: &mut Vec<(String, i32)>, os: &str)
    ensures
        consts_view(final(consts)@) == consts_after_init(consts_view(old(consts)@), os@),
{
    let code: i32 = if same_str(os, "linux") { 0 } else if same_str(os, "windows") { 1 } else { 2 };
    let k1 = String::from_str("PLATFORM_LINUX");
    let k2 = String::from_str("PLATFORM_WIN32");
    let k3 = String::from_str("PLATFORM_OTHER");
    let k4 = String::from_str("PLATFORM");
    let ghost c0 = consts@;
    proof {
        lemma_kview_insert(c0, |x: i32| i32_id(x), k1, 0);
    }
    insert_name(consts, k1, 0);
    let ghost c1 = consts@;
    proof {
        lemma_kview_insert(c1, |x: i32| i32_id(x), k2, 1);
    }
    insert_name(consts, k2, 1);
    let ghost c2 = consts@;
    proof {
        lemma_kview_insert(c2, |x: i32| i32_id(x), k3, 2);
    }
    insert_name(consts, k3, 2);
    let ghost c3 = consts@;
    proof {
        lemma_kview_insert(c3, |x: i32| i32_id(x), k4, code);
    }
    insert_name(consts, k4, code);
}

/// What the loop over the blocks of a scope does next: run a block (its index
/// and start address), end after the last block, leave the scope with a
/// nonzero code a block returned, or fail on a position no block holds.
#[derive(Debug, Clone, Copy, PartialEq, Eq, Structural)]
pub enum Walk {
    Run(usize, usize),
    End,
    Exit(i32),
    Lost,
}

/// The next step of the block loop of a scope with `n` blocks whose starts are
/// `starts`, at block index `i` and address `pc`: past the last block the loop
/// ends; otherwise it runs the block `seek_v` finds, or ends when that block is
/// past the last.
pub open spec fn walk_next_v(starts: Seq<usize>, n: int, pc: usize, i: int) -> Walk {
    if i >= n {
        Walk::End
    } else {
        match seek_v(starts, pc, i) {
            None => Walk::Lost,
            Some((j, s)) => if j >= n { Walk::End } else { Walk::Run(j as usize, s) },
        }
    }
}

/// The step after block `i` ran and returned `ret`, leaving the address at
/// `pc`: the loop steps back to the block holding `pc` (`back_v`); a nonzero
/// `ret` leaves the scope; otherwise the loop goes on with that block when it
/// stepped back, else with the one after it.
pub open spec fn walk_after_v(starts: Seq<usize>, n: int, pc: usize, i: int, ret: i32) -> Walk {
    match back_v(starts, pc, i, false) {
        None => Walk::Lost,
        Some((j, skip)) => if ret != 0 {
            Walk::Exit(ret)
        } else {
            walk_next_v(starts, n, pc, if skip { j } else { j + 1 })
        },
    }
}

/// The first step of the block loop, or the one after a block was stepped
/// over, as `walk_next_v` says.
pub fn walk_next(starts: &Vec<usize>, n: usize, pc: usize, i: usize) -> (w: Walk)
    ensures
        w == walk_next_v(starts@, n as int, pc, i as int),
{
    if i >= n {
        return Walk::End;
    }
    match seek_block(starts, pc, i) {
        None => Walk::Lost,
        Some((j, s)) => if j >= n { Walk::End } else { Walk::Run(j, s) },
    }
}

/// The step after block `i` ran and returned `ret`, as `walk_after_v` says.
pub fn walk_after(starts: &Vec<usize>, n: usize, pc: usize, i: usize, ret: i32) -> (w: Walk)
    ensures
        w == walk_after_v(starts@, n as int, pc, i as int, ret),
{
    match back_block(starts, pc, i) {
        None => Walk::Lost,
        Some((j, skip)) => {
            proof {
                lemma_back_v_bound(starts@, pc, i as int, false);
            }
            if ret != 0 {
                Walk::Exit(ret)
            } else if skip {
                walk_next(starts, n, pc, j)
            } else if j >= n {
                Walk::End
            } else {
                walk_next(starts, n, pc, j + 1)
            }
        },
    }
}

/// Stepping back never moves past the block it started from.
proof fn lemma_back_v_bound(starts: Seq<usize>, pc: usize, i: int, skip: bool)
    ensures
        back_v(starts, pc, i, skip) matches Some((j, _)) ==> j <= i,
    decreases i,
{
    if 0 < i < starts.len() && pc < starts[i] {
        lemma_back_v_bound(starts, pc, i - 1, true);
    }
}

} // verus!
