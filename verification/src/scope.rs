//! Scopes: the blocks of code of a Rainbow program with the functions,
//! externs, structs and modules declared in them.
use vstd::prelude::*;
use crate::_type::{Type, Types};
use crate::_struct::{Struct, StructV, struct_view, clone_struct, clone_names, clone_types};
use crate::instruction::{ArgV, Instruction, instr_view, clone_instruction};
use crate::names::{find_key, lookup, extend_entries, extend_names, find_name, contains_name, get_name,
    lemma_find_key, first_dot, before_dot, after_dot, split_first_dot, kview, kinsert, kextend};

verus! {

/// A block of a scope: a run of instructions, or a nested scope.
#[derive(Debug)]
pub enum Block {
    CODE(Vec<Instruction>),
    SCOPE(Scope),
}

/// A scope. Functions, externs, structs and modules are tables keyed by name.
#[derive(Debug)]
pub struct Scope {
    pub parent_scope: Option<Box<Scope>>,
    pub blocks: Vec<Block>,
    pub block_starts: Vec<usize>,
    pub functions: Vec<(String, Function)>,
    pub externs: Vec<(String, Extern)>,
    pub structs: Vec<(String, Struct)>,
    pub modules: Vec<(String, Module)>,
}

/// A function: its signature and its body.
#[derive(Debug)]
pub struct Function {
    pub name: String,
    pub ret_type: Type,
    pub arg_types: Vec<Type>,
    pub arg_names: Vec<String>,
    pub scope: Scope,
}

/// A function of a native library.
#[derive(Debug)]
pub struct Extern {
    pub name: String,
    pub ret_type: Type,
    pub arg_types: Vec<Type>,
    pub dll: String,
}

/// A module: a named scope with its own frame.
#[derive(Debug)]
pub struct Module {
    pub name: String,
    pub scope: Scope,
    pub frame: usize,
}

/// The content of an instruction.
pub type InstrV = (int, (u8, Seq<ArgV>));

/// The content of a block.
pub enum BlockV {
    CODE(Seq<InstrV>),
    SCOPE(ScopeV),
}

/// The content of a scope, without the link to its parent.
pub struct ScopeV {
    pub blocks: Seq<BlockV>,
    pub block_starts: Seq<usize>,
    pub functions: Seq<(Seq<char>, FunctionV)>,
    pub externs: Seq<(Seq<char>, ExternV)>,
    pub structs: Seq<(Seq<char>, StructV)>,
    pub modules: Seq<(Seq<char>, ModuleV)>,
}

pub struct FunctionV {
    pub name: Seq<char>,
    pub ret_type: Seq<Types>,
    pub arg_types: Seq<Seq<Types>>,
    pub arg_names: Seq<Seq<char>>,
    pub scope: ScopeV,
}

pub struct ExternV {
    pub name: Seq<char>,
    pub ret_type: Seq<Types>,
    pub arg_types: Seq<Seq<Types>>,
    pub dll: Seq<char>,
}

pub struct ModuleV {
    pub name: Seq<char>,
    pub scope: ScopeV,
    pub frame: usize,
}

pub open spec fn types_view(v: Seq<Type>) -> Seq<Seq<Types>> {
    v.map_values(|t: Type| t@)
}

pub open spec fn names_view(v: Seq<String>) -> Seq<Seq<char>> {
    v.map_values(|n: String| n@)
}

pub open spec fn code_view(v: Seq<Instruction>) -> Seq<InstrV> {
    v.map_values(|i: Instruction| instr_view(i))
}

pub open spec fn scope_view(s: Scope) -> ScopeV
    decreases s,
{
    ScopeV {
        blocks: blocks_view(s.blocks@),
        block_starts: s.block_starts@,
        functions: functions_view(s.functions@),
        externs: externs_view(s.externs@),
        structs: structs_view(s.structs@),
        modules: modules_view(s.modules@),
    }
}

pub open spec fn blocks_view(bs: Seq<Block>) -> Seq<BlockV>
    decreases bs,
{
    if bs.len() == 0 {
        Seq::empty()
    } else {
        blocks_view(bs.subrange(0, bs.len() - 1)).push(block_view(bs[bs.len() - 1]))
    }
}

pub open spec fn block_view(b: Block) -> BlockV
    decreases b,
{
    match b {
        Block::CODE(v) => BlockV::CODE(code_view(v@)),
        Block::SCOPE(s) => BlockV::SCOPE(scope_view(s)),
    }
}

pub open spec fn functions_view(fs: Seq<(String, Function)>) -> Seq<(Seq<char>, FunctionV)>
    decreases fs,
{
    if fs.len() == 0 {
        Seq::empty()
    } else {
        functions_view(fs.subrange(0, fs.len() - 1)).push(
            (fs[fs.len() - 1].0@, function_view(fs[fs.len() - 1].1)),
        )
    }
}

pub open spec fn function_view(f: Function) -> FunctionV
    decreases f,
{
    FunctionV {
        name: f.name@,
        ret_type: f.ret_type@,
        arg_types: types_view(f.arg_types@),
        arg_names: names_view(f.arg_names@),
        scope: scope_view(f.scope),
    }
}

pub open spec fn extern_view(e: Extern) -> ExternV {
    ExternV { name: e.name@, ret_type: e.ret_type@, arg_types: types_view(e.arg_types@), dll: e.dll@ }
}

pub open spec fn externs_view(es: Seq<(String, Extern)>) -> Seq<(Seq<char>, ExternV)> {
    es.map_values(|e: (String, Extern)| (e.0@, extern_view(e.1)))
}

pub open spec fn structs_view(ss: Seq<(String, Struct)>) -> Seq<(Seq<char>, StructV)> {
    ss.map_values(|e: (String, Struct)| (e.0@, struct_view(e.1)))
}

pub open spec fn modules_view(ms: Seq<(String, Module)>) -> Seq<(Seq<char>, ModuleV)>
    decreases ms,
{
    if ms.len() == 0 {
        Seq::empty()
    } else {
        modules_view(ms.subrange(0, ms.len() - 1)).push((ms[ms.len() - 1].0@, module_view(ms[ms.len() - 1].1)))
    }
}

pub open spec fn module_view(m: Module) -> ModuleV
    decreases m,
{
    ModuleV { name: m.name@, scope: scope_view(m.scope), frame: m.frame }
}


pub proof fn lemma_blocks_view_push(bs: Seq<Block>, b: Block)
    ensures
        blocks_view(bs.push(b)) == blocks_view(bs).push(block_view(b)),
{
    assert(bs.push(b).subrange(0, bs.len() as int) =~= bs);
}

pub proof fn lemma_functions_view_push(fs: Seq<(String, Function)>, f: (String, Function))
    ensures
        functions_view(fs.push(f)) == functions_view(fs).push((f.0@, function_view(f.1))),
{
    assert(fs.push(f).subrange(0, fs.len() as int) =~= fs);
}

pub proof fn lemma_modules_view_push(ms: Seq<(String, Module)>, m: (String, Module))
    ensures
        modules_view(ms.push(m)) == modules_view(ms).push((m.0@, module_view(m.1))),
{
    assert(ms.push(m).subrange(0, ms.len() as int) =~= ms);
}

pub proof fn lemma_blocks_view_len(bs: Seq<Block>)
    ensures
        blocks_view(bs).len() == bs.len(),
        forall|i: int| 0 <= i < bs.len() ==> #[trigger] blocks_view(bs)[i] == block_view(bs[i]),
    decreases bs.len(),
{
    if bs.len() > 0 {
        let p = bs.subrange(0, bs.len() - 1);
        lemma_blocks_view_len(p);
        assert forall|i: int| 0 <= i < bs.len() implies #[trigger] blocks_view(bs)[i] == block_view(bs[i]) by {
            if i < bs.len() - 1 {
                assert(p[i] == bs[i]);
            }
        }
    }
}

pub proof fn lemma_functions_view_len(fs: Seq<(String, Function)>)
    ensures
        functions_view(fs).len() == fs.len(),
        forall|i: int| 0 <= i < fs.len() ==> #[trigger] functions_view(fs)[i] == (fs[i].0@, function_view(fs[i].1)),
    decreases fs.len(),
{
    if fs.len() > 0 {
        let p = fs.subrange(0, fs.len() - 1);
        lemma_functions_view_len(p);
        assert forall|i: int| 0 <= i < fs.len() implies #[trigger] functions_view(fs)[i] == (fs[i].0@, function_view(fs[i].1)) by {
            if i < fs.len() - 1 {
                assert(p[i] == fs[i]);
            }
        }
    }
}

pub proof fn lemma_modules_view_len(ms: Seq<(String, Module)>)
    ensures
        modules_view(ms).len() == ms.len(),
        forall|i: int| 0 <= i < ms.len() ==> #[trigger] modules_view(ms)[i] == (ms[i].0@, module_view(ms[i].1)),
    decreases ms.len(),
{
    if ms.len() > 0 {
        let p = ms.subrange(0, ms.len() - 1);
        lemma_modules_view_len(p);
        assert forall|i: int| 0 <= i < ms.len() implies #[trigger] modules_view(ms)[i] == (ms[i].0@, module_view(ms[i].1)) by {
            if i < ms.len() - 1 {
                assert(p[i] == ms[i]);
            }
        }
    }
}

/// A copy of a list of instructions.
pub fn clone_code(v: &Vec<Instruction>) -> (r: Vec<Instruction>)
    ensures
        code_view(r@) == code_view(v@),
{
    let mut r: Vec<Instruction> = Vec::new();
    let mut i: usize = 0;
    while i < v.len()
        invariant
            i <= v@.len(),
            r@.len() == i,
            forall|k: int| 0 <= k < i ==> #[trigger] instr_view(r@[k]) == instr_view(v@[k]),
        decreases v@.len() - i,
    {
        r.push(clone_instruction(&v[i]));
        i = i + 1;
    }
    proof {
        assert(code_view(r@) =~= code_view(v@));
    }
    r
}

/// `a` and `b` hold the same content, and so do their parents, all the way
/// up the chain of parents.
pub open spec fn same_chain(a: Scope, b: Scope) -> bool
    decreases a,
{
    &&& scope_view(a) == scope_view(b)
    &&& match a.parent_scope {
        Some(p) => match b.parent_scope {
            Some(q) => same_chain(*p, *q),
            None => false,
        },
        None => b.parent_scope is None,
    }
}

/// Holding the same chain of contents is transitive.
pub proof fn lemma_same_chain_trans(a: Scope, b: Scope, c: Scope)
    requires
        same_chain(a, b),
        same_chain(b, c),
    ensures
        same_chain(a, c),
    decreases a,
{
    match a.parent_scope {
        Some(p) => {
            lemma_same_chain_trans(*p, *b.parent_scope->0, *c.parent_scope->0);
        },
        None => {},
    }
}

/// `child`'s parent is a scope holding the same chain of contents as `parent`.
pub open spec fn parented(child: Scope, parent: Scope) -> bool {
    child.parent_scope matches Some(p) && same_chain(*p, parent)
}

/// Holding the same chain of contents carries over to a scope with the same
/// contents and the same parent.
pub proof fn lemma_same_chain_to(a: Scope, b: Scope, c: Scope)
    requires
        same_chain(a, b),
        scope_view(b) == scope_view(c),
        b.parent_scope == c.parent_scope,
    ensures
        same_chain(a, c),
{
}

/// Every nested scope block, function body and module scope of `s` has as
/// parent a scope holding the same chain of contents as `s`.
pub open spec fn children_parented(s: Scope) -> bool {
    &&& forall|k: int| 0 <= k < s.blocks@.len() && (#[trigger] s.blocks@[k]) is SCOPE
        ==> parented(s.blocks@[k]->SCOPE_0, s)
    &&& forall|k: int| 0 <= k < s.functions@.len() ==> parented((#[trigger] s.functions@[k]).1.scope, s)
    &&& forall|k: int| 0 <= k < s.modules@.len() ==> parented((#[trigger] s.modules@[k]).1.scope, s)
}

/// A copy of a scope and of everything in it.
pub fn clone_scope(s: &Scope) -> (r: Scope)
    ensures
        scope_view(r) == scope_view(*s),
        same_chain(r, *s),
    decreases s,
{
    let parent_scope = match &s.parent_scope {
        Some(p) => Some(Box::new(clone_scope(p))),
        None => None,
    };
    Scope {
        parent_scope,
        blocks: clone_blocks(&s.blocks),
        block_starts: s.block_starts.clone(),
        functions: clone_functions(&s.functions),
        externs: clone_externs(&s.externs),
        structs: clone_structs(&s.structs),
        modules: clone_modules(&s.modules),
    }
}

fn clone_blocks(bs: &Vec<Block>) -> (r: Vec<Block>)
    ensures
        blocks_view(r@) == blocks_view(bs@),
    decreases bs,
{
    let mut r: Vec<Block> = Vec::new();
    let mut i: usize = 0;
    while i < bs.len()
        invariant
            i <= bs@.len(),
            blocks_view(r@) == blocks_view(bs@.subrange(0, i as int)),
        decreases bs@.len() - i,
    {
        assert(decreases_to!(bs => bs@[i as int]));
        let b = clone_block(&bs[i]);
        proof {
            lemma_blocks_view_push(r@, b);
            lemma_blocks_view_push(bs@.subrange(0, i as int), bs@[i as int]);
            assert(bs@.subrange(0, i as int).push(bs@[i as int]) =~= bs@.subrange(0, i + 1));
        }
        r.push(b);
        i = i + 1;
    }
    proof {
        assert(bs@.subrange(0, i as int) =~= bs@);
    }
    r
}

fn clone_block(b: &Block) -> (r: Block)
    ensures
        block_view(r) == block_view(*b),
    decreases b,
{
    match b {
        Block::CODE(v) => Block::CODE(clone_code(v)),
        Block::SCOPE(s) => Block::SCOPE(clone_scope(s)),
    }
}

fn clone_functions(fs: &Vec<(String, Function)>) -> (r: Vec<(String, Function)>)
    ensures
        functions_view(r@) == functions_view(fs@),
    decreases fs,
{
    let mut r: Vec<(String, Function)> = Vec::new();
    let mut i: usize = 0;
    while i < fs.len()
        invariant
            i <= fs@.len(),
            functions_view(r@) == functions_view(fs@.subrange(0, i as int)),
        decreases fs@.len() - i,
    {
        assert(decreases_to!(fs => fs@[i as int].1));
        let f = (fs[i].0.clone(), clone_function(&fs[i].1));
        proof {
            lemma_functions_view_push(r@, f);
            lemma_functions_view_push(fs@.subrange(0, i as int), fs@[i as int]);
            assert(fs@.subrange(0, i as int).push(fs@[i as int]) =~= fs@.subrange(0, i + 1));
        }
        r.push(f);
        i = i + 1;
    }
    proof {
        assert(fs@.subrange(0, i as int) =~= fs@);
    }
    r
}

/// A copy of a function and of its body.
pub fn clone_function(f: &Function) -> (r: Function)
    ensures
        function_view(r) == function_view(*f),
    decreases f,
{
    let r = Function {
        name: f.name.clone(),
        ret_type: f.ret_type.clone(),
        arg_types: clone_types(&f.arg_types),
        arg_names: clone_names(&f.arg_names),
        scope: clone_scope(&f.scope),
    };
    r
}

/// A copy of an extern.
pub fn clone_extern(e: &Extern) -> (r: Extern)
    ensures
        extern_view(r) == extern_view(*e),
{
    Extern { name: e.name.clone(), ret_type: e.ret_type.clone(), arg_types: clone_types(&e.arg_types), dll: e.dll.clone() }
}

fn clone_externs(es: &Vec<(String, Extern)>) -> (r: Vec<(String, Extern)>)
    ensures
        externs_view(r@) == externs_view(es@),
{
    let mut r: Vec<(String, Extern)> = Vec::new();
    let mut i: usize = 0;
    while i < es.len()
        invariant
            i <= es@.len(),
            r@.len() == i,
            forall|k: int| 0 <= k < i ==> #[trigger] r@[k].0@ == es@[k].0@ && extern_view(r@[k].1) == extern_view(es@[k].1),
        decreases es@.len() - i,
    {
        r.push((es[i].0.clone(), clone_extern(&es[i].1)));
        i = i + 1;
    }
    proof {
        assert(externs_view(r@) =~= externs_view(es@));
    }
    r
}

fn clone_structs(ss: &Vec<(String, Struct)>) -> (r: Vec<(String, Struct)>)
    ensures
        structs_view(r@) == structs_view(ss@),
{
    let mut r: Vec<(String, Struct)> = Vec::new();
    let mut i: usize = 0;
    while i < ss.len()
        invariant
            i <= ss@.len(),
            r@.len() == i,
            forall|k: int| 0 <= k < i ==> #[trigger] r@[k].0@ == ss@[k].0@ && struct_view(r@[k].1) == struct_view(ss@[k].1),
        decreases ss@.len() - i,
    {
        r.push((ss[i].0.clone(), clone_struct(&ss[i].1)));
        i = i + 1;
    }
    proof {
        assert(structs_view(r@) =~= structs_view(ss@));
    }
    r
}

fn clone_modules(ms: &Vec<(String, Module)>) -> (r: Vec<(String, Module)>)
    ensures
        modules_view(r@) == modules_view(ms@),
    decreases ms,
{
    let mut r: Vec<(String, Module)> = Vec::new();
    let mut i: usize = 0;
    while i < ms.len()
        invariant
            i <= ms@.len(),
            modules_view(r@) == modules_view(ms@.subrange(0, i as int)),
        decreases ms@.len() - i,
    {
        assert(decreases_to!(ms => ms@[i as int].1));
        let m = (ms[i].0.clone(), clone_module(&ms[i].1));
        proof {
            lemma_modules_view_push(r@, m);
            lemma_modules_view_push(ms@.subrange(0, i as int), ms@[i as int]);
            assert(ms@.subrange(0, i as int).push(ms@[i as int]) =~= ms@.subrange(0, i + 1));
        }
        r.push(m);
        i = i + 1;
    }
    proof {
        assert(ms@.subrange(0, i as int) =~= ms@);
    }
    r
}

/// A copy of a module and of its scope.
pub fn clone_module(m: &Module) -> (r: Module)
    ensures
        module_view(r) == module_view(*m),
    decreases m,
{
    Module { name: m.name.clone(), scope: clone_scope(&m.scope), frame: m.frame }
}


/// The number of instruction slots a block takes: its instructions, or one
/// for a nested scope.
pub open spec fn block_len(b: BlockV) -> nat {
    match b {
        BlockV::CODE(v) => v.len(),
        BlockV::SCOPE(_) => 1,
    }
}

/// The number of instruction slots of a run of blocks.
pub open spec fn blocks_size(bs: Seq<BlockV>) -> nat
    decreases bs.len(),
{
    if bs.len() == 0 {
        0
    } else {
        blocks_size(bs.drop_last()) + block_len(bs.last())
    }
}

/// Each block starts where the blocks before it end: `block_starts[i]` is the
/// number of instruction slots of `blocks[0..i]`.
pub open spec fn starts_wf(v: ScopeV) -> bool {
    &&& v.block_starts.len() == v.blocks.len()
    &&& forall|i: int| 0 <= i < v.blocks.len() ==> #[trigger] v.block_starts[i] == blocks_size(v.blocks.take(i))
}

pub proof fn lemma_blocks_size_take(bs: Seq<BlockV>, i: int)
    requires
        0 <= i < bs.len(),
    ensures
        blocks_size(bs.take(i + 1)) == blocks_size(bs.take(i)) + block_len(bs[i]),
{
    assert(bs.take(i + 1).drop_last() =~= bs.take(i));
}

/// The number of instruction slots of a block.
fn block_size(b: &Block) -> (n: usize)
    ensures
        n as nat == block_len(block_view(*b)),
{
    match b {
        Block::CODE(v) => v.len(),
        Block::SCOPE(_) => 1,
    }
}

impl Scope {
    /// An empty scope with no parent.
    pub fn new() -> (s: Scope)
        ensures
            s.parent_scope is None,
            scope_view(s) == (ScopeV {
                blocks: Seq::empty(),
                block_starts: Seq::empty(),
                functions: Seq::empty(),
                externs: Seq::empty(),
                structs: Seq::empty(),
                modules: Seq::empty(),
            }),
            starts_wf(scope_view(s)),
    {
        let s = Scope {
            parent_scope: None,
            blocks: Vec::new(),
            block_starts: Vec::new(),
            functions: Vec::new(),
            externs: Vec::new(),
            structs: Vec::new(),
            modules: Vec::new(),
        };
        proof {
            assert(scope_view(s).externs =~= Seq::<(Seq<char>, ExternV)>::empty());
            assert(scope_view(s).structs =~= Seq::<(Seq<char>, StructV)>::empty());
        }
        s
    }

    /// Appends a block. Its start is that of the last block plus the last
    /// block's size, or 0 for the first start.
    pub fn add_block(&mut self, block: Block)
        requires
            old(self).block_starts@.len() == 0 || old(self).blocks@.len() > 0,
            old(self).block_starts@.len() > 0 ==> old(self).block_starts@.last()
                + block_len(block_view(old(self).blocks@.last())) <= usize::MAX,
        ensures
            final(self).parent_scope == old(self).parent_scope,
            final(self).blocks@ == old(self).blocks@.push(block),
            final(self).block_starts@ == old(self).block_starts@.push(
                if old(self).block_starts@.len() == 0 {
                    0usize
                } else {
                    (old(self).block_starts@.last() + block_len(block_view(old(self).blocks@.last()))) as usize
                },
            ),
            final(self).functions == old(self).functions,
            final(self).externs == old(self).externs,
            final(self).structs == old(self).structs,
            final(self).modules == old(self).modules,
            starts_wf(scope_view(*old(self))) ==> starts_wf(scope_view(*final(self))),
    {
        let ghost old_view = scope_view(*self);
        if self.block_starts.len() == 0 {
            self.block_starts.push(0);
        } else {
            let len = block_size(&self.blocks[self.blocks.len() - 1]);
            let last = self.block_starts[self.block_starts.len() - 1];
            self.block_starts.push(last + len);
        }
        self.blocks.push(block);
        proof {
            lemma_blocks_view_push(old(self).blocks@, block);
            let nv = scope_view(*self);
            if starts_wf(old_view) {
                lemma_blocks_view_len(old(self).blocks@);
                assert forall|i: int| 0 <= i < nv.blocks.len() implies #[trigger] nv.block_starts[i]
                    == blocks_size(nv.blocks.take(i)) by {
                    assert(nv.blocks.take(i) =~= old_view.blocks.take(i)) by {
                        if i < old_view.blocks.len() {
                            assert(nv.blocks.take(i) =~= old_view.blocks.take(i));
                        } else {
                            assert(nv.blocks.take(i) =~= old_view.blocks);
                            assert(old_view.blocks.take(i) =~= old_view.blocks);
                        }
                    }
                    if i == old_view.blocks.len() && i > 0 {
                        lemma_blocks_size_take(old_view.blocks, i - 1);
                        assert(old_view.blocks.take(i) =~= old_view.blocks);
                    }
                }
            }
        }
    }

    /// Takes in the blocks and the declarations of `other`: the blocks are
    /// appended, every start is computed again, and the declarations are added,
    /// those of `other` winning where a name is declared twice.
    pub fn merge(&mut self, other: Scope)
        requires
            blocks_size(blocks_view(old(self).blocks@ + other.blocks@)) <= usize::MAX,
        ensures
            final(self).parent_scope == old(self).parent_scope,
            final(self).blocks@ == old(self).blocks@ + other.blocks@,
            starts_wf(scope_view(*final(self))),
            final(self).functions@ == extend_entries(old(self).functions@, other.functions@),
            final(self).externs@ == extend_entries(old(self).externs@, other.externs@),
            final(self).structs@ == extend_entries(old(self).structs@, other.structs@),
            final(self).modules@ == extend_entries(old(self).modules@, other.modules@),
    {
        let mut other = other;
        let ghost ob = other.blocks@;
        self.blocks.append(&mut other.blocks);
        let ghost all = self.blocks@;
        self.block_starts = Vec::new();
        let ghost bv = blocks_view(self.blocks@);
        proof {
            lemma_blocks_view_len(self.blocks@);
            assert(bv.take(0) =~= Seq::<BlockV>::empty());
        }
        let mut len: usize = 0;
        let mut i: usize = 0;
        while i < self.blocks.len()
            invariant
                i <= self.blocks@.len(),
                self.blocks@ == all,
                all == old(self).blocks@ + ob,
                self.parent_scope == old(self).parent_scope,
                self.functions == old(self).functions,
                self.externs == old(self).externs,
                self.structs == old(self).structs,
                self.modules == old(self).modules,
                bv == blocks_view(self.blocks@),
                bv.len() == self.blocks@.len(),
                forall|k: int| 0 <= k < self.blocks@.len() ==> #[trigger] bv[k] == block_view(self.blocks@[k]),
                blocks_size(bv) <= usize::MAX,
                self.block_starts@.len() == i,
                forall|k: int| 0 <= k < i ==> #[trigger] self.block_starts@[k] == blocks_size(bv.take(k)),
                len as nat == blocks_size(bv.take(i as int)),
            decreases self.blocks@.len() - i,
        {
            self.block_starts.push(len);
            let n = block_size(&self.blocks[i]);
            proof {
                lemma_blocks_size_take(bv, i as int);
                lemma_blocks_size_prefix_bound(bv, i + 1);
            }
            len = len + n;
            i = i + 1;
        }
        extend_names(&mut self.functions, other.functions);
        extend_names(&mut self.externs, other.externs);
        extend_names(&mut self.structs, other.structs);
        extend_names(&mut self.modules, other.modules);
    }
}

/// The blocks of a prefix take no more slots than all of them.
pub proof fn lemma_blocks_size_prefix_bound(bs: Seq<BlockV>, i: int)
    requires
        0 <= i <= bs.len(),
    ensures
        blocks_size(bs.take(i)) <= blocks_size(bs),
    decreases bs.len() - i,
{
    if i < bs.len() {
        lemma_blocks_size_prefix_bound(bs, i + 1);
        lemma_blocks_size_take(bs, i);
    } else {
        assert(bs.take(i) =~= bs);
    }
}


/// Whether a function of this name can be called from scope `s`: declared in
/// it or in one of its parents. With `check_module`, a dotted name whose first
/// part names a module of the scope is looked up in that module's scope.
pub open spec fn spec_func_exists(s: Scope, name: Seq<char>, check_module: bool) -> bool
    decreases s,
{
    let mi = find_key(s.modules@, before_dot(name));
    if check_module && first_dot(name) >= 0 && mi >= 0 {
        proof {
            lemma_find_key(s.modules@, before_dot(name));
        }
        spec_func_exists(s.modules@[mi].1.scope, after_dot(name), true)
    } else if find_key(s.functions@, name) >= 0 {
        true
    } else {
        match s.parent_scope {
            Some(p) => spec_func_exists(*p, name, check_module),
            None => false,
        }
    }
}

/// The function of this name seen from scope `s`: the scope's own, else that
/// of its nearest parent that declares it.
pub open spec fn spec_find_func(s: Scope, name: Seq<char>) -> Option<FunctionV>
    decreases s,
{
    let i = find_key(s.functions@, name);
    if i >= 0 {
        proof {
            lemma_find_key(s.functions@, name);
        }
        Some(function_view(s.functions@[i].1))
    } else {
        match s.parent_scope {
            Some(p) => spec_find_func(*p, name),
            None => None,
        }
    }
}

/// Without module lookup, a function exists exactly when it is found.
pub proof fn lemma_func_exists_find(s: Scope, name: Seq<char>)
    ensures
        spec_func_exists(s, name, false) <==> spec_find_func(s, name) is Some,
    decreases s,
{
    if find_key(s.functions@, name) < 0 {
        match s.parent_scope {
            Some(p) => lemma_func_exists_find(*p, name),
            None => {},
        }
    }
}

impl Scope {
    /// Whether a function of this name can be called from this scope (see
    /// `spec_func_exists`).
    pub fn func_exists(&self, name: &String, check_module: bool) -> (r: bool)
        ensures
            r == spec_func_exists(*self, name@, check_module),
        decreases self,
    {
        if check_module {
            match split_first_dot(name) {
                Some((module_name, rest)) => {
                    match find_name(&self.modules, &module_name) {
                        Some(i) => {
                            proof {
                                lemma_find_key(self.modules@, module_name@);
                            }
                            assert(decreases_to!(self => self.modules@[i as int].1.scope));
                            return self.modules[i].1.scope.func_exists(&rest, true);
                        },
                        None => {},
                    }
                },
                None => {},
            }
        }
        if contains_name(&self.functions, name) {
            true
        } else {
            match &self.parent_scope {
                Some(p) => p.func_exists(name, check_module),
                None => false,
            }
        }
    }

    /// A copy of the function of this name seen from this scope.
    pub fn get_func(&self, name: &String) -> (r: Function)
        requires
            spec_func_exists(*self, name@, false),
        ensures
            spec_find_func(*self, name@) == Some(function_view(r)),
        decreases self,
    {
        proof {
            lemma_func_exists_find(*self, name@);
        }
        match find_name(&self.functions, name) {
            Some(i) => {
                proof {
                    lemma_find_key(self.functions@, name@);
                }
                clone_function(&self.functions[i].1)
            },
            None => {
                match &self.parent_scope {
                    Some(p) => {
                        proof {
                            lemma_func_exists_find(**p, name@);
                        }
                        p.get_func(name)
                    },
                    None => {
                        proof {
                            assert(false);
                        }
                        clone_function(&self.functions[0].1)
                    },
                }
            },
        }
    }

    /// The module of this name declared in this scope.
    pub fn get_module<'a>(&'a self, name: &String) -> (r: &'a Module)
        requires
            lookup(self.modules@, name@) is Some,
        ensures
            lookup(self.modules@, name@) == Some(*r),
    {
        match get_name(&self.modules, name) {
            Some(m) => m,
            None => {
                proof {
                    assert(false);
                }
                &self.modules[0].1
            },
        }
    }
}


/// A scope with nothing in it.
pub open spec fn empty_scope_v() -> ScopeV {
    ScopeV {
        blocks: Seq::empty(),
        block_starts: Seq::empty(),
        functions: Seq::empty(),
        externs: Seq::empty(),
        structs: Seq::empty(),
        modules: Seq::empty(),
    }
}

/// Whether the start of a block appended to `v` fits in a `usize`.
pub open spec fn add_block_ok(v: ScopeV) -> bool {
    v.block_starts.len() == 0 || v.block_starts.last() + block_len(v.blocks.last()) <= usize::MAX
}

/// The scope after `add_block`.
pub open spec fn add_block_v(v: ScopeV, b: BlockV) -> ScopeV {
    ScopeV {
        blocks: v.blocks.push(b),
        block_starts: v.block_starts.push(
            if v.block_starts.len() == 0 {
                0usize
            } else {
                (v.block_starts.last() + block_len(v.blocks.last())) as usize
            },
        ),
        ..v
    }
}

/// Whether an instruction added to `v` needs a new block of code: there is no
/// block, or the last one is a nested scope.
pub open spec fn needs_code_block(v: ScopeV) -> bool {
    v.blocks.len() == 0 || v.blocks.last() is SCOPE
}

pub open spec fn code_of(b: BlockV) -> Seq<InstrV> {
    match b {
        BlockV::CODE(c) => c,
        BlockV::SCOPE(_) => Seq::empty(),
    }
}

/// The scope after an instruction is added to its last block of code, which
/// is added first when needed.
pub open spec fn push_instr_v(v: ScopeV, ins: InstrV) -> ScopeV {
    let w = if needs_code_block(v) { add_block_v(v, BlockV::CODE(Seq::empty())) } else { v };
    let last = w.blocks.len() - 1;
    ScopeV { blocks: w.blocks.update(last, BlockV::CODE(code_of(w.blocks[last]).push(ins))), ..w }
}

/// The starts of a run of blocks: each block starts where those before it end.
pub open spec fn starts_of(bs: Seq<BlockV>) -> Seq<usize> {
    Seq::new(bs.len(), |k: int| blocks_size(bs.take(k)) as usize)
}

/// Whether every start of the merged blocks fits in a `usize`.
pub open spec fn merge_ok(a: ScopeV, b: ScopeV) -> bool {
    blocks_size(a.blocks + b.blocks) <= usize::MAX
}

/// The scope after `merge`: the blocks of `b` follow those of `a`, the starts
/// are computed again, and the declarations of `b` are bound in turn.
pub open spec fn merge_v(a: ScopeV, b: ScopeV) -> ScopeV {
    ScopeV {
        blocks: a.blocks + b.blocks,
        block_starts: starts_of(a.blocks + b.blocks),
        functions: kextend(a.functions, b.functions),
        externs: kextend(a.externs, b.externs),
        structs: kextend(a.structs, b.structs),
        modules: kextend(a.modules, b.modules),
    }
}

pub proof fn lemma_functions_kview(fs: Seq<(String, Function)>)
    ensures
        functions_view(fs) == kview(fs, |f: Function| function_view(f)),
{
    lemma_functions_view_len(fs);
    assert(functions_view(fs) =~= kview(fs, |f: Function| function_view(f)));
}

pub proof fn lemma_modules_kview(ms: Seq<(String, Module)>)
    ensures
        modules_view(ms) == kview(ms, |m: Module| module_view(m)),
{
    lemma_modules_view_len(ms);
    assert(modules_view(ms) =~= kview(ms, |m: Module| module_view(m)));
}

pub proof fn lemma_externs_kview(es: Seq<(String, Extern)>)
    ensures
        externs_view(es) == kview(es, |e: Extern| extern_view(e)),
{
    assert(externs_view(es) =~= kview(es, |e: Extern| extern_view(e)));
}

pub proof fn lemma_structs_kview(ss: Seq<(String, Struct)>)
    ensures
        structs_view(ss) == kview(ss, |x: Struct| struct_view(x)),
{
    assert(structs_view(ss) =~= kview(ss, |x: Struct| struct_view(x)));
}

pub proof fn lemma_blocks_view_concat(a: Seq<Block>, b: Seq<Block>)
    ensures
        blocks_view(a + b) == blocks_view(a) + blocks_view(b),
{
    lemma_blocks_view_len(a);
    lemma_blocks_view_len(b);
    lemma_blocks_view_len(a + b);
    assert(blocks_view(a + b) =~= blocks_view(a) + blocks_view(b));
}

/// Well-formed starts are the starts of the blocks.
pub proof fn lemma_starts_wf_eq(v: ScopeV)
    requires
        starts_wf(v),
        blocks_size(v.blocks) <= usize::MAX,
    ensures
        v.block_starts == starts_of(v.blocks),
{
    assert forall|k: int| 0 <= k < v.blocks.len() implies v.block_starts[k] == #[trigger] starts_of(v.blocks)[k] by {
        lemma_blocks_size_prefix_bound(v.blocks, k);
    }
    assert(v.block_starts =~= starts_of(v.blocks));
}


/// Whether a block can be appended with its start in a `usize`.
pub fn can_add_block(scope: &Scope) -> (r: bool)
    requires
        starts_wf(scope_view(*scope)),
    ensures
        r == add_block_ok(scope_view(*scope)),
{
    proof {
        lemma_blocks_view_len(scope.blocks@);
    }
    if scope.block_starts.len() == 0 {
        true
    } else {
        let last = scope.block_starts[scope.block_starts.len() - 1];
        let n = block_size(&scope.blocks[scope.blocks.len() - 1]);
        last.checked_add(n).is_some()
    }
}

/// Whether the blocks of `a` followed by those of `b` take at most
/// `usize::MAX` slots.
pub fn merge_fits(a: &Scope, b: &Scope) -> (r: bool)
    ensures
        r == merge_ok(scope_view(*a), scope_view(*b)),
{
    let ghost cat = scope_view(*a).blocks + scope_view(*b).blocks;
    proof {
        lemma_blocks_view_len(a.blocks@);
        lemma_blocks_view_len(b.blocks@);
        assert(cat.take(0) =~= Seq::<BlockV>::empty());
    }
    let mut total: usize = 0;
    let mut i: usize = 0;
    while i < a.blocks.len()
        invariant
            i <= a.blocks@.len(),
            cat == scope_view(*a).blocks + scope_view(*b).blocks,
            scope_view(*a).blocks.len() == a.blocks@.len(),
            scope_view(*b).blocks.len() == b.blocks@.len(),
            forall|k: int| 0 <= k < a.blocks@.len() ==> #[trigger] scope_view(*a).blocks[k] == block_view(a.blocks@[k]),
            total as nat == blocks_size(cat.take(i as int)),
        decreases a.blocks@.len() - i,
    {
        let n = block_size(&a.blocks[i]);
        proof {
            lemma_blocks_size_take(cat, i as int);
        }
        match total.checked_add(n) {
            Some(t) => {
                total = t;
            },
            None => {
                proof {
                    lemma_blocks_size_prefix_bound(cat, i + 1);
                }
                return false;
            },
        }
        i = i + 1;
    }
    let mut j: usize = 0;
    while j < b.blocks.len()
        invariant
            j <= b.blocks@.len(),
            i == a.blocks@.len(),
            cat == scope_view(*a).blocks + scope_view(*b).blocks,
            scope_view(*a).blocks.len() == a.blocks@.len(),
            scope_view(*b).blocks.len() == b.blocks@.len(),
            forall|k: int| 0 <= k < b.blocks@.len() ==> #[trigger] scope_view(*b).blocks[k] == block_view(b.blocks@[k]),
            total as nat == blocks_size(cat.take(i + j)),
        decreases b.blocks@.len() - j,
    {
        let n = block_size(&b.blocks[j]);
        proof {
            lemma_blocks_size_take(cat, i + j);
            assert(cat[i + j] == scope_view(*b).blocks[j as int]);
        }
        match total.checked_add(n) {
            Some(t) => {
                total = t;
            },
            None => {
                proof {
                    lemma_blocks_size_prefix_bound(cat, i + j + 1);
                }
                return false;
            },
        }
        j = j + 1;
    }
    proof {
        assert(cat.take(i + j) =~= cat);
    }
    true
}

/// Adds an instruction to the last block of code of a scope, adding that
/// block first when there is none at the end.
pub fn push_instruction(scope: &mut Scope, ins: Instruction)
    requires
        starts_wf(scope_view(*old(scope))),
        needs_code_block(scope_view(*old(scope))) ==> add_block_ok(scope_view(*old(scope))),
    ensures
        scope_view(*final(scope)) == push_instr_v(scope_view(*old(scope)), instr_view(ins)),
        starts_wf(scope_view(*final(scope))),
{
    proof {
        lemma_blocks_view_len(scope.blocks@);
    }
    let need = if scope.blocks.len() == 0 {
        true
    } else {
        match &scope.blocks[scope.blocks.len() - 1] {
            Block::CODE(_) => false,
            Block::SCOPE(_) => true,
        }
    };
    if need {
        let nb = Block::CODE(Vec::new());
        let ghost gb = nb;
        scope.add_block(nb);
        proof {
            lemma_blocks_view_push(old(scope).blocks@, gb);
            assert(code_view(gb->CODE_0@) =~= Seq::<InstrV>::empty());
        }
    }
    let ghost mid = *scope;
    proof {
        lemma_blocks_view_len(mid.blocks@);
        assert(scope_view(mid) == if needs_code_block(scope_view(*old(scope))) {
            add_block_v(scope_view(*old(scope)), BlockV::CODE(Seq::empty()))
        } else {
            scope_view(*old(scope))
        }) by {
        }
    }
    let last = scope.blocks.pop().unwrap();
    match last {
        Block::CODE(v) => {
            let mut v = v;
            v.push(ins);
            scope.blocks.push(Block::CODE(v));
            proof {
                let n = mid.blocks@.len() - 1;
                assert(scope.blocks@ == mid.blocks@.update(n, Block::CODE(v)));
                lemma_blocks_view_len(scope.blocks@);
                assert(code_view(v@) =~= code_view(mid.blocks@[n]->CODE_0@).push(instr_view(ins)));
                assert(scope_view(*scope).blocks =~= scope_view(mid).blocks.update(n, BlockV::CODE(
                    code_of(scope_view(mid).blocks[n]).push(instr_view(ins)))));
                assert forall|k: int| 0 <= k < scope_view(*scope).blocks.len() implies
                    #[trigger] scope_view(*scope).block_starts[k] == blocks_size(scope_view(*scope).blocks.take(k)) by {
                    assert(scope_view(*scope).blocks.take(k) =~= scope_view(mid).blocks.take(k));
                }
            }
        },
        Block::SCOPE(sc) => {
            proof {
                assert(false);
            }
            scope.blocks.push(Block::SCOPE(sc));
        },
    }
}

/// A scope with each nested scope's parent, and the parent of the body of
/// each of its functions and modules, set to a copy of it.
pub fn finish_scope(scope: Scope) -> (r: Scope)
    ensures
        scope_view(r) == scope_view(scope),
        r.parent_scope == scope.parent_scope,
        forall|k: int| 0 <= k < r.blocks@.len() && (#[trigger] r.blocks@[k]) is SCOPE
            ==> parented(r.blocks@[k]->SCOPE_0, scope),
        forall|k: int| 0 <= k < r.functions@.len() ==> parented((#[trigger] r.functions@[k]).1.scope, scope),
        forall|k: int| 0 <= k < r.modules@.len() ==> parented((#[trigger] r.modules@[k]).1.scope, scope),
        children_parented(r),
{
    let ghost gs = scope;
    let copy = clone_scope(&scope);
    let Scope { parent_scope, blocks, block_starts, functions, externs, structs, modules } = scope;
    let ghost ob = blocks@;
    let ghost of = functions@;
    let ghost om = modules@;
    let mut blocks = blocks;
    let mut new_blocks: Vec<Block> = Vec::new();
    proof {
        assert(ob.subrange(0, 0) =~= Seq::<Block>::empty());
    }
    while blocks.len() > 0
        invariant
            new_blocks@.len() + blocks@.len() == ob.len(),
            blocks@ == ob.subrange(new_blocks@.len() as int, ob.len() as int),
            blocks_view(new_blocks@) == blocks_view(ob.subrange(0, new_blocks@.len() as int)),
            same_chain(copy, gs),
            forall|j: int| 0 <= j < new_blocks@.len() && (#[trigger] new_blocks@[j]) is SCOPE
                ==> parented(new_blocks@[j]->SCOPE_0, gs),
        decreases blocks@.len(),
    {
        let ghost k: int = new_blocks@.len() as int;
        let b = blocks.remove(0);
        let nb = match b {
            Block::SCOPE(s) => {
                let mut s = s;
                let c = clone_scope(&copy);
                proof {
                    lemma_same_chain_trans(c, copy, gs);
                }
                s.parent_scope = Some(Box::new(c));
                Block::SCOPE(s)
            },
            Block::CODE(v) => Block::CODE(v),
        };
        proof {
            lemma_blocks_view_push(new_blocks@, nb);
            lemma_blocks_view_push(ob.subrange(0, k as int), ob[k as int]);
            assert(ob.subrange(0, k as int).push(ob[k as int]) =~= ob.subrange(0, k + 1));
            assert(blocks@ =~= ob.subrange(k + 1, ob.len() as int));
        }
        new_blocks.push(nb);
    }
    let mut functions = functions;
    let mut new_functions: Vec<(String, Function)> = Vec::new();
    while functions.len() > 0
        invariant
            new_functions@.len() + functions@.len() == of.len(),
            functions@ == of.subrange(new_functions@.len() as int, of.len() as int),
            functions_view(new_functions@) == functions_view(of.subrange(0, new_functions@.len() as int)),
            same_chain(copy, gs),
            forall|j: int| 0 <= j < new_functions@.len() ==> parented((#[trigger] new_functions@[j]).1.scope, gs),
        decreases functions@.len(),
    {
        let ghost k: int = new_functions@.len() as int;
        let (n, f) = functions.remove(0);
        let mut f = f;
        let c = clone_scope(&copy);
        proof {
            lemma_same_chain_trans(c, copy, gs);
        }
        f.scope.parent_scope = Some(Box::new(c));
        proof {
            lemma_functions_view_push(new_functions@, (n, f));
            lemma_functions_view_push(of.subrange(0, k as int), of[k as int]);
            assert(of.subrange(0, k as int).push(of[k as int]) =~= of.subrange(0, k + 1));
            assert(functions@ =~= of.subrange(k + 1, of.len() as int));
        }
        new_functions.push((n, f));
    }
    let mut modules = modules;
    let mut new_modules: Vec<(String, Module)> = Vec::new();
    while modules.len() > 0
        invariant
            new_modules@.len() + modules@.len() == om.len(),
            modules@ == om.subrange(new_modules@.len() as int, om.len() as int),
            modules_view(new_modules@) == modules_view(om.subrange(0, new_modules@.len() as int)),
            same_chain(copy, gs),
            forall|j: int| 0 <= j < new_modules@.len() ==> parented((#[trigger] new_modules@[j]).1.scope, gs),
        decreases modules@.len(),
    {
        let ghost k: int = new_modules@.len() as int;
        let (n, m) = modules.remove(0);
        let mut m = m;
        let c = clone_scope(&copy);
        proof {
            lemma_same_chain_trans(c, copy, gs);
        }
        m.scope.parent_scope = Some(Box::new(c));
        proof {
            lemma_modules_view_push(new_modules@, (n, m));
            lemma_modules_view_push(om.subrange(0, k as int), om[k as int]);
            assert(om.subrange(0, k as int).push(om[k as int]) =~= om.subrange(0, k + 1));
            assert(modules@ =~= om.subrange(k + 1, om.len() as int));
        }
        new_modules.push((n, m));
    }
    proof {
        assert(ob.subrange(0, ob.len() as int) =~= ob);
        assert(of.subrange(0, of.len() as int) =~= of);
        assert(om.subrange(0, om.len() as int) =~= om);
    }
    let r = Scope {
        parent_scope,
        blocks: new_blocks,
        block_starts,
        functions: new_functions,
        externs,
        structs,
        modules: new_modules,
    };
    proof {
        assert forall|k: int| 0 <= k < r.blocks@.len() && (#[trigger] r.blocks@[k]) is SCOPE
            implies parented(r.blocks@[k]->SCOPE_0, r) by {
            lemma_same_chain_to(*r.blocks@[k]->SCOPE_0.parent_scope->0, gs, r);
        }
        assert forall|k: int| 0 <= k < r.functions@.len() implies parented((#[trigger] r.functions@[k]).1.scope, r) by {
            lemma_same_chain_to(*r.functions@[k].1.scope.parent_scope->0, gs, r);
        }
        assert forall|k: int| 0 <= k < r.modules@.len() implies parented((#[trigger] r.modules@[k]).1.scope, r) by {
            lemma_same_chain_to(*r.modules@[k].1.scope.parent_scope->0, gs, r);
        }
    }
    r
}


/// What `merge` leaves is the merge of the two scopes' contents.
pub proof fn lemma_merge_view(a: Scope, b: Scope, r: Scope)
    requires
        merge_ok(scope_view(a), scope_view(b)),
        r.blocks@ == a.blocks@ + b.blocks@,
        starts_wf(scope_view(r)),
        r.functions@ == extend_entries(a.functions@, b.functions@),
        r.externs@ == extend_entries(a.externs@, b.externs@),
        r.structs@ == extend_entries(a.structs@, b.structs@),
        r.modules@ == extend_entries(a.modules@, b.modules@),
    ensures
        scope_view(r) == merge_v(scope_view(a), scope_view(b)),
        blocks_size(blocks_view(a.blocks@ + b.blocks@)) <= usize::MAX,
{
    lemma_blocks_view_concat(a.blocks@, b.blocks@);
    lemma_starts_wf_eq(scope_view(r));
    lemma_functions_kview(a.functions@);
    lemma_functions_kview(b.functions@);
    lemma_functions_kview(r.functions@);
    crate::names::lemma_kview_extend(a.functions@, |f: Function| function_view(f), b.functions@);
    lemma_externs_kview(a.externs@);
    lemma_externs_kview(b.externs@);
    lemma_externs_kview(r.externs@);
    crate::names::lemma_kview_extend(a.externs@, |x: Extern| extern_view(x), b.externs@);
    lemma_structs_kview(a.structs@);
    lemma_structs_kview(b.structs@);
    lemma_structs_kview(r.structs@);
    crate::names::lemma_kview_extend(a.structs@, |x: Struct| struct_view(x), b.structs@);
    lemma_modules_kview(a.modules@);
    lemma_modules_kview(b.modules@);
    lemma_modules_kview(r.modules@);
    crate::names::lemma_kview_extend(a.modules@, |m: Module| module_view(m), b.modules@);
}

/// Merging two scopes whose blocks fit: the contents of the result.
pub fn merge_scopes(scope: &mut Scope, other: Scope)
    requires
        merge_ok(scope_view(*old(scope)), scope_view(other)),
    ensures
        scope_view(*final(scope)) == merge_v(scope_view(*old(scope)), scope_view(other)),
        starts_wf(scope_view(*final(scope))),
{
    proof {
        lemma_blocks_view_concat(scope.blocks@, other.blocks@);
    }
    let ghost a = *scope;
    let ghost b = other;
    scope.merge(other);
    proof {
        lemma_merge_view(a, b, *scope);
    }
}

} // verus!
