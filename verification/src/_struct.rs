//! Struct definitions: named fields with types, and each field's offset from
//! the struct's first slot, kept in an `IndexMap` as declared.
use vstd::prelude::*;
use indexmap::IndexMap;
use crate::_type::{Type, Types};

verus! {

#[verifier::external_type_specification]
#[verifier::external_body]
#[verifier::reject_recursive_types(K)]
#[verifier::reject_recursive_types(V)]
#[verifier::reject_recursive_types(S)]
pub struct ExIndexMap<K, V, S>(IndexMap<K, V, S>);

/// What a field-offset table holds: its (name, offset) pairs in the order in
/// which the names were first inserted.
pub uninterp spec fn offset_entries(m: IndexMap<String, usize>) -> Seq<(Seq<char>, usize)>;

/// The index of the first pair named `k`, or `-1`.
pub open spec fn entry_index(e: Seq<(Seq<char>, usize)>, k: Seq<char>) -> int
    decreases e.len(),
{
    if e.len() == 0 {
        -1
    } else if entry_index(e.drop_last(), k) >= 0 {
        entry_index(e.drop_last(), k)
    } else if e.last().0 == k {
        e.len() - 1
    } else {
        -1
    }
}

/// `IndexMap::new`: a table with no pairs.
#[verifier::external_body]
fn new_offsets() -> (m: IndexMap<String, usize>)
    ensures
        offset_entries(m) == Seq::<(Seq<char>, usize)>::empty(),
{
    IndexMap::new()
}

/// `IndexMap::insert`: a key already present keeps its place and takes the new
/// value, and the old value is returned; a new key is added last and `None`
/// is returned.
#[verifier::external_body]
fn insert_offset(m: &mut IndexMap<String, usize>, k: String, v: usize) -> (r: Option<usize>)
    ensures
        ({
            let e = offset_entries(*old(m));
            let i = entry_index(e, k@);
            if i >= 0 {
                offset_entries(*final(m)) == e.update(i, (k@, v)) && r == Some(e[i].1)
            } else {
                offset_entries(*final(m)) == e.push((k@, v)) && r is None
            }
        }),
{
    m.insert(k, v)
}

/// `IndexMap::get`: the value paired with `k`, if any.
#[verifier::external_body]
fn get_offset(m: &IndexMap<String, usize>, k: &String) -> (r: Option<usize>)
    ensures
        ({
            let e = offset_entries(*m);
            let i = entry_index(e, k@);
            if i >= 0 {
                r == Some(e[i].1)
            } else {
                r is None
            }
        }),
{
    m.get(k).copied()
}

/// `IndexMap::clone`: a table with the same pairs in the same order.
#[verifier::external_body]
fn clone_offsets(m: &IndexMap<String, usize>) -> (r: IndexMap<String, usize>)
    ensures
        offset_entries(r) == offset_entries(*m),
{
    m.clone()
}

/// A struct definition.
#[derive(Debug)]
pub struct Struct {
    pub name: String,
    pub size: usize,
    pub var_names: Vec<String>,
    pub var_types: Vec<Type>,
    pub var_offsets: IndexMap<String, usize>,
}

/// The content of a struct definition.
pub struct StructV {
    pub name: Seq<char>,
    pub size: usize,
    pub var_names: Seq<Seq<char>>,
    pub var_types: Seq<Seq<Types>>,
    pub var_offsets: Seq<(Seq<char>, usize)>,
}

pub open spec fn struct_view(s: Struct) -> StructV {
    StructV {
        name: s.name@,
        size: s.size,
        var_names: s.var_names@.map_values(|n: String| n@),
        var_types: s.var_types@.map_values(|t: Type| t@),
        var_offsets: offset_entries(s.var_offsets),
    }
}

/// A copy of a list of names.
pub fn clone_names(v: &Vec<String>) -> (r: Vec<String>)
    ensures
        r@.map_values(|n: String| n@) == v@.map_values(|n: String| n@),
{
    let mut r: Vec<String> = Vec::new();
    let mut i: usize = 0;
    while i < v.len()
        invariant
            i <= v@.len(),
            r@.len() == i,
            forall|k: int| 0 <= k < i ==> #[trigger] r@[k]@ == v@[k]@,
        decreases v@.len() - i,
    {
        r.push(v[i].clone());
        i = i + 1;
    }
    proof {
        assert(r@.map_values(|n: String| n@) =~= v@.map_values(|n: String| n@));
    }
    r
}

/// A copy of a list of types.
pub fn clone_types(v: &Vec<Type>) -> (r: Vec<Type>)
    ensures
        r@.map_values(|t: Type| t@) == v@.map_values(|t: Type| t@),
{
    let mut r: Vec<Type> = Vec::new();
    let mut i: usize = 0;
    while i < v.len()
        invariant
            i <= v@.len(),
            r@.len() == i,
            forall|k: int| 0 <= k < i ==> #[trigger] r@[k]@ == v@[k]@,
        decreases v@.len() - i,
    {
        r.push(v[i].clone());
        i = i + 1;
    }
    proof {
        assert(r@.map_values(|t: Type| t@) =~= v@.map_values(|t: Type| t@));
    }
    r
}

impl Struct {
    /// An empty definition named `name`.
    pub fn new(name: String) -> (s: Struct)
        ensures
            struct_view(s) == (StructV {
                name: name@,
                size: 0,
                var_names: Seq::empty(),
                var_types: Seq::empty(),
                var_offsets: Seq::empty(),
            }),
    {
        let s = Struct { name, size: 0, var_names: Vec::new(), var_types: Vec::new(), var_offsets: new_offsets() };
        proof {
            assert(struct_view(s).var_names =~= Seq::<Seq<char>>::empty());
            assert(struct_view(s).var_types =~= Seq::<Seq<Types>>::empty());
        }
        s
    }

    /// Adds a field of type `typ` named `name` at offset `offset`: the size
    /// grows by one slot, and the name is bound to the offset.
    pub fn add_field(&mut self, typ: Type, name: String, offset: usize)
        requires
            old(self).size < usize::MAX,
        ensures
            struct_view(*final(self)) == (StructV {
                size: (old(self).size + 1) as usize,
                var_names: struct_view(*old(self)).var_names.push(name@),
                var_types: struct_view(*old(self)).var_types.push(typ@),
                var_offsets: insert_pair(struct_view(*old(self)).var_offsets, name@, offset),
                ..struct_view(*old(self))
            }),
    {
        self.size = self.size + 1;
        self.var_types.push(typ);
        self.var_names.push(name.clone());
        let _ = insert_offset(&mut self.var_offsets, name, offset);
        proof {
            assert(struct_view(*self).var_names =~= struct_view(*old(self)).var_names.push(name@));
            assert(struct_view(*self).var_types =~= struct_view(*old(self)).var_types.push(typ@));
        }
    }

    /// The offset of the field named `name`, if there is one.
    pub fn offset_of(&self, name: &String) -> (r: Option<usize>)
        ensures
            r == pair_lookup(struct_view(*self).var_offsets, name@),
    {
        get_offset(&self.var_offsets, name)
    }
}

/// The pairs after binding `k` to `v`: a present name keeps its place.
pub open spec fn insert_pair(e: Seq<(Seq<char>, usize)>, k: Seq<char>, v: usize) -> Seq<(Seq<char>, usize)> {
    let i = entry_index(e, k);
    if i >= 0 {
        e.update(i, (k, v))
    } else {
        e.push((k, v))
    }
}

/// The value paired with `k`, if any.
pub open spec fn pair_lookup(e: Seq<(Seq<char>, usize)>, k: Seq<char>) -> Option<usize> {
    let i = entry_index(e, k);
    if i >= 0 {
        Some(e[i].1)
    } else {
        None
    }
}

/// A copy of a struct definition.
pub fn clone_struct(s: &Struct) -> (r: Struct)
    ensures
        struct_view(r) == struct_view(*s),
{
    Struct {
        name: s.name.clone(),
        size: s.size,
        var_names: clone_names(&s.var_names),
        var_types: clone_types(&s.var_types),
        var_offsets: clone_offsets(&s.var_offsets),
    }
}

} // verus!
