//! Frames: a stack of values, the variables that name slots of it, and for
//! each slot the name of the variable that owns it (empty when none does).
use vstd::prelude::*;
use crate::_type::{Type, Types};
use crate::value::{Value, Values, ValuesV, set_ok, set_v};
use crate::names::{kview, kfind, klookup, kinsert, kremove, find_key, lookup, insert_entry,
    remove_entry, contains_name, get_name, insert_name, remove_name, lemma_kfind,
    lemma_kview_insert, lemma_kview_remove, lemma_find_key};

verus! {

#[derive(Debug)]
pub struct Frame {
    pub vars: Vec<(String, usize)>,
    pub stack: Vec<Value>,
    pub allocs: Vec<String>,
}

/// The content of a frame.
pub struct FrameV {
    pub vars: Seq<(Seq<char>, usize)>,
    pub stack: Seq<(Seq<Types>, ValuesV)>,
    pub allocs: Seq<Seq<char>>,
}

pub open spec fn usize_id(x: usize) -> usize {
    x
}

pub open spec fn vars_view(v: Seq<(String, usize)>) -> Seq<(Seq<char>, usize)> {
    kview(v, |x: usize| usize_id(x))
}

pub open spec fn stack_view(v: Seq<Value>) -> Seq<(Seq<Types>, ValuesV)> {
    v.map_values(|x: Value| x@)
}

pub open spec fn frame_view(f: Frame) -> FrameV {
    FrameV {
        vars: vars_view(f.vars@),
        stack: stack_view(f.stack@),
        allocs: f.allocs@.map_values(|s: String| s@),
    }
}

/// A frame with nothing in it.
pub open spec fn empty_frame() -> FrameV {
    FrameV { vars: Seq::empty(), stack: Seq::empty(), allocs: Seq::empty() }
}

/// The value a fresh slot of this base type holds.
pub open spec fn default_val(t: Types) -> ValuesV {
    match t {
        Types::VOID => ValuesV::VOID,
        Types::I8 | Types::I16 | Types::I32 | Types::I64 => ValuesV::SIGNED(0),
        Types::U8 | Types::U16 | Types::U32 | Types::U64 => ValuesV::UNSIGNED(0),
        Types::F16 | Types::F32 | Types::F64 => ValuesV::DECIMAL(0),
        Types::POINTER => ValuesV::POINTER(usize::MAX, 0),
        Types::TYPE => ValuesV::TYPE(seq![Types::VOID]),
        Types::STRUCT => ValuesV::STRUCT(Seq::empty(), usize::MAX),
        Types::NAME => ValuesV::NAME(Seq::empty()),
    }
}

/// The frame after pushing a slot holding `v`, owned by `owner`.
pub open spec fn push_slot(f: FrameV, v: (Seq<Types>, ValuesV), owner: Seq<char>) -> FrameV {
    FrameV { stack: f.stack.push(v), allocs: f.allocs.push(owner), ..f }
}

/// The frame after declaring variable `name` holding `v`: a new slot owned by
/// the variable, unless a variable of that name exists, which is kept.
pub open spec fn declare_var(f: FrameV, name: Seq<char>, v: (Seq<Types>, ValuesV)) -> FrameV {
    if kfind(f.vars, name) >= 0 {
        f
    } else {
        FrameV {
            vars: kinsert(f.vars, name, f.stack.len() as usize),
            stack: f.stack.push(v),
            allocs: f.allocs.push(name),
        }
    }
}

/// The frame after storing `v` in slot `i`, converted as `Values::set` does.
pub open spec fn set_slot(f: FrameV, i: int, v: ValuesV) -> FrameV {
    FrameV { stack: f.stack.update(i, (f.stack[i].0, set_v(f.stack[i].1, v))), ..f }
}

impl Frame {
    /// An empty frame.
    pub fn new() -> (f: Frame)
        ensures
            frame_view(f) == empty_frame(),
    {
        let f = Frame { vars: Vec::new(), stack: Vec::new(), allocs: Vec::new() };
        proof {
            assert(frame_view(f).vars =~= Seq::<(Seq<char>, usize)>::empty());
            assert(frame_view(f).stack =~= Seq::<(Seq<Types>, ValuesV)>::empty());
            assert(frame_view(f).allocs =~= Seq::<Seq<char>>::empty());
        }
        f
    }

    /// The number of slots.
    pub fn len(&self) -> (r: usize)
        ensures
            r == self.stack@.len(),
    {
        self.stack.len()
    }

    /// Pushes a slot that no variable owns.
    pub fn push(&mut self, val: Value)
        ensures
            frame_view(*final(self)) == push_slot(frame_view(*old(self)), val@, Seq::empty()),
    {
        self.stack.push(val);
        self.allocs.push(String::new());
        proof {
            assert(frame_view(*self).stack =~= frame_view(*old(self)).stack.push(val@));
            assert(frame_view(*self).allocs =~= frame_view(*old(self)).allocs.push(Seq::empty()));
        }
    }

    /// Pops the last slot, forgetting the variable that owns it.
    pub fn pop(&mut self) -> (r: Value)
        requires
            old(self).allocs@.len() > 0,
            old(self).stack@.len() > 0,
            old(self).allocs@.last()@.len() > 0 ==> find_key(old(self).vars@, old(self).allocs@.last()@) >= 0,
        ensures
            r@ == frame_view(*old(self)).stack.last(),
            frame_view(*final(self)) == (FrameV {
                vars: if frame_view(*old(self)).allocs.last().len() > 0 {
                    kremove(frame_view(*old(self)).vars, frame_view(*old(self)).allocs.last())
                } else {
                    frame_view(*old(self)).vars
                },
                stack: frame_view(*old(self)).stack.drop_last(),
                allocs: frame_view(*old(self)).allocs.drop_last(),
            }),
    {
        let alloc = self.allocs.pop().unwrap();
        if alloc.as_str().unicode_len() > 0 {
            remove_name(&mut self.vars, &alloc);
            proof {
                lemma_kview_remove(old(self).vars@, |x: usize| usize_id(x), alloc@);
            }
        }
        let r = self.stack.pop().unwrap();
        proof {
            assert(frame_view(*self).stack =~= frame_view(*old(self)).stack.drop_last());
            assert(frame_view(*self).allocs =~= frame_view(*old(self)).allocs.drop_last());
        }
        r
    }

    /// Pops the last `amnt` slots and returns their values in stack order.
    pub fn pop_args(&mut self, amnt: usize) -> (r: Vec<Value>)
        requires
            amnt <= old(self).stack@.len(),
            amnt <= old(self).allocs@.len(),
        ensures
            stack_view(r@) == frame_view(*old(self)).stack.skip(old(self).stack@.len() - amnt),
            frame_view(*final(self)) == (FrameV {
                stack: frame_view(*old(self)).stack.take(old(self).stack@.len() - amnt),
                allocs: frame_view(*old(self)).allocs.take(old(self).allocs@.len() - amnt),
                ..frame_view(*old(self))
            }),
    {
        let n = self.allocs.len() - amnt;
        self.allocs.truncate(n);
        let m = self.stack.len() - amnt;
        let r = self.stack.split_off(m);
        proof {
            assert(frame_view(*self).stack =~= frame_view(*old(self)).stack.take(old(self).stack@.len() - amnt));
            assert(frame_view(*self).allocs =~= frame_view(*old(self)).allocs.take(old(self).allocs@.len() - amnt));
            assert(stack_view(r@) =~= frame_view(*old(self)).stack.skip(old(self).stack@.len() - amnt));
        }
        r
    }

    /// The value of the variable `name`.
    pub fn get_var(&self, name: &String) -> (r: &Value)
        requires
            lookup(self.vars@, name@) matches Some(i) && i < self.stack@.len(),
        ensures
            lookup(self.vars@, name@) matches Some(i) && *r == self.stack@[i as int],
    {
        match get_name(&self.vars, name) {
            Some(i) => &self.stack[*i],
            None => {
                proof {
                    assert(false);
                }
                &self.stack[0]
            },
        }
    }

    /// Stores `value` in slot `index`, converted to the slot's kind.
    pub fn set(&mut self, index: usize, value: &Values)
        requires
            index < old(self).stack@.len(),
            set_ok(old(self).stack@[index as int].val@, value@),
        ensures
            frame_view(*final(self)) == set_slot(frame_view(*old(self)), index as int, value@),
    {
        let mut slot = self.stack[index].clone();
        slot.set(value);
        self.stack.set(index, slot);
        proof {
            assert(frame_view(*self).stack =~= set_slot(frame_view(*old(self)), index as int, value@).stack);
        }
    }

    /// Stores `value` in the slot of variable `name`, converted to its kind.
    pub fn set_var(&mut self, name: &String, value: &Values)
        requires
            lookup(old(self).vars@, name@) matches Some(i) && i < old(self).stack@.len()
                && set_ok(old(self).stack@[i as int].val@, value@),
        ensures
            lookup(old(self).vars@, name@) matches Some(i)
                && frame_view(*final(self)) == set_slot(frame_view(*old(self)), i as int, value@),
    {
        match get_name(&self.vars, name) {
            Some(i) => {
                let i = *i;
                self.set(i, value);
            },
            None => {
                assert(false);
            },
        }
    }

    /// The value in slot `index`.
    pub fn get(&self, index: usize) -> (r: &Value)
        requires
            index < self.stack@.len(),
        ensures
            *r == self.stack@[index as int],
    {
        &self.stack[index]
    }

    /// Pushes a slot of type `typ` holding its default value, owned by `alloc`.
    pub fn push_alloc(&mut self, typ: &Type, alloc: String)
        requires
            typ@.len() > 0,
        ensures
            frame_view(*final(self)) == push_slot(frame_view(*old(self)), (typ@, default_val(typ@[0])), alloc@),
    {
        let value = Self::get_default_val(typ);
        self.stack.push(Value { typ: typ.clone(), val: value });
        self.allocs.push(alloc);
        proof {
            assert(frame_view(*self).stack =~= frame_view(*old(self)).stack.push((typ@, default_val(typ@[0]))));
            assert(frame_view(*self).allocs =~= frame_view(*old(self)).allocs.push(alloc@));
        }
    }

    /// Pushes a slot of type `typ` holding its default value, owned by no
    /// variable.
    pub fn push_type(&mut self, typ: &Type)
        requires
            typ@.len() > 0,
        ensures
            frame_view(*final(self)) == push_slot(frame_view(*old(self)), (typ@, default_val(typ@[0])), Seq::empty()),
    {
        self.push_alloc(typ, String::new());
    }

    /// Declares variable `name` of type `typ` holding `value`, unless a
    /// variable of that name exists.
    pub fn push_var(&mut self, name: &String, typ: Type, value: Values)
        ensures
            frame_view(*final(self)) == declare_var(frame_view(*old(self)), name@, (typ@, value@)),
    {
        proof {
            lemma_kfind(self.vars@, |x: usize| usize_id(x), name@);
        }
        if contains_name(&self.vars, name) {
        } else {
            let index = self.stack.len();
            self.stack.push(Value { typ, val: value });
            insert_name(&mut self.vars, name.clone(), index);
            self.allocs.push(name.clone());
            proof {
                lemma_kview_insert(old(self).vars@, |x: usize| usize_id(x), *name, index);
                assert(frame_view(*self).stack =~= frame_view(*old(self)).stack.push((typ@, value@)));
                assert(frame_view(*self).allocs =~= frame_view(*old(self)).allocs.push(name@));
            }
        }
    }

    /// The value a fresh slot of type `typ` holds.
    pub fn get_default_val(typ: &Type) -> (r: Values)
        requires
            typ@.len() > 0,
        ensures
            r@ == default_val(typ@[0]),
    {
        match typ.typ[0] {
            Types::VOID => Values::VOID,
            Types::I8 => Values::SIGNED(0),
            Types::I16 => Values::SIGNED(0),
            Types::I32 => Values::SIGNED(0),
            Types::I64 => Values::SIGNED(0),
            Types::U8 => Values::UNSIGNED(0),
            Types::U16 => Values::UNSIGNED(0),
            Types::U32 => Values::UNSIGNED(0),
            Types::U64 => Values::UNSIGNED(0),
            Types::F16 => Values::DECIMAL(0),
            Types::F32 => Values::DECIMAL(0),
            Types::F64 => Values::DECIMAL(0),
            Types::POINTER => Values::POINTER(usize::MAX, 0),
            Types::TYPE => Values::TYPE(crate::parse_scope::single_type(Types::VOID)),
            Types::STRUCT => Values::STRUCT(String::new(), usize::MAX),
            Types::NAME => Values::NAME(String::new()),
        }
    }

    /// Declares variable `name` of type `typ` holding its default value,
    /// unless a variable of that name exists.
    pub fn create_var(&mut self, name: String, typ: Type)
        requires
            typ@.len() > 0,
        ensures
            frame_view(*final(self)) == declare_var(frame_view(*old(self)), name@, (typ@, default_val(typ@[0]))),
    {
        let val = Self::get_default_val(&typ);
        self.push_var(&name, typ, val);
    }
}

} // verus!
