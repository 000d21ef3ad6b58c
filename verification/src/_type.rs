use vstd::prelude::*;
use vstd::string::StringExecFns;

verus! {

/// The base types of the Rainbow bytecode, one per type byte `0x00..=0x0F`.
#[derive(Debug, Clone, Copy, PartialEq, Eq, Structural)]
pub enum Types {
    VOID,
    I8,
    I16,
    I32,
    I64,
    U8,
    U16,
    U32,
    U64,
    F16,
    F32,
    F64,
    POINTER,
    TYPE,
    STRUCT,
    NAME,
}

/// The type byte of each base type.
pub open spec fn type_code(t: Types) -> u8 {
    match t {
        Types::VOID => 0x00,
        Types::I8 => 0x01,
        Types::I16 => 0x02,
        Types::I32 => 0x03,
        Types::I64 => 0x04,
        Types::U8 => 0x05,
        Types::U16 => 0x06,
        Types::U32 => 0x07,
        Types::U64 => 0x08,
        Types::F16 => 0x09,
        Types::F32 => 0x0A,
        Types::F64 => 0x0B,
        Types::POINTER => 0x0C,
        Types::TYPE => 0x0D,
        Types::STRUCT => 0x0E,
        Types::NAME => 0x0F,
    }
}

/// The size in bytes of a value of each base type (structs and names have none).
pub open spec fn type_size(t: Types) -> nat {
    match t {
        Types::VOID => 0,
        Types::I8 | Types::U8 | Types::TYPE => 1,
        Types::I16 | Types::U16 | Types::F16 => 2,
        Types::I32 | Types::U32 | Types::F32 => 4,
        Types::I64 | Types::U64 | Types::F64 => 8,
        Types::POINTER => (usize::BITS / 8) as nat,
        Types::STRUCT | Types::NAME => 0,
    }
}

impl Types {
    /// Decodes a type byte. Bytes above `0x0F` name no type.
    pub fn from_u8(typ: u8) -> (res: Types)
        requires
            typ <= 0x0F,
        ensures
            type_code(res) == typ,
    {
        match typ {
            0x00 => Types::VOID,
            0x01 => Types::I8,
            0x02 => Types::I16,
            0x03 => Types::I32,
            0x04 => Types::I64,
            0x05 => Types::U8,
            0x06 => Types::U16,
            0x07 => Types::U32,
            0x08 => Types::U64,
            0x09 => Types::F16,
            0x0A => Types::F32,
            0x0B => Types::F64,
            0x0C => Types::POINTER,
            0x0D => Types::TYPE,
            0x0E => Types::STRUCT,
            _ => Types::NAME,
        }
    }

    /// The type byte of this type.
    pub fn to_u8(&self) -> (res: u8)
        ensures
            res == type_code(*self),
    {
        match self {
            Types::VOID => 0x00,
            Types::I8 => 0x01,
            Types::I16 => 0x02,
            Types::I32 => 0x03,
            Types::I64 => 0x04,
            Types::U8 => 0x05,
            Types::U16 => 0x06,
            Types::U32 => 0x07,
            Types::U64 => 0x08,
            Types::F16 => 0x09,
            Types::F32 => 0x0A,
            Types::F64 => 0x0B,
            Types::POINTER => 0x0C,
            Types::TYPE => 0x0D,
            Types::STRUCT => 0x0E,
            Types::NAME => 0x0F,
        }
    }

    /// The size in bytes of a value of this type.
    pub fn get_size(&self) -> (res: usize)
        ensures
            res as nat == type_size(*self),
    {
        match self {
            Types::VOID => 0,
            Types::I8 | Types::U8 | Types::TYPE => 1,
            Types::I16 | Types::U16 | Types::F16 => 2,
            Types::I32 | Types::U32 | Types::F32 => 4,
            Types::I64 | Types::U64 | Types::F64 => 8,
            Types::POINTER => (usize::BITS / 8) as usize,
            Types::STRUCT | Types::NAME => 0,
        }
    }
}

/// Decoding a type byte and encoding the result gives the byte back, and
/// distinct types have distinct bytes.
pub proof fn lemma_type_code_roundtrip(t: Types, u: Types)
    ensures
        type_code(t) <= 0x0F,
        type_code(t) == type_code(u) ==> t == u,
{
}

/// A type: a chain of pointer markers ending in a base type
/// (`[POINTER, POINTER, I8]` is `**i8`).
#[derive(Debug)]
pub struct Type {
    pub typ: Vec<Types>,
}

impl View for Type {
    type V = Seq<Types>;

    open spec fn view(&self) -> Seq<Types> {
        self.typ@
    }
}

impl Clone for Type {
    fn clone(&self) -> (res: Self)
        ensures
            res@ == self@,
    {
        Type { typ: self.typ.clone() }
    }
}

impl Type {
    /// The type this one points to: the chain without its first element.
    pub fn pop(self) -> (res: Type)
        requires
            self.typ@.len() >= 1,
        ensures
            res.typ@ == self.typ@.drop_first(),
    {
        let mut v: Vec<Types> = Vec::new();
        let mut i: usize = 1;
        while i < self.typ.len()
            invariant
                1 <= i <= self.typ@.len(),
                v@ == self.typ@.subrange(1, i as int),
            decreases self.typ@.len() - i,
        {
            v.push(self.typ[i]);
            i = i + 1;
        }
        Type { typ: v }
    }

    /// The size of a value of this type: that of its first element.
    pub fn get_size(&self) -> (res: usize)
        requires
            self.typ@.len() >= 1,
        ensures
            res as nat == type_size(self.typ@[0]),
    {
        self.typ[0].get_size()
    }
}

/// The name of a base type in a type's text; a pointer marker is `*`.
pub open spec fn base_name(t: Types) -> Seq<char> {
    match t {
        Types::VOID => seq!['v', 'o', 'i', 'd'],
        Types::I8 => seq!['i', '8'],
        Types::I16 => seq!['i', '1', '6'],
        Types::I32 => seq!['i', '3', '2'],
        Types::I64 => seq!['i', '6', '4'],
        Types::U8 => seq!['u', '8'],
        Types::U16 => seq!['u', '1', '6'],
        Types::U32 => seq!['u', '3', '2'],
        Types::U64 => seq!['u', '6', '4'],
        Types::F16 => seq!['f', '1', '6'],
        Types::F32 => seq!['f', '3', '2'],
        Types::F64 => seq!['f', '6', '4'],
        Types::POINTER => seq!['*'],
        Types::TYPE => seq!['t', 'y', 'p', 'e'],
        Types::STRUCT => seq!['s', 't', 'r', 'u', 'c', 't'],
        Types::NAME => seq!['n', 'a', 'm', 'e'],
    }
}

/// The text of a type: the names of its elements in order (`*i8`).
pub open spec fn type_text(ts: Seq<Types>) -> Seq<char>
    decreases ts.len(),
{
    if ts.len() == 0 {
        Seq::empty()
    } else {
        type_text(ts.drop_last()) + base_name(ts.last())
    }
}

fn base_name_str(t: Types) -> (s: &'static str)
    ensures
        s@ == base_name(t),
{
    proof {
        reveal_strlit("void");
        reveal_strlit("i8");
        reveal_strlit("i16");
        reveal_strlit("i32");
        reveal_strlit("i64");
        reveal_strlit("u8");
        reveal_strlit("u16");
        reveal_strlit("u32");
        reveal_strlit("u64");
        reveal_strlit("f16");
        reveal_strlit("f32");
        reveal_strlit("f64");
        reveal_strlit("*");
        reveal_strlit("type");
        reveal_strlit("struct");
        reveal_strlit("name");
    }
    let s = match t {
        Types::VOID => "void",
        Types::I8 => "i8",
        Types::I16 => "i16",
        Types::I32 => "i32",
        Types::I64 => "i64",
        Types::U8 => "u8",
        Types::U16 => "u16",
        Types::U32 => "u32",
        Types::U64 => "u64",
        Types::F16 => "f16",
        Types::F32 => "f32",
        Types::F64 => "f64",
        Types::POINTER => "*",
        Types::TYPE => "type",
        Types::STRUCT => "struct",
        Types::NAME => "name",
    };
    assert(s@ =~= base_name(t));
    s
}

impl Type {
    /// The type's text, as `type_text` spells it.
    pub fn to_string(&self) -> (s: String)
        ensures
            s@ == type_text(self@),
    {
        let mut s = String::new();
        let mut i: usize = 0;
        let n = self.typ.len();
        while i < n
            invariant
                n == self.typ@.len(),
                i <= n,
                s@ == type_text(self.typ@.take(i as int)),
            decreases n - i,
        {
            proof {
                let t = self.typ@.take(i as int + 1);
                assert(t.drop_last() =~= self.typ@.take(i as int));
            }
            s.append(base_name_str(self.typ[i]));
            i = i + 1;
        }
        proof {
            assert(self.typ@.take(n as int) =~= self.typ@);
        }
        s
    }
}

} // verus!
