//! Typed immediates of the flat bytecode: a type byte followed by a value in
//! big-endian byte order.
use vstd::prelude::*;
use vstd::utf8::*;
use crate::parse_scope::{be_value, parse_bytecode_string, spec_bytecode_string, read_be};
use crate::float::{f16_widen, f32_widen, f64_as_usize, f16_bits_to_f64, f32_bits_to_f64, f64_to_usize};
use crate::cast::{is_integral, is_float, int_value, int_to, float_to, f64_bits_of, code_of, in_range, wide_int, int_to_exec, float_to_exec, code_of_exec};
use crate::value::{MathOp, int_op};

verus! {

/// A typed value. Floats are held by their bit patterns.
#[derive(Debug, Clone)]
pub enum Types {
    Void(u8),
    I8(i8),
    I16(i16),
    I32(i32),
    I64(i64),
    U8(u8),
    U16(u16),
    U32(u32),
    U64(u64),
    F16(u16),
    F32(u32),
    F64(u64),
    Pointer(u64),
    Type(u8),
    Struct(u8),
    Function(String),
}

/// The content of a typed value.
pub enum TypesV {
    Void(u8),
    I8(i8),
    I16(i16),
    I32(i32),
    I64(i64),
    U8(u8),
    U16(u16),
    U32(u32),
    U64(u64),
    F16(u16),
    F32(u32),
    F64(u64),
    Pointer(u64),
    Type(u8),
    Struct(u8),
    Function(Seq<char>),
}

impl View for Types {
    type V = TypesV;

    open spec fn view(&self) -> TypesV {
        match self {
            Types::Void(v) => TypesV::Void(*v),
            Types::I8(v) => TypesV::I8(*v),
            Types::I16(v) => TypesV::I16(*v),
            Types::I32(v) => TypesV::I32(*v),
            Types::I64(v) => TypesV::I64(*v),
            Types::U8(v) => TypesV::U8(*v),
            Types::U16(v) => TypesV::U16(*v),
            Types::U32(v) => TypesV::U32(*v),
            Types::U64(v) => TypesV::U64(*v),
            Types::F16(v) => TypesV::F16(*v),
            Types::F32(v) => TypesV::F32(*v),
            Types::F64(v) => TypesV::F64(*v),
            Types::Pointer(v) => TypesV::Pointer(*v),
            Types::Type(v) => TypesV::Type(*v),
            Types::Struct(v) => TypesV::Struct(*v),
            Types::Function(s) => TypesV::Function(s@),
        }
    }
}

/// The number of value bytes after a type byte (strings excluded).
pub open spec fn imm_len(t: u8) -> int {
    if t == 0x01 || t == 0x05 || t == 0x0D {
        1
    } else if t == 0x02 || t == 0x06 || t == 0x09 {
        2
    } else if t == 0x03 || t == 0x07 || t == 0x0A {
        4
    } else if t == 0x04 || t == 0x08 || t == 0x0B {
        8
    } else {
        0
    }
}

/// Whether an immediate can be read at `i`: a known type byte other than
/// void, pointer and struct, with all its value bytes present, and for a
/// function name a length byte and that many bytes of UTF-8.
pub open spec fn imm_ok(p: Seq<u8>, i: int) -> bool {
    0 <= i < p.len() && imm_fits(p, i, p[i])
}

/// Whether the value bytes of an immediate with type byte `t` at `i` are present.
pub open spec fn imm_fits(p: Seq<u8>, i: int, t: u8) -> bool {
    ||| ((0x01 <= t <= 0x0B || t == 0x0D) && i + 1 + imm_len(t) <= p.len())
    ||| (t == 0x0F && i + 1 < p.len() && i + 2 + p[i + 1] <= p.len()
        && valid_utf8(p.subrange(i + 2, i + 2 + p[i + 1])))
}

/// The immediate at `i` and the position after it, with multi-byte values read
/// big-endian.
pub open spec fn imm_at(p: Seq<u8>, i: int) -> (TypesV, int) {
    let t = p[i];
    let j = i + 1;
    let w = be_value(p.subrange(j, j + imm_len(t)));
    if t == 0x01 {
        (TypesV::I8(p[j] as i8), j + 1)
    } else if t == 0x02 {
        (TypesV::I16((w as u16) as i16), j + 2)
    } else if t == 0x03 {
        (TypesV::I32((w as u32) as i32), j + 4)
    } else if t == 0x04 {
        (TypesV::I64((w as u64) as i64), j + 8)
    } else if t == 0x05 {
        (TypesV::U8(p[j]), j + 1)
    } else if t == 0x06 {
        (TypesV::U16(w as u16), j + 2)
    } else if t == 0x07 {
        (TypesV::U32(w as u32), j + 4)
    } else if t == 0x08 {
        (TypesV::U64(w as u64), j + 8)
    } else if t == 0x09 {
        (TypesV::F16(w as u16), j + 2)
    } else if t == 0x0A {
        (TypesV::F32(w as u32), j + 4)
    } else if t == 0x0B {
        (TypesV::F64(w as u64), j + 8)
    } else if t == 0x0D {
        (TypesV::Type(p[j]), j + 1)
    } else {
        (TypesV::Function(decode_utf8(p.subrange(j + 1, j + 1 + p[j]))), j + 1 + p[j])
    }
}

/// `(v, j)` is what reading the immediate at `i` gives.
pub open spec fn imm_read(p: Seq<u8>, i: int, v: TypesV, j: int) -> bool {
    (v, j) == imm_at(p, i)
}

proof fn lemma_seq2(p: Seq<u8>, j: int)
    requires
        0 <= j,
        j + 2 <= p.len(),
    ensures
        p.subrange(j, j + 2) == seq![p[j], p[j + 1]],
{
    assert(p.subrange(j, j + 2) =~= seq![p[j], p[j + 1]]);
}

proof fn lemma_seq4(p: Seq<u8>, j: int)
    requires
        0 <= j,
        j + 4 <= p.len(),
    ensures
        p.subrange(j, j + 4) == seq![p[j], p[j + 1], p[j + 2], p[j + 3]],
{
    assert(p.subrange(j, j + 4) =~= seq![p[j], p[j + 1], p[j + 2], p[j + 3]]);
}

proof fn lemma_seq8(p: Seq<u8>, j: int)
    requires
        0 <= j,
        j + 8 <= p.len(),
    ensures
        p.subrange(j, j + 8) == seq![p[j], p[j + 1], p[j + 2], p[j + 3], p[j + 4], p[j + 5], p[j + 6], p[j + 7]],
{
    assert(p.subrange(j, j + 8) =~= seq![p[j], p[j + 1], p[j + 2], p[j + 3], p[j + 4], p[j + 5], p[j + 6], p[j + 7]]);
}

/// Reads the immediate at `pc` and leaves `pc` after it. Values wider than a
/// byte are read big-endian.
pub fn parse_imm(program: &Vec<u8>, pc: &mut usize) -> (res: Types)
    requires
        imm_ok(program@, *old(pc) as int),
    ensures
        imm_read(program@, *old(pc) as int, res@, *final(pc) as int),
{
    let ghost p = program@;
    let n: usize = program.len();
    let t = program[*pc];
    assert(*pc < n);
    let j = *pc + 1;
    if t == 0x01 {
        *pc = j + 1;
        Types::I8(program[j] as i8)
    } else if t == 0x05 {
        *pc = j + 1;
        Types::U8(program[j])
    } else if t == 0x0D {
        *pc = j + 1;
        Types::Type(program[j])
    } else if t == 0x02 || t == 0x06 || t == 0x09 {
        proof { lemma_seq2(p, j as int); }
        let w = read_be(program.as_slice(), j, 2) as u16;
        *pc = j + 2;
        if t == 0x02 {
            Types::I16(w as i16)
        } else if t == 0x06 {
            Types::U16(w)
        } else {
            Types::F16(w)
        }
    } else if t == 0x03 || t == 0x07 || t == 0x0A {
        proof { lemma_seq4(p, j as int); }
        let w = read_be(program.as_slice(), j, 4) as u32;
        *pc = j + 4;
        if t == 0x03 {
            Types::I32(w as i32)
        } else if t == 0x07 {
            Types::U32(w)
        } else {
            Types::F32(w)
        }
    } else if t == 0x04 || t == 0x08 || t == 0x0B {
        proof { lemma_seq8(p, j as int); }
        let w = read_be(program.as_slice(), j, 8);
        *pc = j + 8;
        if t == 0x04 {
            Types::I64(w as i64)
        } else if t == 0x08 {
            Types::U64(w)
        } else {
            Types::F64(w)
        }
    } else {
        *pc = j;
        let r = parse_bytecode_string(program.as_slice(), pc);
        proof {
            assert(p.subrange(j + 1, j + 1 + p[j as int]) =~= crate::parse_scope::bytecode_string_bytes(p, j as int));
        }
        match r {
            Ok(s) => Types::Function(s),
            Err(_) => {
                assert(false);
                Types::Void(0)
            },
        }
    }
}

/// The zero value of a type byte.
pub open spec fn zero_of(t: u8) -> TypesV {
    if t == 0x00 {
        TypesV::Void(0)
    } else if t == 0x01 {
        TypesV::I8(0)
    } else if t == 0x02 {
        TypesV::I16(0)
    } else if t == 0x03 {
        TypesV::I32(0)
    } else if t == 0x04 {
        TypesV::I64(0)
    } else if t == 0x05 {
        TypesV::U8(0)
    } else if t == 0x06 {
        TypesV::U16(0)
    } else if t == 0x07 {
        TypesV::U32(0)
    } else if t == 0x08 {
        TypesV::U64(0)
    } else if t == 0x09 {
        TypesV::F16(0)
    } else if t == 0x0A {
        TypesV::F32(0)
    } else if t == 0x0B {
        TypesV::F64(0)
    } else if t == 0x0C {
        TypesV::Pointer(0)
    } else if t == 0x0D {
        TypesV::Type(0)
    } else if t == 0x0E {
        TypesV::Struct(0)
    } else {
        TypesV::Function(Seq::empty())
    }
}

/// The zero value of the type that a type byte `0x00..=0x0F` names.
pub fn from_type(t: u8) -> (res: Types)
    requires
        t <= 0x0F,
    ensures
        res@ == zero_of(t),
{
    match t {
        0x00 => Types::Void(0),
        0x01 => Types::I8(0),
        0x02 => Types::I16(0),
        0x03 => Types::I32(0),
        0x04 => Types::I64(0),
        0x05 => Types::U8(0),
        0x06 => Types::U16(0),
        0x07 => Types::U32(0),
        0x08 => Types::U64(0),
        0x09 => Types::F16(0),
        0x0A => Types::F32(0),
        0x0B => Types::F64(0),
        0x0C => Types::Pointer(0),
        0x0D => Types::Type(0),
        0x0E => Types::Struct(0),
        _ => {
            let s = String::new();
            Types::Function(s)
        },
    }
}

/// The number kinds: the integer kinds and the float kinds.
pub open spec fn is_numeric(v: TypesV) -> bool {
    match v {
        TypesV::Void(_) | TypesV::Pointer(_) | TypesV::Type(_) | TypesV::Struct(_) | TypesV::Function(_) => false,
        _ => true,
    }
}

/// The right operand of an operation on `a`, converted to `a`'s type as `as`
/// converts it.
pub open spec fn operand_as(b: TypesV, a: TypesV) -> int {
    if is_integral(b) {
        int_value(int_to(int_value(b), code_of(a)))
    } else {
        int_value(float_to(f64_bits_of(b), code_of(a)))
    }
}

/// The operations `add`, `sub`, `mul` and `div` are defined on: numbers, an
/// f16 right operand only with an f16 left one, and no integer division by a
/// right operand that converts to zero.
pub open spec fn arith_ok(op: MathOp, a: TypesV, b: TypesV) -> bool {
    &&& is_numeric(a)
    &&& is_numeric(b)
    &&& !(op is Rem)
    &&& (b is F16 ==> a is F16)
    &&& (op is Div && is_integral(a) ==> operand_as(b, a) != 0)
}

/// The outcome of an operation on typed values: a value, or an operation on a
/// float left operand, which the caller computes.
pub enum TypesArith {
    Done(Types),
    Float(MathOp, Types, Types),
}

pub enum TypesArithV {
    Done(TypesV),
    Float(MathOp, TypesV, TypesV),
}

impl View for TypesArith {
    type V = TypesArithV;

    open spec fn view(&self) -> TypesArithV {
        match self {
            TypesArith::Done(v) => TypesArithV::Done(v@),
            TypesArith::Float(op, a, b) => TypesArithV::Float(*op, a@, b@),
        }
    }
}

/// An operation on typed values: the right operand is converted to the left
/// one's type and the operation wraps in that type; on a float left operand
/// the operation is handed back.
pub open spec fn types_arith_v(op: MathOp, a: TypesV, b: TypesV) -> TypesArithV {
    if is_float(a) {
        TypesArithV::Float(op, a, b)
    } else {
        TypesArithV::Done(int_to(int_op(op, int_value(a), operand_as(b, a)), code_of(a)))
    }
}

/// A copy of a number.
fn copy_number(v: &Types) -> (r: Types)
    requires
        is_numeric(v@),
    ensures
        r@ == v@,
{
    match v {
        Types::I8(x) => Types::I8(*x),
        Types::I16(x) => Types::I16(*x),
        Types::I32(x) => Types::I32(*x),
        Types::I64(x) => Types::I64(*x),
        Types::U8(x) => Types::U8(*x),
        Types::U16(x) => Types::U16(*x),
        Types::U32(x) => Types::U32(*x),
        Types::U64(x) => Types::U64(*x),
        Types::F16(x) => Types::F16(*x),
        Types::F32(x) => Types::F32(*x),
        Types::F64(x) => Types::F64(*x),
        _ => Types::Void(0),
    }
}

proof fn lemma_product_bound(x: int, y: int)
    requires
        -0x8000_0000_0000_0000 <= x <= 0x8000_0000_0000_0000,
        -0x8000_0000_0000_0000 <= y <= 0x8000_0000_0000_0000,
    ensures
        -0x4000_0000_0000_0000_0000_0000_0000_0000 <= x * y <= 0x4000_0000_0000_0000_0000_0000_0000_0000,
{
    assert(-0x4000_0000_0000_0000_0000_0000_0000_0000 <= x * y <= 0x4000_0000_0000_0000_0000_0000_0000_0000)
        by (nonlinear_arith)
        requires
            -0x8000_0000_0000_0000 <= x <= 0x8000_0000_0000_0000,
            -0x8000_0000_0000_0000 <= y <= 0x8000_0000_0000_0000;
}

/// `x op y` wrapped into the integer type with code `t`.
fn wrap_op(op: MathOp, x: i128, y: i128, t: u8) -> (r: Types)
    requires
        0x01 <= t <= 0x08,
        in_range(x as int, t),
        in_range(y as int, t),
        !(op is Rem),
        op is Div ==> y != 0,
    ensures
        r@ == int_to(int_op(op, x as int, y as int), t),
{
    match op {
        MathOp::Add => int_to_exec(x + y, t),
        MathOp::Sub => int_to_exec(x - y, t),
        MathOp::Mul => {
            if t == 0x08 {
                let (ux, uy) = (x as u128, y as u128);
                assert(ux * uy <= 0xFFFF_FFFF_FFFF_FFFF * 0xFFFF_FFFF_FFFF_FFFF) by (nonlinear_arith)
                    requires ux <= 0xFFFF_FFFF_FFFF_FFFF, uy <= 0xFFFF_FFFF_FFFF_FFFF;
                let p: u128 = ux * uy;
                Types::U64(p as u64)
            } else {
                proof { lemma_product_bound(x as int, y as int); }
                int_to_exec(x * y, t)
            }
        },
        _ => {
            let mx: u128 = if x < 0 { (-x) as u128 } else { x as u128 };
            let my: u128 = if y < 0 { (-y) as u128 } else { y as u128 };
            let q: u128 = mx / my;
            assert(q <= mx) by (nonlinear_arith)
                requires q == mx / my, my > 0;
            let qi: i128 = q as i128;
            if (x < 0) != (y < 0) {
                int_to_exec(-qi, t)
            } else {
                int_to_exec(qi, t)
            }
        },
    }
}

/// An operation on typed values, as `types_arith_v` says.
fn types_arith(op: MathOp, a: &Types, b: &Types) -> (r: TypesArith)
    requires
        arith_ok(op, a@, b@),
    ensures
        r@ == types_arith_v(op, a@, b@),
{
    let t = code_of_exec(a);
    match a {
        Types::F16(_) | Types::F32(_) | Types::F64(_) => {
            return TypesArith::Float(op, copy_number(a), copy_number(b));
        },
        _ => {},
    }
    let x = wide_int(a);
    let yv = match b {
        Types::F16(h) => float_to_exec(f16_bits_to_f64(*h), t),
        Types::F32(f) => float_to_exec(f32_bits_to_f64(*f), t),
        Types::F64(f) => float_to_exec(*f, t),
        _ => int_to_exec(wide_int(b), t),
    };
    let y = wide_int(&yv);
    TypesArith::Done(wrap_op(op, x, y, t))
}

/// `a + b` on typed values.
pub fn add(a: &Types, b: &Types) -> (r: TypesArith)
    requires
        arith_ok(MathOp::Add, a@, b@),
    ensures
        r@ == types_arith_v(MathOp::Add, a@, b@),
{
    types_arith(MathOp::Add, a, b)
}

/// `a - b` on typed values.
pub fn sub(a: &Types, b: &Types) -> (r: TypesArith)
    requires
        arith_ok(MathOp::Sub, a@, b@),
    ensures
        r@ == types_arith_v(MathOp::Sub, a@, b@),
{
    types_arith(MathOp::Sub, a, b)
}

/// `a * b` on typed values.
pub fn mul(a: &Types, b: &Types) -> (r: TypesArith)
    requires
        arith_ok(MathOp::Mul, a@, b@),
    ensures
        r@ == types_arith_v(MathOp::Mul, a@, b@),
{
    types_arith(MathOp::Mul, a, b)
}

/// `a / b` on typed values.
pub fn div(a: &Types, b: &Types) -> (r: TypesArith)
    requires
        arith_ok(MathOp::Div, a@, b@),
    ensures
        r@ == types_arith_v(MathOp::Div, a@, b@),
{
    types_arith(MathOp::Div, a, b)
}

/// For integers of one kind, subtracting a number after adding it gives back
/// the first value: the operations wrap in the same type.
pub proof fn lemma_add_then_sub(a: TypesV, b: TypesV)
    requires
        is_numeric(a),
        is_integral(a),
        code_of(b) == code_of(a),
    ensures
        types_arith_v(MathOp::Add, a, b) matches TypesArithV::Done(s)
            && types_arith_v(MathOp::Sub, s, b) == TypesArithV::Done(a),
{
    match (a, b) {
        (TypesV::I8(x), TypesV::I8(y)) => {
            assert((((x + y) as i8) - y) as i8 == x) by (bit_vector);
        },
        (TypesV::I16(x), TypesV::I16(y)) => {
            assert((((x + y) as i16) - y) as i16 == x) by (bit_vector);
        },
        (TypesV::I32(x), TypesV::I32(y)) => {
            assert((((x + y) as i32) - y) as i32 == x) by (bit_vector);
        },
        (TypesV::I64(x), TypesV::I64(y)) => {
            assert((((x + y) as i64) - y) as i64 == x) by (bit_vector);
        },
        (TypesV::U8(x), TypesV::U8(y)) => {
            assert((((x + y) as u8) - y) as u8 == x) by (bit_vector);
        },
        (TypesV::U16(x), TypesV::U16(y)) => {
            assert((((x + y) as u16) - y) as u16 == x) by (bit_vector);
        },
        (TypesV::U32(x), TypesV::U32(y)) => {
            assert((((x + y) as u32) - y) as u32 == x) by (bit_vector);
        },
        (TypesV::U64(x), TypesV::U64(y)) => {
            assert((((x + y) as u64) - y) as u64 == x) by (bit_vector);
        },
        _ => {},
    }
}

} // verus!
