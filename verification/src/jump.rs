//! Jumps of the flat bytecode: unconditional, and conditional on how two typed
//! values compare.
use vstd::prelude::*;
use vstd::string::StrSliceExecFns;
use crate::types::{Types, TypesV, imm_ok, imm_at, parse_imm};
use crate::float::{f16_widen, f32_widen, f64_as_usize, f64_is_nan, f64_lt, f64_eq,
    f16_bits_to_f64, f32_bits_to_f64, f64_to_usize, f64_nan, f64_less, f64_equal};

verus! {

/// The position of a variant in the declaration of `Types`.
pub open spec fn variant_index(v: TypesV) -> int {
    match v {
        TypesV::Void(_) => 0,
        TypesV::I8(_) => 1,
        TypesV::I16(_) => 2,
        TypesV::I32(_) => 3,
        TypesV::I64(_) => 4,
        TypesV::U8(_) => 5,
        TypesV::U16(_) => 6,
        TypesV::U32(_) => 7,
        TypesV::U64(_) => 8,
        TypesV::F16(_) => 9,
        TypesV::F32(_) => 10,
        TypesV::F64(_) => 11,
        TypesV::Pointer(_) => 12,
        TypesV::Type(_) => 13,
        TypesV::Struct(_) => 14,
        TypesV::Function(_) => 15,
    }
}

/// `-1`, `0` or `1` as `x` is below, equal to or above `y`.
pub open spec fn num_rel(x: int, y: int) -> int {
    if x < y {
        -1
    } else if x == y {
        0
    } else {
        1
    }
}

/// How two f64s compare; `None` when either is a NaN.
pub open spec fn float_rel(x: u64, y: u64) -> Option<int> {
    if f64_is_nan(x) || f64_is_nan(y) {
        None
    } else if f64_lt(x, y) {
        Some(-1)
    } else if f64_eq(x, y) {
        Some(0)
    } else {
        Some(1)
    }
}

/// Lexicographic comparison of two strings by code point.
pub open spec fn chars_rel(a: Seq<char>, b: Seq<char>) -> int
    decreases a.len(),
{
    if a.len() == 0 {
        if b.len() == 0 { 0 } else { -1 }
    } else if b.len() == 0 {
        1
    } else if (a[0] as u32) < (b[0] as u32) {
        -1
    } else if (a[0] as u32) > (b[0] as u32) {
        1
    } else {
        chars_rel(a.drop_first(), b.drop_first())
    }
}

/// How two typed values compare: first by variant, then by content; floats
/// by value (`None` when a NaN is involved), function names lexicographically.
pub open spec fn types_rel(a: TypesV, b: TypesV) -> Option<int> {
    if variant_index(a) != variant_index(b) {
        Some(num_rel(variant_index(a), variant_index(b)))
    } else {
        match (a, b) {
            (TypesV::Void(x), TypesV::Void(y)) => Some(num_rel(x as int, y as int)),
            (TypesV::I8(x), TypesV::I8(y)) => Some(num_rel(x as int, y as int)),
            (TypesV::I16(x), TypesV::I16(y)) => Some(num_rel(x as int, y as int)),
            (TypesV::I32(x), TypesV::I32(y)) => Some(num_rel(x as int, y as int)),
            (TypesV::I64(x), TypesV::I64(y)) => Some(num_rel(x as int, y as int)),
            (TypesV::U8(x), TypesV::U8(y)) => Some(num_rel(x as int, y as int)),
            (TypesV::U16(x), TypesV::U16(y)) => Some(num_rel(x as int, y as int)),
            (TypesV::U32(x), TypesV::U32(y)) => Some(num_rel(x as int, y as int)),
            (TypesV::U64(x), TypesV::U64(y)) => Some(num_rel(x as int, y as int)),
            (TypesV::F16(x), TypesV::F16(y)) => float_rel(f16_widen(x), f16_widen(y)),
            (TypesV::F32(x), TypesV::F32(y)) => float_rel(f32_widen(x), f32_widen(y)),
            (TypesV::F64(x), TypesV::F64(y)) => float_rel(x, y),
            (TypesV::Pointer(x), TypesV::Pointer(y)) => Some(num_rel(x as int, y as int)),
            (TypesV::Type(x), TypesV::Type(y)) => Some(num_rel(x as int, y as int)),
            (TypesV::Struct(x), TypesV::Struct(y)) => Some(num_rel(x as int, y as int)),
            (TypesV::Function(x), TypesV::Function(y)) => Some(chars_rel(x, y)),
            _ => None,
        }
    }
}

/// Whether `r` reports the comparison `c`.
pub open spec fn order_is(r: Option<i8>, c: Option<int>) -> bool {
    match r {
        Some(x) => c == Some(x as int),
        None => c is None,
    }
}

fn order_int(x: i128, y: i128) -> (r: i8)
    ensures
        r as int == num_rel(x as int, y as int),
{
    if x < y {
        -1
    } else if x == y {
        0
    } else {
        1
    }
}

fn order_float(x: u64, y: u64) -> (r: Option<i8>)
    ensures
        order_is(r, float_rel(x, y)),
{
    if f64_nan(x) || f64_nan(y) {
        None
    } else if f64_less(x, y) {
        Some(-1)
    } else if f64_equal(x, y) {
        Some(0)
    } else {
        Some(1)
    }
}

proof fn lemma_skip_first(a: Seq<char>, i: int)
    requires
        0 <= i < a.len(),
    ensures
        a.skip(i).drop_first() == a.skip(i + 1),
        a.skip(i)[0] == a[i],
{
    assert(a.skip(i).drop_first() =~= a.skip(i + 1));
}

fn order_str(a: &String, b: &String) -> (r: i8)
    ensures
        r as int == chars_rel(a@, b@),
{
    let sa = a.as_str();
    let sb = b.as_str();
    let la = sa.unicode_len();
    let lb = sb.unicode_len();
    let mut i: usize = 0;
    proof {
        assert(a@.skip(0) =~= a@);
        assert(b@.skip(0) =~= b@);
    }
    while i < la && i < lb
        invariant
            i <= la,
            i <= lb,
            la == sa@.len(),
            lb == sb@.len(),
            sa@ == a@,
            sb@ == b@,
            chars_rel(a@, b@) == chars_rel(a@.skip(i as int), b@.skip(i as int)),
        decreases la - i,
    {
        let ca = sa.get_char(i);
        let cb = sb.get_char(i);
        proof {
            lemma_skip_first(a@, i as int);
            lemma_skip_first(b@, i as int);
        }
        if (ca as u32) < (cb as u32) {
            return -1;
        }
        if (ca as u32) > (cb as u32) {
            return 1;
        }
        i = i + 1;
    }
    if i == la && i == lb {
        0
    } else if i == la {
        -1
    } else {
        1
    }
}

/// The position of a value's variant, as `variant_index` gives it.
fn variant_of(v: &Types) -> (r: u8)
    ensures
        r as int == variant_index(v@),
{
    match v {
        Types::Void(_) => 0,
        Types::I8(_) => 1,
        Types::I16(_) => 2,
        Types::I32(_) => 3,
        Types::I64(_) => 4,
        Types::U8(_) => 5,
        Types::U16(_) => 6,
        Types::U32(_) => 7,
        Types::U64(_) => 8,
        Types::F16(_) => 9,
        Types::F32(_) => 10,
        Types::F64(_) => 11,
        Types::Pointer(_) => 12,
        Types::Type(_) => 13,
        Types::Struct(_) => 14,
        Types::Function(_) => 15,
    }
}

/// Compares two typed values as `types_rel` says: `Some(-1)`, `Some(0)` or
/// `Some(1)`, or `None` when they are unordered.
pub fn types_compare(a: &Types, b: &Types) -> (r: Option<i8>)
    ensures
        order_is(r, types_rel(a@, b@)),
{
    let ia = variant_of(a);
    let ib = variant_of(b);
    if ia != ib {
        return Some(order_int(ia as i128, ib as i128));
    }
    match (a, b) {
        (Types::Void(x), Types::Void(y)) => Some(order_int(*x as i128, *y as i128)),
        (Types::I8(x), Types::I8(y)) => Some(order_int(*x as i128, *y as i128)),
        (Types::I16(x), Types::I16(y)) => Some(order_int(*x as i128, *y as i128)),
        (Types::I32(x), Types::I32(y)) => Some(order_int(*x as i128, *y as i128)),
        (Types::I64(x), Types::I64(y)) => Some(order_int(*x as i128, *y as i128)),
        (Types::U8(x), Types::U8(y)) => Some(order_int(*x as i128, *y as i128)),
        (Types::U16(x), Types::U16(y)) => Some(order_int(*x as i128, *y as i128)),
        (Types::U32(x), Types::U32(y)) => Some(order_int(*x as i128, *y as i128)),
        (Types::U64(x), Types::U64(y)) => Some(order_int(*x as i128, *y as i128)),
        (Types::F16(x), Types::F16(y)) => order_float(f16_bits_to_f64(*x), f16_bits_to_f64(*y)),
        (Types::F32(x), Types::F32(y)) => order_float(f32_bits_to_f64(*x), f32_bits_to_f64(*y)),
        (Types::F64(x), Types::F64(y)) => order_float(*x, *y),
        (Types::Pointer(x), Types::Pointer(y)) => Some(order_int(*x as i128, *y as i128)),
        (Types::Type(x), Types::Type(y)) => Some(order_int(*x as i128, *y as i128)),
        (Types::Struct(x), Types::Struct(y)) => Some(order_int(*x as i128, *y as i128)),
        (Types::Function(x), Types::Function(y)) => Some(order_str(x, y)),
        _ => {
            assert(false);
            None
        },
    }
}

/// Whether a value can be a jump address: an integer or a float.
pub open spec fn jumpable(v: TypesV) -> bool {
    1 <= variant_index(v) <= 11
}

/// The address a jump to `v` goes to: the integer cast to `usize` as `as`
/// does, or the float's integer part, saturated.
pub open spec fn jump_target(v: TypesV) -> usize {
    match v {
        TypesV::I8(x) => x as usize,
        TypesV::I16(x) => x as usize,
        TypesV::I32(x) => x as usize,
        TypesV::I64(x) => x as usize,
        TypesV::U8(x) => x as usize,
        TypesV::U16(x) => x as usize,
        TypesV::U32(x) => x as usize,
        TypesV::U64(x) => x as usize,
        TypesV::F16(x) => f64_as_usize(f16_widen(x)),
        TypesV::F32(x) => f64_as_usize(f32_widen(x)),
        TypesV::F64(x) => f64_as_usize(x),
        _ => 0,
    }
}

/// Sets `pc` to the address that `value` holds.
pub fn jmp(value: Types, pc: &mut usize)
    requires
        jumpable(value@),
    ensures
        *final(pc) == jump_target(value@),
{
    match value {
        Types::I8(v) => *pc = v as usize,
        Types::I16(v) => *pc = v as usize,
        Types::I32(v) => *pc = v as usize,
        Types::I64(v) => *pc = v as usize,
        Types::U8(v) => *pc = v as usize,
        Types::U16(v) => *pc = v as usize,
        Types::U32(v) => *pc = v as usize,
        Types::U64(v) => *pc = v as usize,
        Types::F16(v) => *pc = f64_to_usize(f16_bits_to_f64(v)),
        Types::F32(v) => *pc = f64_to_usize(f32_bits_to_f64(v)),
        Types::F64(v) => *pc = f64_to_usize(v),
        _ => {
            assert(false);
        },
    }
}

/// The six conditions: `0` not equal, `1` equal, `2` at least, `3` above,
/// `4` at most, `5` below.
pub open spec fn cond_holds(kind: u8, c: Option<int>) -> bool {
    if kind == 0 {
        c != Some(0int)
    } else if kind == 1 {
        c == Some(0int)
    } else if kind == 2 {
        c == Some(0int) || c == Some(1int)
    } else if kind == 3 {
        c == Some(1int)
    } else if kind == 4 {
        c == Some(0int) || c == Some(-1int)
    } else {
        c == Some(-1int)
    }
}

fn cond_test(kind: u8, val1: &Types, val2: &Types) -> (r: bool)
    requires
        kind <= 5,
    ensures
        r == cond_holds(kind, types_rel(val1@, val2@)),
{
    let c = types_compare(val1, val2);
    match c {
        Some(x) => {
            if kind == 0 {
                x != 0
            } else if kind == 1 {
                x == 0
            } else if kind == 2 {
                x == 0 || x == 1
            } else if kind == 3 {
                x == 1
            } else if kind == 4 {
                x == 0 || x == -1
            } else {
                x == -1
            }
        },
        None => kind == 0,
    }
}

fn jump_if(kind: u8, val1: Types, val2: Types, addr: Types, pc: &mut usize)
    requires
        kind <= 5,
        cond_holds(kind, types_rel(val1@, val2@)) ==> jumpable(addr@),
    ensures
        *final(pc) == if cond_holds(kind, types_rel(val1@, val2@)) { jump_target(addr@) } else { *old(pc) },
{
    if cond_test(kind, &val1, &val2) {
        jmp(addr, pc);
    }
}

/// Jumps to `addr` when the two values differ.
pub fn jne(val1: Types, val2: Types, addr: Types, pc: &mut usize)
    requires
        cond_holds(0, types_rel(val1@, val2@)) ==> jumpable(addr@),
    ensures
        *final(pc) == if cond_holds(0, types_rel(val1@, val2@)) { jump_target(addr@) } else { *old(pc) },
{
    jump_if(0, val1, val2, addr, pc)
}

/// Jumps to `addr` when the two values are equal.
pub fn je(val1: Types, val2: Types, addr: Types, pc: &mut usize)
    requires
        cond_holds(1, types_rel(val1@, val2@)) ==> jumpable(addr@),
    ensures
        *final(pc) == if cond_holds(1, types_rel(val1@, val2@)) { jump_target(addr@) } else { *old(pc) },
{
    jump_if(1, val1, val2, addr, pc)
}

/// Jumps to `addr` when the first value is at least the second.
pub fn jge(val1: Types, val2: Types, addr: Types, pc: &mut usize)
    requires
        cond_holds(2, types_rel(val1@, val2@)) ==> jumpable(addr@),
    ensures
        *final(pc) == if cond_holds(2, types_rel(val1@, val2@)) { jump_target(addr@) } else { *old(pc) },
{
    jump_if(2, val1, val2, addr, pc)
}

/// Jumps to `addr` when the first value is above the second.
pub fn jg(val1: Types, val2: Types, addr: Types, pc: &mut usize)
    requires
        cond_holds(3, types_rel(val1@, val2@)) ==> jumpable(addr@),
    ensures
        *final(pc) == if cond_holds(3, types_rel(val1@, val2@)) { jump_target(addr@) } else { *old(pc) },
{
    jump_if(3, val1, val2, addr, pc)
}

/// Jumps to `addr` when the first value is at most the second.
pub fn jle(val1: Types, val2: Types, addr: Types, pc: &mut usize)
    requires
        cond_holds(4, types_rel(val1@, val2@)) ==> jumpable(addr@),
    ensures
        *final(pc) == if cond_holds(4, types_rel(val1@, val2@)) { jump_target(addr@) } else { *old(pc) },
{
    jump_if(4, val1, val2, addr, pc)
}

/// Jumps to `addr` when the first value is below the second.
pub fn jl(val1: Types, val2: Types, addr: Types, pc: &mut usize)
    requires
        cond_holds(5, types_rel(val1@, val2@)) ==> jumpable(addr@),
    ensures
        *final(pc) == if cond_holds(5, types_rel(val1@, val2@)) { jump_target(addr@) } else { *old(pc) },
{
    jump_if(5, val1, val2, addr, pc)
}

/// Reads an immediate address at `pc` and jumps to it.
pub fn jmp_imm(program: &Vec<u8>, pc: &mut usize)
    requires
        imm_ok(program@, *old(pc) as int),
        0x01 <= program@[*old(pc) as int] <= 0x0B,
    ensures
        *final(pc) == jump_target(imm_at(program@, *old(pc) as int).0),
{
    let value = parse_imm(program, pc);
    assert(jumpable(value@));
    jmp(value, pc);
}

/// The position after the immediate at `i`.
pub open spec fn imm_next(p: Seq<u8>, i: int) -> int {
    imm_at(p, i).1
}

/// Whether a conditional jump with three immediates can run at `i`: all three
/// read, and the address is a number whenever the condition holds.
pub open spec fn jump_imms_ok(p: Seq<u8>, i: int, kind: u8) -> bool {
    let i1 = imm_next(p, i);
    let i2 = imm_next(p, i1);
    &&& imm_ok(p, i)
    &&& imm_ok(p, i1)
    &&& imm_ok(p, i2)
    &&& cond_holds(kind, types_rel(imm_at(p, i).0, imm_at(p, i1).0)) ==> 0x01 <= p[i2] <= 0x0B
}

/// Where a conditional jump with three immediates at `i` leaves `pc`: the
/// address when the condition holds, else the position after the third
/// immediate.
pub open spec fn jump_imms_result(p: Seq<u8>, i: int, kind: u8) -> int {
    let i1 = imm_next(p, i);
    let i2 = imm_next(p, i1);
    if cond_holds(kind, types_rel(imm_at(p, i).0, imm_at(p, i1).0)) {
        jump_target(imm_at(p, i2).0) as int
    } else {
        imm_next(p, i2)
    }
}

fn jump_if_imms(kind: u8, program: &Vec<u8>, pc: &mut usize)
    requires
        kind <= 5,
        jump_imms_ok(program@, *old(pc) as int, kind),
    ensures
        *final(pc) as int == jump_imms_result(program@, *old(pc) as int, kind),
{
    let ghost p = program@;
    let ghost i = *pc as int;
    let val1 = parse_imm(program, pc);
    let ghost i1 = *pc as int;
    let val2 = parse_imm(program, pc);
    let ghost i2 = *pc as int;
    let addr = parse_imm(program, pc);
    let ghost i3 = *pc as int;
    proof {
        if cond_holds(kind, types_rel(val1@, val2@)) {
            assert(jumpable(addr@));
        }
    }
    jump_if(kind, val1, val2, addr, pc);
}

/// Reads two values and an address as immediates and jumps when the values differ.
pub fn jne_imm_imm_imm(program: &Vec<u8>, pc: &mut usize)
    requires
        jump_imms_ok(program@, *old(pc) as int, 0),
    ensures
        *final(pc) as int == jump_imms_result(program@, *old(pc) as int, 0),
{
    jump_if_imms(0, program, pc)
}

/// Reads two values and an address as immediates and jumps when the values are equal.
pub fn je_imm_imm_imm(program: &Vec<u8>, pc: &mut usize)
    requires
        jump_imms_ok(program@, *old(pc) as int, 1),
    ensures
        *final(pc) as int == jump_imms_result(program@, *old(pc) as int, 1),
{
    jump_if_imms(1, program, pc)
}

/// Reads two values and an address as immediates and jumps when the first is at least the second.
pub fn jge_imm_imm_imm(program: &Vec<u8>, pc: &mut usize)
    requires
        jump_imms_ok(program@, *old(pc) as int, 2),
    ensures
        *final(pc) as int == jump_imms_result(program@, *old(pc) as int, 2),
{
    jump_if_imms(2, program, pc)
}

/// Reads two values and an address as immediates and jumps when the first is above the second.
pub fn jg_imm_imm_imm(program: &Vec<u8>, pc: &mut usize)
    requires
        jump_imms_ok(program@, *old(pc) as int, 3),
    ensures
        *final(pc) as int == jump_imms_result(program@, *old(pc) as int, 3),
{
    jump_if_imms(3, program, pc)
}

/// Reads two values and an address as immediates and jumps when the first is at most the second.
pub fn jle_imm_imm_imm(program: &Vec<u8>, pc: &mut usize)
    requires
        jump_imms_ok(program@, *old(pc) as int, 4),
    ensures
        *final(pc) as int == jump_imms_result(program@, *old(pc) as int, 4),
{
    jump_if_imms(4, program, pc)
}

/// Reads two values and an address as immediates and jumps when the first is below the second.
pub fn jl_imm_imm_imm(program: &Vec<u8>, pc: &mut usize)
    requires
        jump_imms_ok(program@, *old(pc) as int, 5),
    ensures
        *final(pc) as int == jump_imms_result(program@, *old(pc) as int, 5),
{
    jump_if_imms(5, program, pc)
}

} // verus!
