//! Converting a typed value to another type, as `as` converts between Rust's
//! number types. Floats are held by their bit patterns; the conversions that
//! round to a float are handed back to the caller.
use vstd::prelude::*;
use crate::types::{Types, TypesV};
use crate::float::{f16_widen, f32_widen, f64_as_i64, f64_as_u64, f16_bits_to_f64, f32_bits_to_f64, f64_to_i64, f64_to_u64, f64_from_int, i64_to_f64, u64_to_f64};

verus! {

/// Values that hold an integer: void, the integer kinds, pointers and types.
pub open spec fn is_integral(v: TypesV) -> bool {
    match v {
        TypesV::F16(_) | TypesV::F32(_) | TypesV::F64(_) | TypesV::Struct(_) | TypesV::Function(_) => false,
        _ => true,
    }
}

/// Values that hold a float.
pub open spec fn is_float(v: TypesV) -> bool {
    v is F16 || v is F32 || v is F64
}

/// The integer an integral value holds.
pub open spec fn int_value(v: TypesV) -> int {
    match v {
        TypesV::Void(x) => x as int,
        TypesV::I8(x) => x as int,
        TypesV::I16(x) => x as int,
        TypesV::I32(x) => x as int,
        TypesV::I64(x) => x as int,
        TypesV::U8(x) => x as int,
        TypesV::U16(x) => x as int,
        TypesV::U32(x) => x as int,
        TypesV::U64(x) => x as int,
        TypesV::Pointer(x) => x as int,
        TypesV::Type(x) => x as int,
        _ => 0,
    }
}

/// The f64 bit pattern of the value a float holds, widened exactly.
pub open spec fn f64_bits_of(v: TypesV) -> u64 {
    match v {
        TypesV::F16(h) => f16_widen(h),
        TypesV::F32(b) => f32_widen(b),
        TypesV::F64(b) => b,
        _ => 0,
    }
}

/// Type codes whose values hold an integer.
pub open spec fn integral_target(t: u8) -> bool {
    t <= 0x08 || t == 0x0C || t == 0x0D
}

/// `x as T`, with `T` given by its type code: the integer wrapped into `T`'s
/// range.
pub open spec fn int_to(x: int, t: u8) -> TypesV {
    if t == 0x00 {
        TypesV::Void(x as u8)
    } else if t == 0x01 {
        TypesV::I8(x as i8)
    } else if t == 0x02 {
        TypesV::I16(x as i16)
    } else if t == 0x03 {
        TypesV::I32(x as i32)
    } else if t == 0x04 {
        TypesV::I64(x as i64)
    } else if t == 0x05 {
        TypesV::U8(x as u8)
    } else if t == 0x06 {
        TypesV::U16(x as u16)
    } else if t == 0x07 {
        TypesV::U32(x as u32)
    } else if t == 0x08 {
        TypesV::U64(x as u64)
    } else if t == 0x0C {
        TypesV::Pointer(x as u64)
    } else {
        TypesV::Type(x as u8)
    }
}

/// `x` lies in the range of the integer type with code `t` (`0x01..=0x08`).
pub open spec fn in_range(x: int, t: u8) -> bool {
    if t == 0x01 {
        -0x80 <= x <= 0x7F
    } else if t == 0x02 {
        -0x8000 <= x <= 0x7FFF
    } else if t == 0x03 {
        -0x8000_0000 <= x <= 0x7FFF_FFFF
    } else if t == 0x04 {
        -0x8000_0000_0000_0000 <= x <= 0x7FFF_FFFF_FFFF_FFFF
    } else if t == 0x05 {
        0 <= x <= 0xFF
    } else if t == 0x06 {
        0 <= x <= 0xFFFF
    } else if t == 0x07 {
        0 <= x <= 0xFFFF_FFFF
    } else if t == 0x08 {
        0 <= x <= 0xFFFF_FFFF_FFFF_FFFF
    } else {
        false
    }
}

/// `x` held within `lo..=hi`.
pub open spec fn clamp(x: int, lo: int, hi: int) -> int {
    if x < lo {
        lo
    } else if x > hi {
        hi
    } else {
        x
    }
}

/// `f as T` for the f64 with bit pattern `b`: the integer part saturated to
/// `T`'s range; a NaN gives 0.
pub open spec fn float_to(b: u64, t: u8) -> TypesV {
    let s = f64_as_i64(b) as int;
    let u = f64_as_u64(b) as int;
    if t == 0x01 {
        TypesV::I8(clamp(s, -0x80, 0x7F) as i8)
    } else if t == 0x02 {
        TypesV::I16(clamp(s, -0x8000, 0x7FFF) as i16)
    } else if t == 0x03 {
        TypesV::I32(clamp(s, -0x8000_0000, 0x7FFF_FFFF) as i32)
    } else if t == 0x04 {
        TypesV::I64(s as i64)
    } else if t == 0x00 || t == 0x05 || t == 0x0D {
        int_to(clamp(u, 0, 0xFF), t)
    } else if t == 0x06 {
        TypesV::U16(clamp(u, 0, 0xFFFF) as u16)
    } else if t == 0x07 {
        TypesV::U32(clamp(u, 0, 0xFFFF_FFFF) as u32)
    } else {
        int_to(u, t)
    }
}

/// The conversions `cast_type` is defined on: an integral or float value to a
/// type code up to `0x0D` (void through type).
pub open spec fn cast_supported(v: TypesV, t: u8) -> bool {
    (is_integral(v) || is_float(v)) && t <= 0x0D
}

/// What casting gives: a value, or a conversion to a float that rounds (or
/// goes through `f16`), which the caller computes.
pub enum Cast {
    Done(Types),
    Float(Types, u8),
}

pub enum CastV {
    Done(TypesV),
    Float(TypesV, u8),
}

impl View for Cast {
    type V = CastV;

    open spec fn view(&self) -> CastV {
        match self {
            Cast::Done(v) => CastV::Done(v@),
            Cast::Float(v, t) => CastV::Float(v@, *t),
        }
    }
}

/// What casting `v` to the type with code `t` gives. To an integral type an
/// integer wraps and a float truncates and saturates. To f64 an integer goes
/// to the nearest f64, a float to its own type is unchanged, and f16 and f32
/// widen exactly. Every other conversion to a float is handed back.
pub open spec fn cast_v(v: TypesV, t: u8) -> CastV {
    if integral_target(t) {
        if is_integral(v) {
            CastV::Done(int_to(int_value(v), t))
        } else {
            CastV::Done(float_to(f64_bits_of(v), t))
        }
    } else if t == 0x0B && is_integral(v) {
        CastV::Done(TypesV::F64(f64_from_int(int_value(v))))
    } else {
        match v {
            TypesV::F16(h) => if t == 0x09 {
                CastV::Done(TypesV::F16(h))
            } else if t == 0x0B {
                CastV::Done(TypesV::F64(f16_widen(h)))
            } else {
                CastV::Float(v, t)
            },
            TypesV::F32(b) => if t == 0x0A {
                CastV::Done(TypesV::F32(b))
            } else if t == 0x0B {
                CastV::Done(TypesV::F64(f32_widen(b)))
            } else {
                CastV::Float(v, t)
            },
            TypesV::F64(b) => if t == 0x0B {
                CastV::Done(TypesV::F64(b))
            } else {
                CastV::Float(v, t)
            },
            _ => CastV::Float(v, t),
        }
    }
}

/// The integer an integral value holds, widened to `i128`.
pub(crate) fn wide_int(v: &Types) -> (r: i128)
    requires
        is_integral(v@),
    ensures
        r as int == int_value(v@),
        0x01 <= code_of(v@) <= 0x08 ==> in_range(r as int, code_of(v@)),
{
    match v {
        Types::Void(x) => *x as i128,
        Types::I8(x) => *x as i128,
        Types::I16(x) => *x as i128,
        Types::I32(x) => *x as i128,
        Types::I64(x) => *x as i128,
        Types::U8(x) => *x as i128,
        Types::U16(x) => *x as i128,
        Types::U32(x) => *x as i128,
        Types::U64(x) => *x as i128,
        Types::Pointer(x) => *x as i128,
        Types::Type(x) => *x as i128,
        _ => 0,
    }
}

/// `x as T` for the type with code `t`.
pub(crate) fn int_to_exec(x: i128, t: u8) -> (r: Types)
    requires
        integral_target(t),
    ensures
        r@ == int_to(x as int, t),
{
    if t == 0x00 {
        Types::Void(x as u8)
    } else if t == 0x01 {
        Types::I8(x as i8)
    } else if t == 0x02 {
        Types::I16(x as i16)
    } else if t == 0x03 {
        Types::I32(x as i32)
    } else if t == 0x04 {
        Types::I64(x as i64)
    } else if t == 0x05 {
        Types::U8(x as u8)
    } else if t == 0x06 {
        Types::U16(x as u16)
    } else if t == 0x07 {
        Types::U32(x as u32)
    } else if t == 0x08 {
        Types::U64(x as u64)
    } else if t == 0x0C {
        Types::Pointer(x as u64)
    } else {
        Types::Type(x as u8)
    }
}

/// `x` held within `lo..=hi`.
fn clamp_exec(x: i128, lo: i128, hi: i128) -> (r: i128)
    ensures
        r as int == clamp(x as int, lo as int, hi as int),
{
    if x < lo {
        lo
    } else if x > hi {
        hi
    } else {
        x
    }
}

/// `f as T` for the f64 with bit pattern `b` and the integral type with code `t`.
pub(crate) fn float_to_exec(b: u64, t: u8) -> (r: Types)
    requires
        integral_target(t),
    ensures
        r@ == float_to(b, t),
{
    let s = f64_to_i64(b) as i128;
    let u = f64_to_u64(b) as i128;
    if t == 0x01 {
        int_to_exec(clamp_exec(s, -0x80, 0x7F), t)
    } else if t == 0x02 {
        int_to_exec(clamp_exec(s, -0x8000, 0x7FFF), t)
    } else if t == 0x03 {
        int_to_exec(clamp_exec(s, -0x8000_0000, 0x7FFF_FFFF), t)
    } else if t == 0x04 {
        int_to_exec(s, t)
    } else if t == 0x00 || t == 0x05 || t == 0x0D {
        int_to_exec(clamp_exec(u, 0, 0xFF), t)
    } else if t == 0x06 {
        int_to_exec(clamp_exec(u, 0, 0xFFFF), t)
    } else if t == 0x07 {
        int_to_exec(clamp_exec(u, 0, 0xFFFF_FFFF), t)
    } else {
        int_to_exec(u, t)
    }
}

/// Casts `val` to the type with code `t`, as `cast_v` says.
pub fn cast_type(val: Types, t: u8) -> (r: Cast)
    requires
        cast_supported(val@, t),
    ensures
        r@ == cast_v(val@, t),
{
    if t <= 0x08 || t == 0x0C || t == 0x0D {
        match val {
            Types::F16(h) => Cast::Done(float_to_exec(f16_bits_to_f64(h), t)),
            Types::F32(b) => Cast::Done(float_to_exec(f32_bits_to_f64(b), t)),
            Types::F64(b) => Cast::Done(float_to_exec(b, t)),
            _ => Cast::Done(int_to_exec(wide_int(&val), t)),
        }
    } else if t == 0x0B && !matches!(val, Types::F16(_) | Types::F32(_) | Types::F64(_)) {
        let x = wide_int(&val);
        if x < 0 {
            Cast::Done(Types::F64(i64_to_f64(x as i64)))
        } else {
            Cast::Done(Types::F64(u64_to_f64(x as u64)))
        }
    } else {
        match val {
            Types::F16(h) => if t == 0x09 {
                Cast::Done(Types::F16(h))
            } else if t == 0x0B {
                Cast::Done(Types::F64(f16_bits_to_f64(h)))
            } else {
                Cast::Float(Types::F16(h), t)
            },
            Types::F32(b) => if t == 0x0A {
                Cast::Done(Types::F32(b))
            } else if t == 0x0B {
                Cast::Done(Types::F64(f32_bits_to_f64(b)))
            } else {
                Cast::Float(Types::F32(b), t)
            },
            Types::F64(b) => if t == 0x0B {
                Cast::Done(Types::F64(b))
            } else {
                Cast::Float(Types::F64(b), t)
            },
            _ => Cast::Float(val, t),
        }
    }
}

/// The type code of the kind a value has.
pub open spec fn code_of(v: TypesV) -> u8 {
    match v {
        TypesV::Void(_) => 0x00,
        TypesV::I8(_) => 0x01,
        TypesV::I16(_) => 0x02,
        TypesV::I32(_) => 0x03,
        TypesV::I64(_) => 0x04,
        TypesV::U8(_) => 0x05,
        TypesV::U16(_) => 0x06,
        TypesV::U32(_) => 0x07,
        TypesV::U64(_) => 0x08,
        TypesV::F16(_) => 0x09,
        TypesV::F32(_) => 0x0A,
        TypesV::F64(_) => 0x0B,
        TypesV::Pointer(_) => 0x0C,
        TypesV::Type(_) => 0x0D,
        TypesV::Struct(_) => 0x0E,
        TypesV::Function(_) => 0x0F,
    }
}

/// The type code of the kind a value has.
pub(crate) fn code_of_exec(v: &Types) -> (r: u8)
    ensures
        r == code_of(v@),
{
    match v {
        Types::Void(_) => 0x00,
        Types::I8(_) => 0x01,
        Types::I16(_) => 0x02,
        Types::I32(_) => 0x03,
        Types::I64(_) => 0x04,
        Types::U8(_) => 0x05,
        Types::U16(_) => 0x06,
        Types::U32(_) => 0x07,
        Types::U64(_) => 0x08,
        Types::F16(_) => 0x09,
        Types::F32(_) => 0x0A,
        Types::F64(_) => 0x0B,
        Types::Pointer(_) => 0x0C,
        Types::Type(_) => 0x0D,
        Types::Struct(_) => 0x0E,
        Types::Function(_) => 0x0F,
    }
}

/// Casting a value to the type it already has gives it back unchanged.
pub proof fn lemma_cast_to_own_type(v: TypesV)
    requires
        is_integral(v) || is_float(v),
    ensures
        cast_v(v, code_of(v)) == CastV::Done(v),
{
}

/// Casting an integer to an integer type that can hold it, and back to its
/// own type, gives it back unchanged.
pub proof fn lemma_cast_round_trip(v: TypesV, t: u8)
    requires
        is_integral(v),
        0x01 <= code_of(v) <= 0x08,
        0x01 <= t <= 0x08,
        in_range(int_value(v), t),
    ensures
        cast_v(v, t) matches CastV::Done(w) && cast_v(w, code_of(v)) == CastV::Done(v),
{
}

} // verus!
