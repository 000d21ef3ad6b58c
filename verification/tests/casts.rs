use rainbow::cast::{cast_type, Cast};
use rainbow::types;
use rainbow::types::Types;
use rainbow::value::MathOp;

fn done(c: Cast) -> Types {
    match c {
        Cast::Done(v) => v,
        Cast::Float(_, _) => panic!("expected a computed cast"),
    }
}

#[test]
fn integers_wrap_like_as() {
    assert!(matches!(done(cast_type(Types::I32(-1), 0x05)), Types::U8(255)));
    assert!(matches!(done(cast_type(Types::U16(300), 0x01)), Types::I8(44)));
    assert!(matches!(done(cast_type(Types::I8(-2), 0x08)), Types::U64(x) if x == u64::MAX - 1));
    assert!(matches!(done(cast_type(Types::U64(0x1_0000_0001), 0x0C)), Types::Pointer(0x1_0000_0001)));
    assert!(matches!(done(cast_type(Types::Pointer(258), 0x0D)), Types::Type(2)));
    assert!(matches!(done(cast_type(Types::Void(7), 0x04)), Types::I64(7)));
}

#[test]
fn floats_truncate_and_saturate() {
    assert!(matches!(done(cast_type(Types::F64((-3.75f64).to_bits()), 0x03)), Types::I32(-3)));
    assert!(matches!(done(cast_type(Types::F64(1e10f64.to_bits()), 0x03)), Types::I32(i32::MAX)));
    assert!(matches!(done(cast_type(Types::F32((-1.5f32).to_bits()), 0x05)), Types::U8(0)));
    assert!(matches!(done(cast_type(Types::F32(300.9f32.to_bits()), 0x05)), Types::U8(255)));
    assert!(matches!(done(cast_type(Types::F64(f64::NAN.to_bits()), 0x02)), Types::I16(0)));
    // 2.5 as an f16 is 0x4100
    assert!(matches!(done(cast_type(Types::F16(0x4100), 0x04)), Types::I64(2)));
}

#[test]
fn floats_widen_exactly() {
    let r = done(cast_type(Types::F32(1.1f32.to_bits()), 0x0B));
    assert!(matches!(r, Types::F64(b) if b == (1.1f32 as f64).to_bits()));
    let r = done(cast_type(Types::F16(0x4100), 0x0B));
    assert!(matches!(r, Types::F64(b) if b == 2.5f64.to_bits()));
    assert!(matches!(done(cast_type(Types::F16(0x4100), 0x09)), Types::F16(0x4100)));
}

#[test]
fn rounding_conversions_are_handed_back() {
    assert!(matches!(cast_type(Types::I64(3), 0x0A), Cast::Float(Types::I64(3), 0x0A)));
    assert!(matches!(cast_type(Types::F64(1.0f64.to_bits()), 0x0A), Cast::Float(Types::F64(_), 0x0A)));
    assert!(matches!(cast_type(Types::F16(0x4100), 0x0A), Cast::Float(Types::F16(0x4100), 0x0A)));
}

fn computed(r: rainbow::types::TypesArith) -> Types {
    match r {
        rainbow::types::TypesArith::Done(v) => v,
        _ => panic!("expected a computed value"),
    }
}

#[test]
fn typed_arithmetic_wraps_in_the_left_type() {
    assert!(matches!(computed(types::add(&Types::I8(100), &Types::I64(100))), Types::I8(-56)));
    assert!(matches!(computed(types::sub(&Types::U8(5), &Types::U8(10))), Types::U8(251)));
    assert!(matches!(computed(types::mul(&Types::U64(u64::MAX), &Types::U64(2))), Types::U64(x) if x == u64::MAX - 1));
    assert!(matches!(computed(types::mul(&Types::I64(-3), &Types::I8(7))), Types::I64(-21)));
    assert!(matches!(computed(types::div(&Types::I64(i64::MIN), &Types::I64(-1))), Types::I64(i64::MIN)));
    assert!(matches!(computed(types::div(&Types::I16(-7), &Types::I16(2))), Types::I16(-3)));
}

#[test]
fn typed_arithmetic_converts_a_float_right_operand() {
    assert!(matches!(computed(types::add(&Types::I32(7), &Types::F64(2.9f64.to_bits()))), Types::I32(9)));
    assert!(matches!(computed(types::add(&Types::U8(1), &Types::F32((-5.0f32).to_bits()))), Types::U8(1)));
}

#[test]
fn typed_arithmetic_on_a_float_is_handed_back() {
    let r = types::add(&Types::F32(1.5f32.to_bits()), &Types::I8(2));
    assert!(matches!(r, rainbow::types::TypesArith::Float(MathOp::Add, Types::F32(_), Types::I8(2))));
}

#[test]
fn subtracting_what_was_added_gives_back_the_value() {
    let s = computed(types::add(&Types::I8(100), &Types::I8(100)));
    assert!(matches!(s, Types::I8(-56)));
    assert!(matches!(computed(types::sub(&s, &Types::I8(100))), Types::I8(100)));
    let s = computed(types::add(&Types::U32(u32::MAX), &Types::U32(7)));
    assert!(matches!(computed(types::sub(&s, &Types::U32(7))), Types::U32(u32::MAX)));
}

#[test]
fn casting_to_the_own_type_is_the_identity() {
    assert!(matches!(done(cast_type(Types::I16(-300), 0x02)), Types::I16(-300)));
    assert!(matches!(done(cast_type(Types::F32(0x7FC0_0001), 0x0A)), Types::F32(0x7FC0_0001)));
}

#[test]
fn widening_and_narrowing_back_is_the_identity() {
    let w = done(cast_type(Types::I8(-5), 0x04));
    assert!(matches!(w, Types::I64(-5)));
    assert!(matches!(done(cast_type(w, 0x01)), Types::I8(-5)));
    let w = done(cast_type(Types::U16(40000), 0x07));
    assert!(matches!(done(cast_type(w, 0x06)), Types::U16(40000)));
}

#[test]
fn integers_go_to_the_nearest_f64() {
    assert!(matches!(done(cast_type(Types::I64(3), 0x0B)), Types::F64(b) if b == 3.0f64.to_bits()));
    assert!(matches!(done(cast_type(Types::U64(u64::MAX), 0x0B)), Types::F64(b) if b == (u64::MAX as f64).to_bits()));
    assert!(matches!(done(cast_type(Types::I64(-9007199254740993), 0x0B)), Types::F64(b) if b == (-9007199254740993i64 as f64).to_bits()));
}
