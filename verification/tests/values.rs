use rainbow::_type::{Type, Types};
use rainbow::value::{Arith, BitOp, MathOp, Value, Values};

fn signed(n: i64) -> Values {
    Values::SIGNED(n)
}

fn done(a: Arith) -> Values {
    match a {
        Arith::Done(v) => v,
        Arith::Float(..) => panic!("expected an integer result"),
    }
}

#[test]
fn add_signed_unsigned() {
    let a = Values::SIGNED(-5);
    let b = Values::UNSIGNED(7);
    match a.add(&b) {
        Arith::Done(Values::SIGNED(n)) => assert_eq!(n, 2),
        _ => panic!("expected a signed result"),
    }
}

#[test]
fn decimal_left_operand_is_a_float_operation() {
    let a = Values::DECIMAL(1.5f64.to_bits());
    let b = Values::SIGNED(2);
    match a.math(MathOp::Mul, &b) {
        Arith::Float(MathOp::Mul, l, r) => {
            assert_eq!(f64::from_bits(l), 1.5);
            assert_eq!(f64::from_bits(r), 2.0);
        }
        _ => panic!("expected a float operation"),
    }
}

#[test]
fn division_rounds_toward_zero() {
    assert!(matches!(done(signed(-7).div(&signed(2))), Values::SIGNED(-3)));
    assert!(matches!(done(signed(7).div(&signed(-2))), Values::SIGNED(-3)));
    assert!(matches!(done(signed(-7).div(&signed(-2))), Values::SIGNED(3)));
    assert!(matches!(done(signed(i64::MIN).div(&signed(1))), Values::SIGNED(i64::MIN)));
}

#[test]
fn remainder_takes_the_sign_of_the_dividend() {
    assert!(matches!(done(signed(-7).modulo(&signed(2))), Values::SIGNED(-1)));
    assert!(matches!(done(signed(7).modulo(&signed(-2))), Values::SIGNED(1)));
    assert!(matches!(done(Values::UNSIGNED(17).modulo(&Values::UNSIGNED(5))), Values::UNSIGNED(2)));
}

#[test]
fn void_operands() {
    assert!(matches!(done(Values::VOID.add(&signed(3))), Values::VOID));
    assert!(matches!(done(signed(3).sub(&Values::VOID)), Values::SIGNED(3)));
}

#[test]
fn pointer_arithmetic_keeps_the_size() {
    assert!(matches!(done(Values::POINTER(10, 4).add(&signed(3))), Values::POINTER(13, 4)));
}

#[test]
fn decimal_right_operand_is_truncated() {
    let v = done(signed(10).mul(&Values::DECIMAL(2.9f64.to_bits())));
    assert!(matches!(v, Values::SIGNED(20)));
    let v = done(Values::UNSIGNED(10).sub(&Values::DECIMAL((-3.5f64).to_bits())));
    assert!(matches!(v, Values::UNSIGNED(10)));
}

#[test]
fn bitwise_operations() {
    assert!(matches!(signed(0b1100).and(&signed(0b1010)), Values::SIGNED(0b1000)));
    assert!(matches!(signed(0b1100).or(&signed(0b1010)), Values::SIGNED(0b1110)));
    assert!(matches!(signed(0b1100).xor(&signed(0b1010)), Values::SIGNED(0b0110)));
    assert!(matches!(signed(0).not(), Values::SIGNED(-1)));
    assert!(matches!(Values::UNSIGNED(1).lsh(&Values::UNSIGNED(63)), Values::UNSIGNED(0x8000_0000_0000_0000)));
    assert!(matches!(signed(-8).rsh(&signed(1)), Values::SIGNED(-4)));
    assert!(matches!(Values::POINTER(1, 2).bitwise(BitOp::Lsh, &signed(4)), Values::POINTER(16, 2)));
}

#[test]
fn decimal_bitwise_works_on_the_bit_pattern() {
    let bits = 1.0f64.to_bits();
    match Values::DECIMAL(bits).xor(&Values::UNSIGNED(0x8000_0000_0000_0000)) {
        Values::DECIMAL(b) => assert_eq!(f64::from_bits(b), -1.0),
        _ => panic!("expected a decimal"),
    }
}

#[test]
fn set_converts_to_the_slot_kind() {
    let mut v = signed(1);
    v.set(&Values::DECIMAL((-2.75f64).to_bits()));
    assert!(matches!(v, Values::SIGNED(-2)));

    let mut v = Values::DECIMAL(0);
    v.set(&signed(-3));
    match v {
        Values::DECIMAL(b) => assert_eq!(f64::from_bits(b), -3.0),
        _ => panic!("expected a decimal"),
    }

    let mut v = Values::UNSIGNED(9);
    v.set(&signed(-1));
    assert!(matches!(v, Values::UNSIGNED(u64::MAX)));

    let mut v = Values::POINTER(1, 5);
    v.set(&Values::STRUCT("s".to_string(), 12));
    assert!(matches!(v, Values::POINTER(12, 5)));

    let mut v = Values::NAME("abc".to_string());
    v.set(&Values::VOID);
    match v {
        Values::NAME(n) => assert_eq!(n, ""),
        _ => panic!("expected a name"),
    }

    let mut v = Values::VOID;
    v.set(&signed(4));
    assert!(matches!(v, Values::VOID));
}

#[test]
fn value_set_keeps_the_type() {
    let mut v = Value { typ: Type { typ: vec![Types::I32] }, val: signed(0) };
    v.set(&Values::UNSIGNED(77));
    assert_eq!(v.typ.typ, vec![Types::I32]);
    assert!(matches!(v.val, Values::SIGNED(77)));
}

#[test]
fn equality_and_order_of_values() {
    assert!(signed(3) == Values::UNSIGNED(3));
    assert!(signed(3) != signed(4));
    assert!(signed(-1) < signed(0));
    assert!(Values::UNSIGNED(5) > Values::SIGNED(2));
    assert!(Values::VOID == Values::VOID);
    assert!(Values::VOID != signed(0));
    let nan = Values::DECIMAL(f64::NAN.to_bits());
    assert!(nan != nan.clone());
    assert!(Values::DECIMAL(1.5f64.to_bits()) < signed(2));
    assert!(Values::NAME("a".to_string()) != Values::NAME("a".to_string()));
}
