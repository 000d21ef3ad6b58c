use rainbow::_type::{Type, Types};
use rainbow::value::{Value, Values};

fn value(v: Values) -> Value {
    Value { typ: Type { typ: vec![Types::I64] }, val: v }
}

#[test]
fn types_read_as_their_element_names() {
    assert_eq!(Type { typ: vec![Types::POINTER, Types::POINTER, Types::I8] }.to_string(), "**i8");
    assert_eq!(Type { typ: vec![Types::F64] }.to_string(), "f64");
    assert_eq!(Type { typ: vec![] }.to_string(), "");
}

#[test]
fn values_read_as_their_content() {
    assert_eq!(value(Values::VOID).to_string(), Some("VOID".to_string()));
    assert_eq!(value(Values::SIGNED(-12)).to_string(), Some("-12".to_string()));
    assert_eq!(value(Values::SIGNED(i64::MIN)).to_string(), Some(i64::MIN.to_string()));
    assert_eq!(value(Values::UNSIGNED(u64::MAX)).to_string(), Some(u64::MAX.to_string()));
    assert_eq!(value(Values::POINTER(5, 2)).to_string(), Some("*5".to_string()));
    assert_eq!(value(Values::NAME("ab".to_string())).to_string(), Some("\"ab\"".to_string()));
    assert_eq!(value(Values::TYPE(Type { typ: vec![Types::POINTER, Types::U8] })).to_string(), Some("*u8".to_string()));
    assert_eq!(value(Values::DECIMAL(1.5f64.to_bits())).to_string(), None);
}
