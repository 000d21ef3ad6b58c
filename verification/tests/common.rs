use rainbow::chunks::DataIndex;
use rainbow::ffi_array::{FFIArray, FFIIterator};
use rainbow::float::{f16_bits_to_f64, f32_bits_to_f64, f64_to_i64, f64_to_u64, f64_to_usize, i64_to_f64, u64_to_f64};
use rainbow::linker::{choose_import, ImportChoice};

#[test]
fn data_index_to_string() {
    assert_eq!(DataIndex { chunk: 3, index: 120 }.to_string(), "(3, 120)");
    assert_eq!(DataIndex { chunk: 0, index: 0 }.to_string(), "(0, 0)");
}

#[test]
fn ffi_iterator_walks_the_array() {
    let arr = FFIArray::from_vec(vec![1u32, 2, 3]);
    assert_eq!(arr.len(), 3);
    let mut it = FFIIterator::new(&arr);
    assert_eq!(it.next(), Some(1));
    assert_eq!(it.next(), Some(2));
    assert_eq!(it.next(), Some(3));
    assert_eq!(it.next(), None);
    assert_eq!(it.next(), None);
    assert_eq!(arr.into_vec(), vec![1, 2, 3]);
}

#[test]
fn float_conversions_match_as() {
    for x in [0.0f64, -0.0, 1.5, -1.5, 2.9, -2.9, 1e300, -1e300, f64::NAN, f64::INFINITY, f64::NEG_INFINITY, 9007199254740993.0] {
        assert_eq!(f64_to_i64(x.to_bits()), x as i64);
        assert_eq!(f64_to_u64(x.to_bits()), x as u64);
        assert_eq!(f64_to_usize(x.to_bits()), x as usize);
    }
    for v in [0i64, 1, -1, i64::MAX, i64::MIN, 9007199254740993, -9007199254740993, 123456789] {
        assert_eq!(f64::from_bits(i64_to_f64(v)), v as f64);
    }
    for v in [0u64, 1, u64::MAX, 9007199254740993, 18446744073709549568] {
        assert_eq!(f64::from_bits(u64_to_f64(v)), v as f64);
    }
    for b in [0u32, 0x3F80_0000, 0xC2F6_E979, 0x0000_0001, 0x7F80_0000, 0xFF80_0000] {
        assert_eq!(f64::from_bits(f32_bits_to_f64(b)), f32::from_bits(b) as f64);
    }
    assert_eq!(f64::from_bits(f16_bits_to_f64(0x3C00)), 1.0);
    assert_eq!(f64::from_bits(f16_bits_to_f64(0xC000)), -2.0);
    assert_eq!(f64::from_bits(f16_bits_to_f64(0x0001)), 5.960464477539063e-8);
    assert!(f64::from_bits(f16_bits_to_f64(0x7E00)).is_nan());
}

#[test]
fn import_choice() {
    let paths = vec!["/lib/a/std.rbb".to_string(), "/lib/b/io.rbb".to_string()];
    match choose_import(&"io.rbb".to_string(), false, &paths) {
        ImportChoice::Found(p) => assert_eq!(p, "/lib/b/io.rbb"),
        _ => panic!("expected a file"),
    }
    assert!(matches!(choose_import(&"net.rbb".to_string(), false, &paths), ImportChoice::NotFound));
    assert!(matches!(choose_import(&".rbb".to_string(), false, &paths), ImportChoice::Ambiguous));
    assert!(matches!(choose_import(&"io.rbb".to_string(), true, &paths), ImportChoice::Ambiguous));
    match choose_import(&"std.rbb".to_string(), true, &Vec::new()) {
        ImportChoice::Found(p) => assert_eq!(p, "std.rbb"),
        _ => panic!("expected the direct path"),
    }
}
