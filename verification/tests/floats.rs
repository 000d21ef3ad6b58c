use half::f16;
use rainbow::float::{f16_bits_to_f64, f32_bits_to_f64};

#[test]
fn every_f16_widens_as_half_does() {
    for h in 0..=u16::MAX {
        assert_eq!(f16_bits_to_f64(h), f16::from_bits(h).to_f64().to_bits(), "f16 bits {:#06x}", h);
    }
}

#[test]
fn f32_widens_as_as_does() {
    let mut b: u32 = 0;
    loop {
        assert_eq!(f32_bits_to_f64(b), (f32::from_bits(b) as f64).to_bits(), "f32 bits {:#010x}", b);
        match b.checked_add(0x0001_0003) {
            Some(n) => b = n,
            None => break,
        }
    }
}
