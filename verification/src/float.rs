//! IEEE 754 binary floating-point numbers held by their bit patterns.
//!
//! A finite float of any width denotes `(-1)^sign * sig * 2^e` for an integer
//! significand `sig` and exponent `e`; the functions here decode those parts and
//! move values between widths and to integers exactly as Rust's `as` does.
use vstd::prelude::*;
use vstd::arithmetic::power2::*;
use vstd::arithmetic::div_mod::*;
use vstd::arithmetic::mul::*;

verus! {

pub open spec fn f64_sign(b: u64) -> bool {
    b >= 0x8000_0000_0000_0000
}

pub open spec fn f64_exp(b: u64) -> int {
    (b as int / 0x10_0000_0000_0000) % 0x800
}

pub open spec fn f64_man(b: u64) -> int {
    b as int % 0x10_0000_0000_0000
}

pub open spec fn f64_is_nan(b: u64) -> bool {
    f64_exp(b) == 0x7FF && f64_man(b) != 0
}

pub open spec fn f64_is_inf(b: u64) -> bool {
    f64_exp(b) == 0x7FF && f64_man(b) == 0
}

/// The significand of a finite f64, hidden bit included.
pub open spec fn f64_sig(b: u64) -> nat {
    if f64_exp(b) == 0 {
        f64_man(b) as nat
    } else {
        (f64_man(b) + 0x10_0000_0000_0000) as nat
    }
}

/// The exponent of the last significand bit of a finite f64.
pub open spec fn f64_e(b: u64) -> int {
    if f64_exp(b) == 0 {
        -1074
    } else {
        f64_exp(b) - 1075
    }
}

pub open spec fn f32_sign(b: u32) -> bool {
    b >= 0x8000_0000
}

pub open spec fn f32_exp(b: u32) -> int {
    (b as int / 0x80_0000) % 0x100
}

pub open spec fn f32_man(b: u32) -> int {
    b as int % 0x80_0000
}

pub open spec fn f32_is_nan(b: u32) -> bool {
    f32_exp(b) == 0xFF && f32_man(b) != 0
}

pub open spec fn f32_is_inf(b: u32) -> bool {
    f32_exp(b) == 0xFF && f32_man(b) == 0
}

pub open spec fn f32_sig(b: u32) -> nat {
    if f32_exp(b) == 0 {
        f32_man(b) as nat
    } else {
        (f32_man(b) + 0x80_0000) as nat
    }
}

pub open spec fn f32_e(b: u32) -> int {
    if f32_exp(b) == 0 {
        -149
    } else {
        f32_exp(b) - 150
    }
}

pub open spec fn f16_sign(b: u16) -> bool {
    b >= 0x8000
}

pub open spec fn f16_exp(b: u16) -> int {
    (b as int / 0x400) % 0x20
}

pub open spec fn f16_man(b: u16) -> int {
    b as int % 0x400
}

pub open spec fn f16_is_nan(b: u16) -> bool {
    f16_exp(b) == 0x1F && f16_man(b) != 0
}

pub open spec fn f16_is_inf(b: u16) -> bool {
    f16_exp(b) == 0x1F && f16_man(b) == 0
}

pub open spec fn f16_sig(b: u16) -> nat {
    if f16_exp(b) == 0 {
        f16_man(b) as nat
    } else {
        (f16_man(b) + 0x400) as nat
    }
}

pub open spec fn f16_e(b: u16) -> int {
    if f16_exp(b) == 0 {
        -24
    } else {
        f16_exp(b) - 25
    }
}

/// The magnitude `sig * 2^e` of a float, scaled by `2^1074` so that every
/// finite f16, f32 and f64 has an integer scaled magnitude.
pub open spec fn scaled(sig: nat, e: int) -> nat {
    sig * pow2((e + 1074) as nat)
}

pub open spec fn f64_scaled(b: u64) -> nat {
    scaled(f64_sig(b), f64_e(b))
}

pub open spec fn f32_scaled(b: u32) -> nat {
    scaled(f32_sig(b), f32_e(b))
}

pub open spec fn f16_scaled(b: u16) -> nat {
    scaled(f16_sig(b), f16_e(b))
}

/// `r` denotes, as an f64, the same finite value or infinity as a float of
/// another width with the given parts; a NaN stays a NaN.
pub open spec fn f64_same_value(r: u64, sign: bool, nan: bool, inf: bool, mag: nat) -> bool {
    if nan {
        f64_is_nan(r)
    } else if inf {
        f64_is_inf(r) && f64_sign(r) == sign
    } else {
        !f64_is_nan(r) && !f64_is_inf(r) && f64_sign(r) == sign && f64_scaled(r) == mag
    }
}

proof fn lemma_pow2_step(n: nat)
    requires
        n > 0,
    ensures
        pow2(n) == 2 * pow2((n - 1) as nat),
{
    lemma_pow2_unfold(n);
}

/// Packing sign, exponent field and mantissa into a bit pattern decodes back.
proof fn lemma_f64_pack(s: int, x: int, m: int)
    requires
        0 <= s <= 1,
        0 <= x < 0x800,
        0 <= m < 0x10_0000_0000_0000,
    ensures
        ({
            let b = s * 0x8000_0000_0000_0000 + x * 0x10_0000_0000_0000 + m;
            &&& 0 <= b <= u64::MAX
            &&& (b / 0x10_0000_0000_0000) % 0x800 == x
            &&& b % 0x10_0000_0000_0000 == m
            &&& (b >= 0x8000_0000_0000_0000 <==> s == 1)
        }),
{
    let b = s * 0x8000_0000_0000_0000 + x * 0x10_0000_0000_0000 + m;
    let q = s * 0x800 + x;
    assert(b == q * 0x10_0000_0000_0000 + m);
    lemma_fundamental_div_mod_converse_div(b, 0x10_0000_0000_0000, q, m);
    lemma_fundamental_div_mod_converse_mod(b, 0x10_0000_0000_0000, q, m);
    lemma_fundamental_div_mod_converse_mod(q, 0x800, s, x);
}

/// Doubles a nonzero significand below `2^52` until it reaches `2^52`, lowering
/// the exponent to keep the value.
pub open spec fn normalize(sig: nat, e: int) -> (nat, int)
    decreases 0x20_0000_0000_0000 - sig,
{
    if sig == 0 || sig >= 0x10_0000_0000_0000 {
        (sig, e)
    } else {
        normalize(2 * sig, e - 1)
    }
}

/// The bit pattern with the given sign, exponent field and mantissa field.
pub open spec fn f64_pack(sign: bool, x: int, m: int) -> u64 {
    ((if sign { 1int } else { 0int }) * 0x8000_0000_0000_0000 + x * 0x10_0000_0000_0000 + m) as u64
}

/// The f64 bit pattern of the finite nonzero value `(-1)^sign * sig * 2^e`
/// when it is a normal f64.
pub open spec fn f64_normal(sign: bool, sig: nat, e: int) -> u64 {
    let (s, x) = normalize(sig, e);
    f64_pack(sign, x + 1075, s - 0x10_0000_0000_0000)
}

/// Encodes the finite nonzero value `(-1)^sign * sig * 2^e` as an f64, which
/// holds it exactly as a normal number for these exponents.
fn encode_f64_normal(sign: bool, sig: u64, e: i64) -> (r: u64)
    requires
        0 < sig < 0x20_0000_0000_0000,
        -1000 <= e <= 900,
    ensures
        r == f64_normal(sign, sig as nat, e as int),
        !f64_is_nan(r),
        !f64_is_inf(r),
        f64_sign(r) == sign,
        f64_scaled(r) == scaled(sig as nat, e as int),
{
    let mut s: u64 = sig;
    let mut x: i64 = e;
    proof {
        lemma2_to64();
            lemma2_to64_rest();
        assert(pow2(0) == 1);
        assert(sig as int * 1 == sig as int);
    }
    while s < 0x10_0000_0000_0000
        invariant
            0 < s < 0x20_0000_0000_0000,
            e - 52 <= x <= e,
            -1000 <= e <= 900,
            s as int == sig as int * pow2((e - x) as nat),
            0 < sig,
            normalize(s as nat, x as int) == normalize(sig as nat, e as int),
        decreases 0x20_0000_0000_0000 - s,
    {
        proof {
            lemma2_to64();
            lemma2_to64_rest();
            lemma_pow2_step((e - x + 1) as nat);
            lemma_mul_is_associative(sig as int, pow2((e - x) as nat) as int, 2);
            if e - x > 52 {
                lemma_pow2_strictly_increases(52, (e - x) as nat);
                lemma_mul_inequality(1, sig as int, pow2((e - x) as nat) as int);
            }
            if e - x == 52 {
                lemma_mul_inequality(1, sig as int, pow2(52) as int);
                assert(1 * pow2(52) == 0x10_0000_0000_0000);
                assert(false);
            }
            if e - x > 52 {
                assert(1 * pow2((e - x) as nat) > 0x10_0000_0000_0000);
                assert(false);
            }
        }
        s = s * 2;
        x = x - 1;
    }
    let xf: u64 = (x + 1075) as u64;
    let m: u64 = s - 0x10_0000_0000_0000;
    let sb: u64 = if sign { 1 } else { 0 };
    proof {
        lemma_f64_pack(sb as int, xf as int, m as int);
        lemma_pow2_adds((e - x) as nat, (x + 1074) as nat);
        lemma_mul_is_associative(sig as int, pow2((e - x) as nat) as int, pow2((x + 1074) as nat) as int);
    }
    let r = sb * 0x8000_0000_0000_0000 + xf * 0x10_0000_0000_0000 + m;
    r
}

/// The f64 bit pattern of an infinity or a NaN with the given sign and mantissa.
fn f64_special(sign: bool, man: u64) -> (r: u64)
    requires
        man < 0x10_0000_0000_0000,
    ensures
        r == f64_pack(sign, 0x7FF, man as int),
        f64_exp(r) == 0x7FF,
        f64_man(r) == man,
        f64_sign(r) == sign,
{
    let sb: u64 = if sign { 1 } else { 0 };
    proof {
        lemma_f64_pack(sb as int, 0x7FF, man as int);
    }
    sb * 0x8000_0000_0000_0000 + 0x7FF * 0x10_0000_0000_0000 + man
}

/// The NaN mantissa `payload` with its quiet bit (bit 51) set.
pub open spec fn quiet(payload: int) -> int {
    if payload >= 0x8_0000_0000_0000 {
        payload
    } else {
        payload + 0x8_0000_0000_0000
    }
}

/// An f16 widened to f64: the same number or infinity; a NaN keeps its sign
/// and payload and becomes quiet.
pub open spec fn f16_widen(h: u16) -> u64 {
    let sign = f16_sign(h);
    if f16_exp(h) == 0x1F {
        if f16_man(h) == 0 {
            f64_pack(sign, 0x7FF, 0)
        } else {
            f64_pack(sign, 0x7FF, quiet(f16_man(h) * 0x400_0000_0000))
        }
    } else if f16_exp(h) == 0 && f16_man(h) == 0 {
        f64_pack(sign, 0, 0)
    } else {
        f64_normal(sign, f16_sig(h), f16_e(h))
    }
}

/// An f32 widened to f64, as `f32 as f64`: the same number or infinity; a NaN
/// keeps its sign and payload and becomes quiet.
pub open spec fn f32_widen(b: u32) -> u64 {
    let sign = f32_sign(b);
    if f32_exp(b) == 0xFF {
        if f32_man(b) == 0 {
            f64_pack(sign, 0x7FF, 0)
        } else {
            f64_pack(sign, 0x7FF, quiet(f32_man(b) * 0x2000_0000))
        }
    } else if f32_exp(b) == 0 && f32_man(b) == 0 {
        f64_pack(sign, 0, 0)
    } else {
        f64_normal(sign, f32_sig(b), f32_e(b))
    }
}

/// A NaN mantissa with the quiet bit set over the given payload.
fn quiet_nan_mantissa(payload: u64) -> (m: u64)
    requires
        payload < 0x10_0000_0000_0000,
    ensures
        m == quiet(payload as int),
        0 < m < 0x10_0000_0000_0000,
{
    if payload >= 0x8_0000_0000_0000 {
        payload
    } else {
        payload + 0x8_0000_0000_0000
    }
}

/// Widens an f16 to an f64. Every f16 value is an f64 value, so the result
/// denotes the same number, the same infinity, or a NaN.
pub fn f16_bits_to_f64(h: u16) -> (r: u64)
    ensures
        r == f16_widen(h),
        f64_same_value(r, f16_sign(h), f16_is_nan(h), f16_is_inf(h), f16_scaled(h)),
{
    let sign = h >= 0x8000;
    let exp: u16 = (h / 0x400) % 0x20;
    let man: u16 = h % 0x400;
    if exp == 0x1F {
        if man == 0 {
            f64_special(sign, 0)
        } else {
            f64_special(sign, quiet_nan_mantissa(man as u64 * 0x400_0000_0000))
        }
    } else if exp == 0 && man == 0 {
        let r: u64 = if sign { 0x8000_0000_0000_0000 } else { 0 };
        proof {
            lemma_f64_pack(if sign { 1 } else { 0 }, 0, 0);
            assert(f16_sig(h) == 0);
            assert(f64_sig(r) == 0);
            lemma_mul_basics(pow2((f16_e(h) + 1074) as nat) as int);
            lemma_mul_basics(pow2((f64_e(r) + 1074) as nat) as int);
        }
        r
    } else {
        let sig: u64 = if exp == 0 { man as u64 } else { man as u64 + 0x400 };
        let e: i64 = if exp == 0 { -24 } else { exp as i64 - 25 };
        assert(sig as nat == f16_sig(h) && e as int == f16_e(h));
        encode_f64_normal(sign, sig, e)
    }
}

/// Widens an f32 to an f64 as `f32 as f64` does: the same number, the same
/// infinity, or a NaN.
pub fn f32_bits_to_f64(b: u32) -> (r: u64)
    ensures
        r == f32_widen(b),
        f64_same_value(r, f32_sign(b), f32_is_nan(b), f32_is_inf(b), f32_scaled(b)),
{
    let sign = b >= 0x8000_0000;
    let exp: u32 = (b / 0x80_0000) % 0x100;
    let man: u32 = b % 0x80_0000;
    if exp == 0xFF {
        if man == 0 {
            f64_special(sign, 0)
        } else {
            f64_special(sign, quiet_nan_mantissa(man as u64 * 0x2000_0000))
        }
    } else if exp == 0 && man == 0 {
        let r: u64 = if sign { 0x8000_0000_0000_0000 } else { 0 };
        proof {
            lemma_f64_pack(if sign { 1 } else { 0 }, 0, 0);
            assert(f32_sig(b) == 0);
            assert(f64_sig(r) == 0);
            lemma_mul_basics(pow2((f32_e(b) + 1074) as nat) as int);
            lemma_mul_basics(pow2((f64_e(r) + 1074) as nat) as int);
        }
        r
    } else {
        let sig: u64 = if exp == 0 { man as u64 } else { man as u64 + 0x80_0000 };
        let e: i64 = if exp == 0 { -149 } else { exp as i64 - 150 };
        assert(sig as nat == f32_sig(b) && e as int == f32_e(b));
        encode_f64_normal(sign, sig, e)
    }
}


/// The integer part of the magnitude of a finite f64.
pub open spec fn f64_trunc(b: u64) -> nat {
    f64_scaled(b) / pow2(1074)
}

proof fn lemma_f64_fields(b: u64)
    ensures
        b as int == (if f64_sign(b) { 1int } else { 0int }) * 0x8000_0000_0000_0000 + f64_exp(b) * 0x10_0000_0000_0000 + f64_man(b),
        0 <= f64_exp(b) < 0x800,
        0 <= f64_man(b) < 0x10_0000_0000_0000,
{
    let q = b as int / 0x10_0000_0000_0000;
    lemma_fundamental_div_mod(b as int, 0x10_0000_0000_0000);
    lemma_fundamental_div_mod(q, 0x800);
    assert(q / 0x800 == if f64_sign(b) { 1int } else { 0int }) by {
        lemma_div_denominator(b as int, 0x10_0000_0000_0000, 0x800);
    }
}

/// The integer part of the magnitude of a finite f64, or `None` when it is
/// `2^64` or more.
fn f64_trunc_mag(b: u64) -> (r: Option<u64>)
    requires
        !f64_is_nan(b),
        !f64_is_inf(b),
    ensures
        match r {
            Some(m) => m as nat == f64_trunc(b),
            None => f64_trunc(b) >= 0x1_0000_0000_0000_0000,
        },
{
    let x: u64 = (b / 0x10_0000_0000_0000) % 0x800;
    let m: u64 = b % 0x10_0000_0000_0000;
    proof {
        lemma2_to64();
        lemma2_to64_rest();
        lemma_pow2_pos(1074);
    }
    if x < 1023 {
        proof {
            if x == 0 {
                assert(f64_scaled(b) == m * pow2(0));
                lemma_pow2_strictly_increases(52, 1074);
                lemma_basic_div(f64_scaled(b) as int, pow2(1074) as int);
            } else {
                let p = pow2((x - 1) as nat);
                assert(f64_scaled(b) == (m + 0x10_0000_0000_0000) * p);
                lemma_pow2_pos((x - 1) as nat);
                if x - 1 < 1021 {
                    lemma_pow2_strictly_increases((x - 1) as nat, 1021);
                }
                lemma_mul_inequality(p as int, pow2(1021) as int, (m + 0x10_0000_0000_0000) as int);
                lemma_mul_strict_inequality((m + 0x10_0000_0000_0000) as int, pow2(53) as int, pow2(1021) as int);
                lemma_pow2_adds(53, 1021);
                lemma_mul_is_commutative(p as int, (m + 0x10_0000_0000_0000) as int);
                lemma_basic_div(f64_scaled(b) as int, pow2(1074) as int);
            }
        }
        return Some(0);
    }
    let sig: u64 = m + 0x10_0000_0000_0000;
    proof {
        assert(f64_sig(b) == sig);
        assert(f64_scaled(b) == sig * pow2((x - 1) as nat));
    }
    if x < 1075 {
        let k: u64 = 1075 - x;
        proof {
            lemma_pow2_adds((x - 1) as nat, k as nat);
            lemma_pow2_pos((x - 1) as nat);
            lemma_pow2_pos(k as nat);
            lemma_div_denominator(sig * pow2((x - 1) as nat), pow2((x - 1) as nat) as int, pow2(k as nat) as int);
            lemma_div_by_multiple(sig as int, pow2((x - 1) as nat) as int);
            vstd::bits::lemma_u64_shr_is_div(sig, k);
        }
        Some(sig >> k)
    } else {
        let k: u64 = x - 1075;
        proof {
            lemma_pow2_adds(k as nat, 1074);
            lemma_mul_is_associative(sig as int, pow2(k as nat) as int, pow2(1074) as int);
            lemma_div_by_multiple(sig * pow2(k as nat), pow2(1074) as int);
        }
        if k > 11 {
            proof {
                if k > 12 {
                    lemma_pow2_strictly_increases(12, k as nat);
                }
                lemma_mul_inequality(0x10_0000_0000_0000, sig as int, pow2(k as nat) as int);
                lemma_mul_inequality(pow2(12) as int, pow2(k as nat) as int, 0x10_0000_0000_0000);
            }
            None
        } else {
            proof {
                if k < 11 {
                    lemma_pow2_strictly_increases(k as nat, 11);
                }
                lemma_mul_strict_inequality(sig as int, 0x20_0000_0000_0000, pow2(k as nat) as int);
                lemma_mul_inequality(pow2(k as nat) as int, pow2(11) as int, 0x20_0000_0000_0000);
                lemma_mul_is_commutative(sig as int, pow2(k as nat) as int);
                vstd::bits::lemma_u64_shl_is_mul(sig, k);
            }
            Some(sig << k)
        }
    }
}

/// `f as u64` for the f64 with bit pattern `b`: the integer part, saturated
/// to `0..=u64::MAX`; a NaN gives 0.
pub open spec fn f64_as_u64(b: u64) -> u64 {
    if f64_is_nan(b) {
        0
    } else if f64_is_inf(b) {
        if f64_sign(b) { 0 } else { u64::MAX }
    } else if f64_sign(b) {
        0
    } else if f64_trunc(b) > u64::MAX {
        u64::MAX
    } else {
        f64_trunc(b) as u64
    }
}

/// `f as i64` for the f64 with bit pattern `b`: the integer part, saturated
/// to `i64::MIN..=i64::MAX`; a NaN gives 0.
pub open spec fn f64_as_i64(b: u64) -> i64 {
    if f64_is_nan(b) {
        0
    } else if f64_is_inf(b) {
        if f64_sign(b) { i64::MIN } else { i64::MAX }
    } else if f64_sign(b) {
        if f64_trunc(b) > 0x8000_0000_0000_0000 { i64::MIN } else { (-(f64_trunc(b) as int)) as i64 }
    } else if f64_trunc(b) > i64::MAX {
        i64::MAX
    } else {
        f64_trunc(b) as i64
    }
}

/// `f as usize` for the f64 with bit pattern `b`.
pub open spec fn f64_as_usize(b: u64) -> usize {
    if f64_as_u64(b) > usize::MAX { usize::MAX } else { f64_as_u64(b) as usize }
}

/// Converts an f64 to a `u64` as `as` does.
pub fn f64_to_u64(b: u64) -> (r: u64)
    ensures
        r == f64_as_u64(b),
{
    let exp: u64 = (b / 0x10_0000_0000_0000) % 0x800;
    let man: u64 = b % 0x10_0000_0000_0000;
    if exp == 0x7FF {
        if man != 0 { 0 } else if b >= 0x8000_0000_0000_0000 { 0 } else { u64::MAX }
    } else if b >= 0x8000_0000_0000_0000 {
        0
    } else {
        match f64_trunc_mag(b) {
            Some(m) => m,
            None => u64::MAX,
        }
    }
}

/// Converts an f64 to an `i64` as `as` does.
pub fn f64_to_i64(b: u64) -> (r: i64)
    ensures
        r == f64_as_i64(b),
{
    let exp: u64 = (b / 0x10_0000_0000_0000) % 0x800;
    let man: u64 = b % 0x10_0000_0000_0000;
    if exp == 0x7FF {
        if man != 0 { 0 } else if b >= 0x8000_0000_0000_0000 { i64::MIN } else { i64::MAX }
    } else {
        match f64_trunc_mag(b) {
            Some(m) => {
                if b >= 0x8000_0000_0000_0000 {
                    if m >= 0x8000_0000_0000_0000 {
                        i64::MIN
                    } else {
                        -(m as i64)
                    }
                } else if m > 0x7FFF_FFFF_FFFF_FFFF {
                    i64::MAX
                } else {
                    m as i64
                }
            },
            None => if b >= 0x8000_0000_0000_0000 { i64::MIN } else { i64::MAX },
        }
    }
}

/// Converts an f64 to a `usize` as `as` does.
pub fn f64_to_usize(b: u64) -> (r: usize)
    ensures
        r == f64_as_usize(b),
{
    let v = f64_to_u64(b);
    if v > usize::MAX as u64 { usize::MAX } else { v as usize }
}


/// How many low bits of `q` go before it has at most 53 bits, counted from `k`.
pub open spec fn round_shift_from(q: nat, k: nat) -> nat
    decreases q,
{
    if q < 0x20_0000_0000_0000 {
        k
    } else {
        round_shift_from(q / 2, k + 1)
    }
}

/// The f64 nearest to the natural number `n` with the given sign, ties to
/// even, as `as f64` gives it.
pub open spec fn f64_from_nat(sign: bool, n: nat) -> u64 {
    if n == 0 {
        f64_pack(sign, 0, 0)
    } else if n < 0x20_0000_0000_0000 {
        f64_normal(sign, n, 0)
    } else {
        let k = round_shift_from(n, 0);
        let q = n / pow2(k);
        let r = n % pow2(k);
        let half = pow2((k - 1) as nat);
        let rq = if r > half || (r == half && q % 2 == 1) { q + 1 } else { q };
        if rq == 0x20_0000_0000_0000 {
            f64_normal(sign, 0x10_0000_0000_0000, k + 1 as int)
        } else {
            f64_normal(sign, rq, k as int)
        }
    }
}

/// `v as f64` for an integer `v`.
pub open spec fn f64_from_int(v: int) -> u64 {
    if v < 0 {
        f64_from_nat(true, (-v) as nat)
    } else {
        f64_from_nat(false, v as nat)
    }
}

/// The f64 nearest to `n` with the given sign, ties to even.
fn nat_to_f64(sign: bool, n: u64) -> (r: u64)
    ensures
        r == f64_from_nat(sign, n as nat),
{
    if n == 0 {
        proof {
            lemma_f64_pack(if sign { 1 } else { 0 }, 0, 0);
        }
        return if sign { 0x8000_0000_0000_0000 } else { 0 };
    }
    if n < 0x20_0000_0000_0000 {
        return encode_f64_normal(sign, n, 0);
    }
    let mut q: u64 = n;
    let mut k: u64 = 0;
    proof {
        lemma2_to64();
        lemma2_to64_rest();
    }
    while q >= 0x20_0000_0000_0000
        invariant
            q as nat == n as nat / pow2(k as nat),
            round_shift_from(q as nat, k as nat) == round_shift_from(n as nat, 0),
            k <= 11,
            q * pow2(k as nat) <= n,
        decreases q,
    {
        proof {
            lemma2_to64();
            lemma_pow2_pos(k as nat);
            if k >= 11 {
                lemma_mul_is_commutative(0x20_0000_0000_0000, pow2(k as nat) as int);
                if k > 11 {
                    lemma_pow2_strictly_increases(11, k as nat);
                }
                lemma_mul_inequality(0x20_0000_0000_0000, q as int, pow2(k as nat) as int);
                lemma_mul_inequality(pow2(11) as int, pow2(k as nat) as int, 0x20_0000_0000_0000);
                lemma_mul_is_commutative(q as int, pow2(k as nat) as int);
            }
            lemma_pow2_unfold((k + 1) as nat);
            lemma_div_denominator(n as int, pow2(k as nat) as int, 2);
            lemma_fundamental_div_mod(n as int, pow2((k + 1) as nat) as int);
            lemma_mul_is_commutative(2, pow2(k as nat) as int);
        }
        q = q / 2;
        k = k + 1;
        proof {
            lemma_pow2_pos(k as nat);
            lemma_fundamental_div_mod(n as int, pow2(k as nat) as int);
            lemma_mul_is_commutative(q as int, pow2(k as nat) as int);
        }
    }
    proof {
        lemma_pow2_pos(k as nat);
        vstd::bits::lemma_u64_shl_is_mul(1, k);
        if k < 11 {
            lemma_pow2_strictly_increases(k as nat, 11);
        }
        lemma_pow2_unfold(k as nat);
        lemma_fundamental_div_mod(n as int, pow2(k as nat) as int);
    }
    let p: u64 = 1u64 << k;
    let r = n % p;
    let half = p / 2;
    let up = r > half || (r == half && q % 2 == 1);
    let rq: u64 = if up { q + 1 } else { q };
    if rq == 0x20_0000_0000_0000 {
        encode_f64_normal(sign, 0x10_0000_0000_0000, (k + 1) as i64)
    } else {
        encode_f64_normal(sign, rq, k as i64)
    }
}

/// Converts an `i64` to the nearest f64, as `as f64` does.
pub fn i64_to_f64(v: i64) -> (r: u64)
    ensures
        r == f64_from_int(v as int),
{
    if v < 0 {
        let n: u64 = ((-(v + 1)) as u64) + 1;
        nat_to_f64(true, n)
    } else {
        nat_to_f64(false, v as u64)
    }
}

/// Converts a `u64` to the nearest f64, as `as f64` does.
pub fn u64_to_f64(v: u64) -> (r: u64)
    ensures
        r == f64_from_int(v as int),
{
    nat_to_f64(false, v)
}


/// The magnitude of a non-NaN f64 scaled by `2^1074`, with infinity beyond
/// every finite magnitude.
pub open spec fn f64_mag_key(b: u64) -> int {
    if f64_is_inf(b) {
        pow2(2100) as int
    } else {
        f64_scaled(b) as int
    }
}

/// The value of a non-NaN f64 scaled by `2^1074`, with the infinities beyond
/// every finite value; `+0` and `-0` are both 0.
pub open spec fn f64_key(b: u64) -> int {
    if f64_sign(b) {
        -f64_mag_key(b)
    } else {
        f64_mag_key(b)
    }
}

/// `a < b` on f64s: false when either is a NaN.
pub open spec fn f64_lt(a: u64, b: u64) -> bool {
    !f64_is_nan(a) && !f64_is_nan(b) && f64_key(a) < f64_key(b)
}

/// `a == b` on f64s: false when either is a NaN; `+0 == -0`.
pub open spec fn f64_eq(a: u64, b: u64) -> bool {
    !f64_is_nan(a) && !f64_is_nan(b) && f64_key(a) == f64_key(b)
}

proof fn lemma_scaled_bound(b: u64)
    requires
        !f64_is_nan(b),
        !f64_is_inf(b),
    ensures
        f64_exp(b) == 0 ==> f64_scaled(b) < 0x10_0000_0000_0000,
        f64_exp(b) >= 1 ==> f64_scaled(b) < 0x10_0000_0000_0000 * pow2(f64_exp(b) as nat),
        f64_exp(b) >= 1 ==> f64_scaled(b) >= 0x10_0000_0000_0000 * pow2((f64_exp(b) - 1) as nat),
        f64_scaled(b) == 0 <==> (f64_exp(b) == 0 && f64_man(b) == 0),
{
    lemma2_to64();
    lemma2_to64_rest();
    lemma_f64_fields(b);
    let x = f64_exp(b);
    if x == 0 {
        assert(f64_scaled(b) == f64_man(b) * pow2(0));
    } else {
        let p = pow2((x - 1) as nat);
        lemma_pow2_pos((x - 1) as nat);
        lemma_pow2_unfold(x as nat);
        assert(f64_scaled(b) == (f64_man(b) + 0x10_0000_0000_0000) * p);
        lemma_mul_strict_inequality((f64_man(b) + 0x10_0000_0000_0000) as int, 0x20_0000_0000_0000, p as int);
        lemma_mul_inequality(0x10_0000_0000_0000, (f64_man(b) + 0x10_0000_0000_0000) as int, p as int);
        lemma_mul_is_associative(0x10_0000_0000_0000, 2, p as int);
        lemma_mul_strictly_positive(0x10_0000_0000_0000, p as int);
    }
}

/// The magnitude grows with the bit pattern.
proof fn lemma_mag_mono(p: u64, q: u64)
    requires
        p < q < 0x8000_0000_0000_0000,
        !f64_is_nan(p),
        !f64_is_nan(q),
    ensures
        f64_mag_key(p) < f64_mag_key(q),
{
    lemma2_to64();
    lemma2_to64_rest();
    lemma_f64_fields(p);
    lemma_f64_fields(q);
    let xp = f64_exp(p);
    let xq = f64_exp(q);
    assert(xp <= xq);
    if f64_is_inf(q) {
        assert(!f64_is_inf(p));
        lemma_scaled_bound(p);
        assert(f64_scaled(p) < pow2(2100)) by {
            lemma_pow2_adds(52, 2046);
            lemma_pow2_strictly_increases(2098, 2100);
            lemma_pow2_strictly_increases(52, 2100);
            lemma2_to64_rest();
            if xp >= 1 {
                assert(xp <= 2046);
                if xp < 2046 {
                    lemma_pow2_strictly_increases(xp as nat, 2046);
                }
                assert(pow2(xp as nat) <= pow2(2046));
                lemma_mul_inequality(pow2(xp as nat) as int, pow2(2046) as int, 0x10_0000_0000_0000);
                lemma_mul_is_commutative(pow2(xp as nat) as int, 0x10_0000_0000_0000);
                lemma_mul_is_commutative(pow2(2046) as int, 0x10_0000_0000_0000);
                assert(0x10_0000_0000_0000 * pow2(xp as nat) <= 0x10_0000_0000_0000 * pow2(2046));
                assert(f64_scaled(p) < 0x10_0000_0000_0000 * pow2(xp as nat));
            }
        }
    } else {
        lemma_scaled_bound(p);
        lemma_scaled_bound(q);
        if xp == xq {
            assert(f64_man(p) < f64_man(q));
            assert(f64_sig(p) < f64_sig(q));
            assert(f64_e(p) == f64_e(q));
            lemma_pow2_pos((f64_e(p) + 1074) as nat);
            lemma_mul_strict_inequality(f64_sig(p) as int, f64_sig(q) as int, pow2((f64_e(p) + 1074) as nat) as int);
        } else {
            if xp == 0 {
                lemma_pow2_pos((xq - 1) as nat);
                lemma_mul_inequality(1, pow2((xq - 1) as nat) as int, 0x10_0000_0000_0000);
            } else {
                if xp < xq - 1 {
                    lemma_pow2_strictly_increases(xp as nat, (xq - 1) as nat);
                }
                lemma_mul_inequality(pow2(xp as nat) as int, pow2((xq - 1) as nat) as int, 0x10_0000_0000_0000);
                lemma_mul_is_commutative(pow2(xp as nat) as int, 0x10_0000_0000_0000);
                lemma_mul_is_commutative(pow2((xq - 1) as nat) as int, 0x10_0000_0000_0000);
            }
        }
    }
}

/// Whether the f64 with bit pattern `b` is a NaN.
pub fn f64_nan(b: u64) -> (r: bool)
    ensures
        r == f64_is_nan(b),
{
    (b / 0x10_0000_0000_0000) % 0x800 == 0x7FF && b % 0x10_0000_0000_0000 != 0
}

/// `a < b` on f64 bit patterns, as `<` on f64 does.
pub fn f64_less(a: u64, b: u64) -> (r: bool)
    ensures
        r == f64_lt(a, b),
{
    let ea: u64 = (a / 0x10_0000_0000_0000) % 0x800;
    let eb: u64 = (b / 0x10_0000_0000_0000) % 0x800;
    if (ea == 0x7FF && a % 0x10_0000_0000_0000 != 0) || (eb == 0x7FF && b % 0x10_0000_0000_0000 != 0) {
        return false;
    }
    let sa = a >= 0x8000_0000_0000_0000;
    let sb = b >= 0x8000_0000_0000_0000;
    let ma: u64 = a % 0x8000_0000_0000_0000;
    let mb: u64 = b % 0x8000_0000_0000_0000;
    proof {
        lemma_f64_fields(a);
        lemma_f64_fields(b);
        lemma_f64_fields(ma);
        lemma_f64_fields(mb);
        assert(f64_exp(ma) == f64_exp(a) && f64_man(ma) == f64_man(a));
        assert(f64_exp(mb) == f64_exp(b) && f64_man(mb) == f64_man(b));
        assert(f64_mag_key(ma) == f64_mag_key(a));
        assert(f64_mag_key(mb) == f64_mag_key(b));
        if ma < mb {
            lemma_mag_mono(ma, mb);
        } else if mb < ma {
            lemma_mag_mono(mb, ma);
        }
        if !f64_is_inf(a) {
            lemma_scaled_bound(a);
        }
        if !f64_is_inf(b) {
            lemma_scaled_bound(b);
        }
        lemma_pow2_pos(2100);
    }
    if ma == 0 && mb == 0 {
        false
    } else if sa != sb {
        sa
    } else if !sa {
        ma < mb
    } else {
        mb < ma
    }
}

/// `a == b` on f64 bit patterns, as `==` on f64 does.
pub fn f64_equal(a: u64, b: u64) -> (r: bool)
    ensures
        r == f64_eq(a, b),
{
    let ea: u64 = (a / 0x10_0000_0000_0000) % 0x800;
    let eb: u64 = (b / 0x10_0000_0000_0000) % 0x800;
    if (ea == 0x7FF && a % 0x10_0000_0000_0000 != 0) || (eb == 0x7FF && b % 0x10_0000_0000_0000 != 0) {
        return false;
    }
    let ma: u64 = a % 0x8000_0000_0000_0000;
    let mb: u64 = b % 0x8000_0000_0000_0000;
    proof {
        lemma_f64_fields(a);
        lemma_f64_fields(b);
        lemma_f64_fields(ma);
        lemma_f64_fields(mb);
        assert(f64_exp(ma) == f64_exp(a) && f64_man(ma) == f64_man(a));
        assert(f64_exp(mb) == f64_exp(b) && f64_man(mb) == f64_man(b));
        assert(f64_mag_key(ma) == f64_mag_key(a));
        assert(f64_mag_key(mb) == f64_mag_key(b));
        if ma < mb {
            lemma_mag_mono(ma, mb);
        } else if mb < ma {
            lemma_mag_mono(mb, ma);
        }
        if !f64_is_inf(a) {
            lemma_scaled_bound(a);
        }
        if !f64_is_inf(b) {
            lemma_scaled_bound(b);
        }
        lemma_pow2_pos(2100);
    }
    if ma == 0 && mb == 0 {
        true
    } else {
        a == b
    }
}

} // verus!
