use float_bits::{BF16, F128, F16, F32, F64};

fn f32_samples() -> Vec<u32> {
    vec![
        0x00000000, 0x80000000, 0x00000001, 0x80000001, 0x007fffff, 0x00800000, 0x3f800000,
        0xbf800000, 0x7f7fffff, 0xff7fffff, 0x7f800000, 0xff800000, 0x7f800001, 0xff800001,
        0x7fc00001, 0xffc00001, 0x7fffffff, 0xffffffff, 0x12345678, 0xdeadbeef,
    ]
}

#[test]
fn f32_bits_round_trip() {
    for bits in f32_samples() {
        assert_eq!(F32::from_bits(bits).to_bits(), bits);
        let v = F32::from_bits(bits);
        assert_eq!(F32::from_bits(v.to_bits()), v);
    }
}

#[test]
fn f32_native_round_trip() {
    // Bit-exact both ways, NaN payloads and signed zeros included.
    for bits in f32_samples() {
        let f = f32::from_bits(bits);
        let v = F32::from_bits(f.to_bits());
        assert_eq!(f32::from_bits(v.to_bits()).to_bits(), bits);
    }
    for f in [0.1f32, -0.0, 0.0, 1.0, f32::NAN, f32::INFINITY, f32::MIN_POSITIVE] {
        let v = F32::from_bits(f.to_bits());
        let back = f32::from_bits(v.to_bits());
        assert_eq!(f.to_bits(), back.to_bits());
    }
}

#[test]
fn f64_native_round_trip() {
    for f in [0.1f64, -0.0, 0.0, 1.0, f64::NAN, f64::INFINITY, f64::MIN_POSITIVE] {
        let v = F64::from_bits(f.to_bits());
        let back = f64::from_bits(v.to_bits());
        assert_eq!(f.to_bits(), back.to_bits());
    }
    // The documented example value.
    let y = F64::from_bits(0.1f64.to_bits());
    assert_eq!(0x3fb999999999999a, y.to_bits());
}

#[test]
fn f32_neg_involution() {
    for bits in f32_samples() {
        let v = F32::from_bits(bits);
        assert_eq!(v.neg().neg(), v);
        assert_eq!(v.neg().to_bits(), bits ^ 0x80000000);
    }
}

#[test]
fn f32_abs_idempotent_and_sign_positive() {
    for bits in f32_samples() {
        let v = F32::from_bits(bits);
        assert_eq!(v.abs().abs(), v.abs());
        assert!(v.abs().is_sign_positive());
        assert_eq!(v.abs().to_bits(), bits & 0x7fffffff);
        assert_eq!(v.abs().classify(), v.classify());
    }
}

#[test]
fn f32_copysign_magnitude_and_sign() {
    for v_bits in f32_samples() {
        for s_bits in [0x00000000u32, 0x80000000, 0x3f800000, 0xffc00001] {
            let v = F32::from_bits(v_bits);
            let s = F32::from_bits(s_bits);
            let r = v.copysign(s);
            assert_eq!(r.to_bits() & 0x7fffffff, v_bits & 0x7fffffff);
            assert_eq!(r.to_bits() & 0x80000000, s_bits & 0x80000000);
            assert_eq!(r.is_sign_negative(), s.is_sign_negative());
            assert_eq!(r.classify(), v.classify());
        }
    }
}

#[test]
fn f32_signum() {
    assert_eq!(F32::zero().signum(), F32::one());
    assert_eq!(F32::neg_zero().signum(), F32::neg_one());
    assert_eq!(F32::infinity().signum(), F32::one());
    assert_eq!(F32::neg_infinity().signum(), F32::neg_one());
    assert_eq!(F32::one().signum(), F32::one());
    assert_eq!(F32::min().signum(), F32::neg_one());
    // NaN keeps its exact payload.
    let nan = F32::from_bits(0x7fc01234);
    assert_eq!(nan.signum(), nan);
    let neg_nan = F32::from_bits(0xff801234);
    assert_eq!(neg_nan.signum(), neg_nan);
}

#[test]
fn f32_constants_bit_patterns() {
    assert_eq!(F32::zero().to_bits(), 0x00000000);
    assert_eq!(F32::neg_zero().to_bits(), 0x80000000);
    assert_eq!(F32::one().to_bits(), 0x3f800000);
    assert_eq!(F32::neg_one().to_bits(), 0xbf800000);
    assert_eq!(F32::infinity().to_bits(), 0x7f800000);
    assert_eq!(F32::neg_infinity().to_bits(), 0xff800000);
    assert_eq!(F32::snan().to_bits(), 0x7f800001);
    assert_eq!(F32::qnan().to_bits(), 0x7fc00001);
    assert_eq!(F32::neg_snan().to_bits(), 0xff800001);
    assert_eq!(F32::neg_qnan().to_bits(), 0xffc00001);
    assert_eq!(F32::nan().to_bits(), F32::qnan().to_bits());
    assert_eq!(F32::max().to_bits(), 0x7f7fffff);
    assert_eq!(F32::min().to_bits(), 0xff7fffff);
    assert_eq!(F32::min_positive().to_bits(), 0x00800000);
    assert_eq!(F32::max_negative().to_bits(), 0x80800000);
    assert_eq!(F32::default().to_bits(), 0x00000000);
    assert_eq!(F32::max().to_bits(), f32::MAX.to_bits());
    assert_eq!(F32::min().to_bits(), f32::MIN.to_bits());
    assert_eq!(F32::min_positive().to_bits(), f32::MIN_POSITIVE.to_bits());
}

#[test]
fn f64_constants_bit_patterns() {
    assert_eq!(F64::zero().to_bits(), 0x0000000000000000);
    assert_eq!(F64::neg_zero().to_bits(), 0x8000000000000000);
    assert_eq!(F64::one().to_bits(), 0x3ff0000000000000);
    assert_eq!(F64::neg_one().to_bits(), 0xbff0000000000000);
    assert_eq!(F64::infinity().to_bits(), 0x7ff0000000000000);
    assert_eq!(F64::neg_infinity().to_bits(), 0xfff0000000000000);
    assert_eq!(F64::snan().to_bits(), 0x7ff0000000000001);
    assert_eq!(F64::qnan().to_bits(), 0x7ff8000000000001);
    assert_eq!(F64::max().to_bits(), 0x7fefffffffffffff);
    assert_eq!(F64::min().to_bits(), 0xffefffffffffffff);
    assert_eq!(F64::min_positive().to_bits(), 0x0010000000000000);
    assert_eq!(F64::max_negative().to_bits(), 0x8010000000000000);
    assert_eq!(F64::default().to_bits(), 0x0000000000000000);
    assert_eq!(F64::max().to_bits(), f64::MAX.to_bits());
    assert_eq!(F64::min().to_bits(), f64::MIN.to_bits());
    assert_eq!(F64::min_positive().to_bits(), f64::MIN_POSITIVE.to_bits());
}

#[test]
fn f16_constants_bit_patterns() {
    assert_eq!(F16::zero().to_bits(), 0x0000);
    assert_eq!(F16::neg_zero().to_bits(), 0x8000);
    assert_eq!(F16::one().to_bits(), 0x3c00);
    assert_eq!(F16::neg_one().to_bits(), 0xbc00);
    assert_eq!(F16::infinity().to_bits(), 0x7c00);
    assert_eq!(F16::neg_infinity().to_bits(), 0xfc00);
    assert_eq!(F16::snan().to_bits(), 0x7c01);
    assert_eq!(F16::qnan().to_bits(), 0x7e01);
    assert_eq!(F16::max().to_bits(), 0x7bff);
    assert_eq!(F16::min().to_bits(), 0xfbff);
    assert_eq!(F16::min_positive().to_bits(), 0x0400);
    assert_eq!(F16::max_negative().to_bits(), 0x8400);
}

#[test]
fn bf16_constants_bit_patterns() {
    assert_eq!(BF16::zero().to_bits(), 0x0000);
    assert_eq!(BF16::neg_zero().to_bits(), 0x8000);
    assert_eq!(BF16::one().to_bits(), 0x3f80);
    assert_eq!(BF16::neg_one().to_bits(), 0xbf80);
    assert_eq!(BF16::infinity().to_bits(), 0x7f80);
    assert_eq!(BF16::neg_infinity().to_bits(), 0xff80);
    assert_eq!(BF16::snan().to_bits(), 0x7f81);
    assert_eq!(BF16::qnan().to_bits(), 0x7fc1);
    assert_eq!(BF16::max().to_bits(), 0x7f7f);
    assert_eq!(BF16::min().to_bits(), 0xff7f);
    assert_eq!(BF16::min_positive().to_bits(), 0x0080);
    assert_eq!(BF16::max_negative().to_bits(), 0x8080);
}

#[test]
fn f128_constants_bit_patterns() {
    assert_eq!(F128::zero().to_bits(), 0x00000000000000000000000000000000);
    assert_eq!(F128::neg_zero().to_bits(), 0x80000000000000000000000000000000);
    assert_eq!(F128::one().to_bits(), 0x3fff0000000000000000000000000000);
    assert_eq!(F128::neg_one().to_bits(), 0xbfff0000000000000000000000000000);
    assert_eq!(F128::infinity().to_bits(), 0x7fff0000000000000000000000000000);
    assert_eq!(F128::neg_infinity().to_bits(), 0xffff0000000000000000000000000000);
    assert_eq!(F128::snan().to_bits(), 0x7fff0000000000000000000000000001);
    assert_eq!(F128::qnan().to_bits(), 0x7fff8000000000000000000000000001);
    assert_eq!(F128::max().to_bits(), 0x7ffeffffffffffffffffffffffffffff);
    assert_eq!(F128::min().to_bits(), 0xfffeffffffffffffffffffffffffffff);
    assert_eq!(F128::min_positive().to_bits(), 0x00010000000000000000000000000000);
    assert_eq!(F128::max_negative().to_bits(), 0x80010000000000000000000000000000);
}

#[test]
fn narrow_formats_sign_ops() {
    for bits in [0x0000u16, 0x8000, 0x0001, 0x3c00, 0xbc00, 0x7c00, 0x7e01, 0xffff] {
        let v = F16::from_bits(bits);
        assert_eq!(v.neg().neg(), v);
        assert_eq!(v.abs().to_bits(), bits & 0x7fff);
        assert!(v.abs().is_sign_positive());
    }
    for bits in [0x0000u16, 0x8000, 0x0001, 0x3f80, 0xbf80, 0x7f80, 0x7fc1, 0xffff] {
        let v = BF16::from_bits(bits);
        assert_eq!(v.neg().neg(), v);
        assert_eq!(v.abs().to_bits(), bits & 0x7fff);
        assert!(v.abs().is_sign_positive());
    }
    let big = F128::from_bits(0xffff8000000000000000000000000001);
    assert_eq!(big.neg().neg(), big);
    assert!(big.abs().is_sign_positive());
    assert_eq!(big.abs().to_bits(), 0x7fff8000000000000000000000000001);
}
