use float_bits::{category, Category, BF16, F128, F16, F32, F64};

#[test]
fn f32_classification_boundaries() {
    assert_eq!(F32::from_bits(0x00000000).classify(), Category::Zero);
    assert!(F32::from_bits(0x00000000).is_sign_positive());
    assert_eq!(F32::from_bits(0x80000000).classify(), Category::Zero);
    assert!(F32::from_bits(0x80000000).is_sign_negative());
    assert_eq!(F32::from_bits(0x00000001).classify(), Category::Subnormal);
    assert_eq!(F32::from_bits(0x007fffff).classify(), Category::Subnormal);
    assert_eq!(F32::from_bits(0x00800000).classify(), Category::Normal);
    assert_eq!(F32::from_bits(0x7f7fffff).classify(), Category::Normal);
    assert_eq!(F32::from_bits(0x7f800000).classify(), Category::Infinite);
    assert!(F32::from_bits(0x7f800000).is_sign_positive());
    assert_eq!(F32::from_bits(0x7f800001).classify(), Category::Nan);
    assert_eq!(F32::from_bits(0x7fc00001).classify(), Category::Nan);
}

#[test]
fn f64_classification_boundaries() {
    assert_eq!(F64::from_bits(0x0000000000000000).classify(), Category::Zero);
    assert!(F64::from_bits(0x0000000000000000).is_sign_positive());
    assert_eq!(F64::from_bits(0x8000000000000000).classify(), Category::Zero);
    assert!(F64::from_bits(0x8000000000000000).is_sign_negative());
    assert_eq!(F64::from_bits(0x0000000000000001).classify(), Category::Subnormal);
    assert_eq!(F64::from_bits(0x000fffffffffffff).classify(), Category::Subnormal);
    assert_eq!(F64::from_bits(0x0010000000000000).classify(), Category::Normal);
    assert_eq!(F64::from_bits(0x7fefffffffffffff).classify(), Category::Normal);
    assert_eq!(F64::from_bits(0x7ff0000000000000).classify(), Category::Infinite);
    assert!(F64::from_bits(0x7ff0000000000000).is_sign_positive());
    assert_eq!(F64::from_bits(0x7ff0000000000001).classify(), Category::Nan);
    assert_eq!(F64::from_bits(0x7ff8000000000001).classify(), Category::Nan);
}

#[test]
fn f16_classification_boundaries() {
    assert_eq!(F16::from_bits(0x0000).classify(), Category::Zero);
    assert_eq!(F16::from_bits(0x8000).classify(), Category::Zero);
    assert_eq!(F16::from_bits(0x0001).classify(), Category::Subnormal);
    assert_eq!(F16::from_bits(0x03ff).classify(), Category::Subnormal);
    assert_eq!(F16::from_bits(0x0400).classify(), Category::Normal);
    assert_eq!(F16::from_bits(0x3c00).classify(), Category::Normal);
    assert_eq!(F16::from_bits(0x7bff).classify(), Category::Normal);
    assert_eq!(F16::from_bits(0x7c00).classify(), Category::Infinite);
    assert_eq!(F16::from_bits(0x7c01).classify(), Category::Nan);
    assert_eq!(F16::from_bits(0x7e01).classify(), Category::Nan);
}

#[test]
fn bf16_classification_boundaries() {
    assert_eq!(BF16::from_bits(0x0000).classify(), Category::Zero);
    assert_eq!(BF16::from_bits(0x8000).classify(), Category::Zero);
    assert_eq!(BF16::from_bits(0x0001).classify(), Category::Subnormal);
    assert_eq!(BF16::from_bits(0x007f).classify(), Category::Subnormal);
    assert_eq!(BF16::from_bits(0x0080).classify(), Category::Normal);
    assert_eq!(BF16::from_bits(0x3f80).classify(), Category::Normal);
    assert_eq!(BF16::from_bits(0x7f7f).classify(), Category::Normal);
    assert_eq!(BF16::from_bits(0x7f80).classify(), Category::Infinite);
    assert_eq!(BF16::from_bits(0x7f81).classify(), Category::Nan);
    assert_eq!(BF16::from_bits(0x7fc1).classify(), Category::Nan);
}

#[test]
fn f128_classification_boundaries() {
    assert_eq!(F128::from_bits(0x00000000000000000000000000000000).classify(), Category::Zero);
    assert_eq!(F128::from_bits(0x80000000000000000000000000000000).classify(), Category::Zero);
    assert_eq!(F128::from_bits(0x00000000000000000000000000000001).classify(), Category::Subnormal);
    assert_eq!(F128::from_bits(0x0000ffffffffffffffffffffffffffff).classify(), Category::Subnormal);
    assert_eq!(F128::from_bits(0x00010000000000000000000000000000).classify(), Category::Normal);
    assert_eq!(F128::from_bits(0x3fff0000000000000000000000000000).classify(), Category::Normal);
    assert_eq!(F128::from_bits(0x7ffeffffffffffffffffffffffffffff).classify(), Category::Normal);
    assert_eq!(F128::from_bits(0x7fff0000000000000000000000000000).classify(), Category::Infinite);
    assert_eq!(F128::from_bits(0x7fff0000000000000000000000000001).classify(), Category::Nan);
    assert_eq!(F128::from_bits(0x7fff8000000000000000000000000001).classify(), Category::Nan);
}

#[test]
fn boolean_projections_match_classification() {
    let samples: [u32; 10] = [
        0x00000000, 0x80000000, 0x00000001, 0x807fffff, 0x3f800000, 0xbf800000, 0x7f800000,
        0xff800000, 0x7f800001, 0xffc00001,
    ];
    for bits in samples {
        let v = F32::from_bits(bits);
        let c = v.classify();
        assert_eq!(v.is_zero(), c == Category::Zero);
        assert_eq!(v.is_subnormal(), c == Category::Subnormal);
        assert_eq!(v.is_normal(), c == Category::Normal);
        assert_eq!(v.is_infinite(), c == Category::Infinite);
        assert_eq!(v.is_nan(), c == Category::Nan);
        assert_eq!(
            v.is_finite(),
            c == Category::Zero || c == Category::Subnormal || c == Category::Normal
        );
        assert_eq!(category::is_zero(c), c == Category::Zero);
        assert_eq!(category::is_subnormal(c), c == Category::Subnormal);
        assert_eq!(category::is_normal(c), c == Category::Normal);
        assert_eq!(category::is_infinite(c), c == Category::Infinite);
        assert_eq!(category::is_nan(c), c == Category::Nan);
        assert_eq!(
            category::is_finite(c),
            c == Category::Zero || c == Category::Subnormal || c == Category::Normal
        );
    }
}

#[test]
fn native_classification_agrees() {
    let samples: [u32; 12] = [
        0x00000000, 0x80000000, 0x00000001, 0x807fffff, 0x00800000, 0x3f800000, 0xbf800000,
        0x7f7fffff, 0x7f800000, 0xff800000, 0x7f800001, 0xffc00001,
    ];
    for bits in samples {
        let v = F32::from_bits(bits);
        let f = f32::from_bits(bits);
        let expected = match f.classify() {
            std::num::FpCategory::Zero => Category::Zero,
            std::num::FpCategory::Subnormal => Category::Subnormal,
            std::num::FpCategory::Normal => Category::Normal,
            std::num::FpCategory::Infinite => Category::Infinite,
            std::num::FpCategory::Nan => Category::Nan,
        };
        assert_eq!(v.classify(), expected);
        assert_eq!(v.is_sign_negative(), f.is_sign_negative());
    }
}
