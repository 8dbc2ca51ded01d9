use float_bits::{F32, F64};

#[test]
fn f32_clamp_within_bounds() {
    let min = F32::neg_one();
    let max = F32::one();
    assert_eq!(F32::zero().clamp(min, max), F32::zero());
    assert_eq!(F32::neg_zero().clamp(min, max), F32::neg_zero());
    assert_eq!(F32::one().clamp(min, max), F32::one());
    assert_eq!(F32::neg_one().clamp(min, max), F32::neg_one());
}

#[test]
fn f32_clamp_below_and_above() {
    let min = F32::neg_one();
    let max = F32::one();
    assert_eq!(F32::neg_infinity().clamp(min, max), min);
    assert_eq!(F32::min().clamp(min, max), min);
    assert_eq!(F32::infinity().clamp(min, max), max);
    assert_eq!(F32::max().clamp(min, max), max);
    let two = F32::from_bits(0x40000000);
    assert_eq!(two.clamp(min, max), max);
    let neg_two = F32::from_bits(0xc0000000);
    assert_eq!(neg_two.clamp(min, max), min);
}

#[test]
fn f32_clamp_nan_passes_through() {
    let min = F32::neg_one();
    let max = F32::one();
    // A NaN input is returned unchanged, exact payload included.
    let nan = F32::from_bits(0x7fc01234);
    assert_eq!(nan.clamp(min, max), nan);
    let neg_nan = F32::from_bits(0xffc01234);
    assert_eq!(neg_nan.clamp(min, max), neg_nan);
}

#[test]
fn f32_clamp_signed_zero_bounds() {
    // -0.0 orders strictly below +0.0, so clamping moves across the zeros.
    let min = F32::zero();
    let max = F32::one();
    assert_eq!(F32::neg_zero().clamp(min, max), F32::zero());
    let min2 = F32::neg_one();
    let max2 = F32::neg_zero();
    assert_eq!(F32::zero().clamp(min2, max2), F32::neg_zero());
}

#[test]
fn f32_clamp_equal_bounds() {
    let one = F32::one();
    assert_eq!(F32::zero().clamp(one, one), one);
    assert_eq!(F32::infinity().clamp(one, one), one);
    assert_eq!(one.clamp(one, one), one);
}

#[test]
fn f32_checked_clamp_rejects_bad_bounds() {
    let xs = [
        F32::zero(),
        F32::one(),
        F32::neg_infinity(),
        F32::qnan(),
        F32::from_bits(0xdeadbeef),
    ];
    for x in xs {
        // Either bound NaN is fatal for every input.
        assert_eq!(x.checked_clamp(F32::qnan(), F32::one()), None);
        assert_eq!(x.checked_clamp(F32::neg_snan(), F32::one()), None);
        assert_eq!(x.checked_clamp(F32::neg_one(), F32::snan()), None);
        assert_eq!(x.checked_clamp(F32::qnan(), F32::neg_qnan()), None);
        // So is min ordering after max.
        assert_eq!(x.checked_clamp(F32::one(), F32::neg_one()), None);
        assert_eq!(x.checked_clamp(F32::zero(), F32::neg_zero()), None);
    }
}

#[test]
fn f32_checked_clamp_accepts_valid_bounds() {
    let min = F32::neg_one();
    let max = F32::one();
    for bits in [0x00000000u32, 0x80000000, 0x40000000, 0xc0000000, 0x7fc01234] {
        let x = F32::from_bits(bits);
        assert_eq!(x.checked_clamp(min, max), Some(x.clamp(min, max)));
    }
    // Infinities are valid bounds: only NaN and inverted bounds are rejected.
    assert_eq!(
        F32::zero().checked_clamp(F32::neg_infinity(), F32::infinity()),
        Some(F32::zero())
    );
}

#[test]
fn f64_clamp_matches_f32_behaviour() {
    let min = F64::neg_one();
    let max = F64::one();
    assert_eq!(F64::neg_infinity().clamp(min, max), min);
    assert_eq!(F64::infinity().clamp(min, max), max);
    assert_eq!(F64::zero().clamp(min, max), F64::zero());
    let nan = F64::from_bits(0x7ff8000000001234);
    assert_eq!(nan.clamp(min, max), nan);
    assert_eq!(F64::zero().checked_clamp(F64::qnan(), max), None);
    assert_eq!(F64::zero().checked_clamp(min, F64::neg_qnan()), None);
    assert_eq!(F64::zero().checked_clamp(max, min), None);
    assert_eq!(F64::neg_zero().checked_clamp(F64::zero(), max), Some(F64::zero()));
}
