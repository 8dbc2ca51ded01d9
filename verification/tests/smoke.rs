use float_bits::{Category, F32, F64};

fn f32_native(val: F32) -> f32 {
    f32::from_bits(val.to_bits())
}

fn f64_native(val: F64) -> f64 {
    f64::from_bits(val.to_bits())
}

#[test]
fn f32_smoke_test() {
    let p_zero: F32 = F32::zero();
    let n_zero: F32 = F32::neg_zero();
    let p_tiny: F32 = F32::min_positive();
    let n_tiny: F32 = F32::max_negative();
    let p_one: F32 = F32::one();
    let n_one: F32 = F32::neg_one();
    let p_max: F32 = F32::max();
    let n_max: F32 = F32::min();
    let p_inf: F32 = F32::infinity();
    let n_inf: F32 = F32::neg_infinity();
    let p_qnan: F32 = F32::qnan();
    let p_snan: F32 = F32::snan();
    let n_qnan: F32 = F32::neg_qnan();
    let n_snan: F32 = F32::neg_snan();

    type Row = (u32, Category, bool, F32, f32);
    let rows: [Row; 14] = [
        (0x00000000, Category::Zero, false, p_zero, 0.0),
        (0x80000000, Category::Zero, true, n_zero, -0.0),
        (0x00800000, Category::Normal, false, p_tiny, f32::MIN_POSITIVE),
        (0x80800000, Category::Normal, true, n_tiny, -f32::MIN_POSITIVE),
        (0x3f800000, Category::Normal, false, p_one, 1.0),
        (0xbf800000, Category::Normal, true, n_one, -1.0),
        (0x7f7fffff, Category::Normal, false, p_max, f32::MAX),
        (0xff7fffff, Category::Normal, true, n_max, -f32::MAX),
        (0x7f800000, Category::Infinite, false, p_inf, f32::INFINITY),
        (0xff800000, Category::Infinite, true, n_inf, f32::NEG_INFINITY),
        (0x7f800001, Category::Nan, false, p_snan, f32::NAN),
        (0x7fc00001, Category::Nan, false, p_qnan, f32::NAN),
        (0xff800001, Category::Nan, true, n_snan, f32::NAN),
        (0xffc00001, Category::Nan, true, n_qnan, f32::NAN),
    ];
    for (bits, class, neg, val, float) in rows {
        assert_eq!(neg, val.is_sign_negative());
        assert_eq!(class, val.classify());
        assert_eq!(float.is_nan(), val.is_nan());
        if !val.is_nan() {
            assert_eq!(float, f32_native(val));
        }
        assert_eq!(bits, val.to_bits());
    }
}

#[test]
fn f64_smoke_test() {
    let p_zero: F64 = F64::zero();
    let n_zero: F64 = F64::neg_zero();
    let p_tiny: F64 = F64::min_positive();
    let n_tiny: F64 = F64::max_negative();
    let p_one: F64 = F64::one();
    let n_one: F64 = F64::neg_one();
    let p_max: F64 = F64::max();
    let n_max: F64 = F64::min();
    let p_inf: F64 = F64::infinity();
    let n_inf: F64 = F64::neg_infinity();
    let p_qnan: F64 = F64::qnan();
    let p_snan: F64 = F64::snan();
    let n_qnan: F64 = F64::neg_qnan();
    let n_snan: F64 = F64::neg_snan();

    type Row = (u64, Category, bool, F64, f64);
    let rows: [Row; 14] = [
        (0x0000000000000000, Category::Zero, false, p_zero, 0.0),
        (0x8000000000000000, Category::Zero, true, n_zero, -0.0),
        (0x0010000000000000, Category::Normal, false, p_tiny, f64::MIN_POSITIVE),
        (0x8010000000000000, Category::Normal, true, n_tiny, -f64::MIN_POSITIVE),
        (0x3ff0000000000000, Category::Normal, false, p_one, 1.0),
        (0xbff0000000000000, Category::Normal, true, n_one, -1.0),
        (0x7fefffffffffffff, Category::Normal, false, p_max, f64::MAX),
        (0xffefffffffffffff, Category::Normal, true, n_max, -f64::MAX),
        (0x7ff0000000000000, Category::Infinite, false, p_inf, f64::INFINITY),
        (0xfff0000000000000, Category::Infinite, true, n_inf, f64::NEG_INFINITY),
        (0x7ff0000000000001, Category::Nan, false, p_snan, f64::NAN),
        (0x7ff8000000000001, Category::Nan, false, p_qnan, f64::NAN),
        (0xfff0000000000001, Category::Nan, true, n_snan, f64::NAN),
        (0xfff8000000000001, Category::Nan, true, n_qnan, f64::NAN),
    ];
    for (bits, class, neg, val, float) in rows {
        assert_eq!(neg, val.is_sign_negative());
        assert_eq!(class, val.classify());
        assert_eq!(float.is_nan(), val.is_nan());
        if !val.is_nan() {
            assert_eq!(float, f64_native(val));
        }
        assert_eq!(bits, val.to_bits());
    }
}
