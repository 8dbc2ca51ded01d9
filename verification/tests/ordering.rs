use std::cmp::Ordering;

use float_bits::{BF16, F128, F16, F32, F64};

#[test]
fn f32_ordering_scenario() {
    assert_eq!(F32::neg_qnan().total_cmp(F32::neg_snan()), Ordering::Less);
    assert_eq!(F32::neg_snan().total_cmp(F32::neg_infinity()), Ordering::Less);
    assert_eq!(F32::neg_zero().total_cmp(F32::zero()), Ordering::Less);
    assert_eq!(F32::zero().total_cmp(F32::min_positive()), Ordering::Less);
    assert_eq!(F32::snan().total_cmp(F32::qnan()), Ordering::Less);
}

// The full `totalOrder` sequence for binary32, one representative per step.
fn f32_ascending() -> Vec<F32> {
    vec![
        F32::neg_qnan(),
        F32::neg_snan(),
        F32::neg_infinity(),
        F32::min(),
        F32::neg_one(),
        F32::max_negative(),
        F32::from_bits(0x80000001), // negative subnormal
        F32::neg_zero(),
        F32::zero(),
        F32::from_bits(0x00000001), // positive subnormal
        F32::min_positive(),
        F32::one(),
        F32::max(),
        F32::infinity(),
        F32::snan(),
        F32::qnan(),
    ]
}

#[test]
fn f32_total_order_sequence() {
    let seq = f32_ascending();
    for i in 0..seq.len() {
        for j in 0..seq.len() {
            let expected = i.cmp(&j);
            assert_eq!(seq[i].total_cmp(seq[j]), expected, "at {} vs {}", i, j);
        }
    }
}

#[test]
fn f32_total_order_laws_on_samples() {
    let seq = f32_ascending();
    // Totality with antisymmetry: each pair is ordered, equality only on
    // identical bits, and the order flips with the arguments.
    for a in &seq {
        for b in &seq {
            let ab = a.total_cmp(*b);
            let ba = b.total_cmp(*a);
            match ab {
                Ordering::Less => assert_eq!(ba, Ordering::Greater),
                Ordering::Equal => {
                    assert_eq!(a.to_bits(), b.to_bits());
                    assert_eq!(ba, Ordering::Equal);
                }
                Ordering::Greater => assert_eq!(ba, Ordering::Less),
            }
        }
    }
    // Transitivity over every triple of the samples.
    for a in &seq {
        for b in &seq {
            for c in &seq {
                if a.total_cmp(*b) == Ordering::Less && b.total_cmp(*c) == Ordering::Less {
                    assert_eq!(a.total_cmp(*c), Ordering::Less);
                }
            }
        }
    }
}

#[test]
fn f32_nan_payloads_are_ordered() {
    // Ties within the NaN category are ordered by payload under the same
    // transform; equal bit patterns are the only Equal case.
    let small_payload = F32::from_bits(0x7f800001);
    let large_payload = F32::from_bits(0x7fffffff);
    assert_eq!(small_payload.total_cmp(large_payload), Ordering::Less);
    assert_eq!(large_payload.total_cmp(large_payload), Ordering::Equal);
    let neg_small = F32::from_bits(0xff800001);
    let neg_large = F32::from_bits(0xffffffff);
    assert_eq!(neg_large.total_cmp(neg_small), Ordering::Less);
}

#[test]
fn f32_partial_ord_matches_total_cmp() {
    let seq = f32_ascending();
    for a in &seq {
        for b in &seq {
            assert_eq!(a.partial_cmp(b), Some(a.total_cmp(*b)));
            assert_eq!(*a < *b, a.total_cmp(*b) == Ordering::Less);
            assert_eq!(*a > *b, a.total_cmp(*b) == Ordering::Greater);
        }
    }
}

#[test]
fn f64_ordering_scenario() {
    assert_eq!(F64::neg_qnan().total_cmp(F64::neg_snan()), Ordering::Less);
    assert_eq!(F64::neg_snan().total_cmp(F64::neg_infinity()), Ordering::Less);
    assert_eq!(F64::neg_infinity().total_cmp(F64::min()), Ordering::Less);
    assert_eq!(F64::neg_zero().total_cmp(F64::zero()), Ordering::Less);
    assert_eq!(F64::zero().total_cmp(F64::min_positive()), Ordering::Less);
    assert_eq!(F64::max().total_cmp(F64::infinity()), Ordering::Less);
    assert_eq!(F64::infinity().total_cmp(F64::snan()), Ordering::Less);
    assert_eq!(F64::snan().total_cmp(F64::qnan()), Ordering::Less);
}

#[test]
fn narrow_formats_ordering_scenario() {
    assert_eq!(F16::neg_qnan().total_cmp(F16::neg_snan()), Ordering::Less);
    assert_eq!(F16::neg_zero().total_cmp(F16::zero()), Ordering::Less);
    assert_eq!(F16::one().total_cmp(F16::infinity()), Ordering::Less);
    assert_eq!(F16::snan().total_cmp(F16::qnan()), Ordering::Less);
    assert_eq!(BF16::neg_qnan().total_cmp(BF16::neg_snan()), Ordering::Less);
    assert_eq!(BF16::neg_zero().total_cmp(BF16::zero()), Ordering::Less);
    assert_eq!(BF16::one().total_cmp(BF16::infinity()), Ordering::Less);
    assert_eq!(BF16::snan().total_cmp(BF16::qnan()), Ordering::Less);
    assert_eq!(F128::neg_qnan().total_cmp(F128::neg_snan()), Ordering::Less);
    assert_eq!(F128::neg_zero().total_cmp(F128::zero()), Ordering::Less);
    assert_eq!(F128::one().total_cmp(F128::infinity()), Ordering::Less);
    assert_eq!(F128::snan().total_cmp(F128::qnan()), Ordering::Less);
}

#[test]
fn f32_total_cmp_agrees_with_native() {
    let samples: [u32; 10] = [
        0x00000000, 0x80000000, 0x00000001, 0x80000001, 0x3f800000, 0xbf800000, 0x7f7fffff,
        0xff7fffff, 0x7f800000, 0xff800000,
    ];
    for a_bits in samples {
        for b_bits in samples {
            let a = F32::from_bits(a_bits);
            let b = F32::from_bits(b_bits);
            let native = f32::from_bits(a_bits).total_cmp(&f32::from_bits(b_bits));
            assert_eq!(a.total_cmp(b), native);
        }
    }
}
