use coe33_asr::float_bits::{
    f32_less, f64_equal, f64_less, F32_HALF, F32_INFINITY, F64_FIVE, F64_INFINITY, F64_TEN,
    F64_ZERO,
};

fn f64_samples() -> Vec<f64> {
    vec![
        0.0, -0.0, 1.0, -1.0, 0.5, 4.999, 5.0, 5.0001, 10.0, 10.5, -10.0, 1e300, -1e300,
        f64::MIN_POSITIVE, -f64::MIN_POSITIVE, 5e-324, f64::INFINITY, f64::NEG_INFINITY, f64::NAN,
        -f64::NAN, f64::MAX, f64::MIN,
    ]
}

fn f32_samples() -> Vec<f32> {
    vec![
        0.0, -0.0, 0.5, 0.49999997, 0.50000006, 1.0, -1.0, -0.5, 1e30, -1e30, 1e-45, f32::INFINITY,
        f32::NEG_INFINITY, f32::NAN, -f32::NAN, f32::MAX, f32::MIN,
    ]
}

#[test]
fn constants_are_the_patterns_of_their_numbers() {
    assert_eq!(F32_HALF, 0.5f32.to_bits());
    assert_eq!(F32_INFINITY, f32::INFINITY.to_bits());
    assert_eq!(F64_ZERO, 0.0f64.to_bits());
    assert_eq!(F64_FIVE, 5.0f64.to_bits());
    assert_eq!(F64_TEN, 10.0f64.to_bits());
    assert_eq!(F64_INFINITY, f64::INFINITY.to_bits());
}

#[test]
fn f64_comparisons_agree_with_the_hardware() {
    for a in f64_samples() {
        for b in f64_samples() {
            assert_eq!(f64_less(a.to_bits(), b.to_bits()), a < b, "{} < {}", a, b);
            assert_eq!(f64_equal(a.to_bits(), b.to_bits()), a == b, "{} == {}", a, b);
        }
    }
}

#[test]
fn f32_comparisons_agree_with_the_hardware() {
    for a in f32_samples() {
        for b in f32_samples() {
            assert_eq!(f32_less(a.to_bits(), b.to_bits()), a < b, "{} < {}", a, b);
        }
    }
}

#[test]
fn zeros_are_equal_and_nan_is_not() {
    assert!(f64_equal(0.0f64.to_bits(), (-0.0f64).to_bits()));
    assert!(!f64_less((-0.0f64).to_bits(), 0.0f64.to_bits()));
    assert!(!f64_equal(f64::NAN.to_bits(), f64::NAN.to_bits()));
    assert!(!f64_less(f64::NAN.to_bits(), 1.0f64.to_bits()));
    assert!(!f64_less(1.0f64.to_bits(), f64::NAN.to_bits()));
}
