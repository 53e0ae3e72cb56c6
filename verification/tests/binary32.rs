use camera_view::binary32::{is_finite, is_nan, is_negative, is_positive, is_zero, ONE, POSITIVE_ZERO};

#[test]
fn constants_are_the_encodings_they_name() {
    assert_eq!(POSITIVE_ZERO, 0.0f32.to_bits());
    assert_eq!(ONE, 1.0f32.to_bits());
}

#[test]
fn zeros_of_both_signs_are_zero() {
    assert!(is_zero(0.0f32.to_bits()));
    assert!(is_zero((-0.0f32).to_bits()));
    assert!(!is_zero(f32::MIN_POSITIVE.to_bits()));
    assert!(!is_zero(1u32));
    assert!(!is_zero(f32::NAN.to_bits()));
    assert!(!is_zero(f32::INFINITY.to_bits()));
}

#[test]
fn finite_excludes_infinities_and_nan() {
    assert!(is_finite(0.0f32.to_bits()));
    assert!(is_finite(f32::MAX.to_bits()));
    assert!(is_finite(f32::MIN.to_bits()));
    assert!(is_finite(1u32));
    assert!(!is_finite(f32::INFINITY.to_bits()));
    assert!(!is_finite(f32::NEG_INFINITY.to_bits()));
    assert!(!is_finite(f32::NAN.to_bits()));
    assert!(!is_finite(0xffff_ffff));
}

#[test]
fn nan_is_any_payload_of_either_sign() {
    assert!(is_nan(f32::NAN.to_bits()));
    assert!(is_nan(0x7f80_0001));
    assert!(is_nan(0xff80_0001));
    assert!(is_nan(0xffff_ffff));
    assert!(!is_nan(f32::INFINITY.to_bits()));
    assert!(!is_nan(f32::NEG_INFINITY.to_bits()));
    assert!(!is_nan(1.5f32.to_bits()));
}

#[test]
fn positive_is_finite_and_above_zero() {
    assert!(is_positive(1.0f32.to_bits()));
    assert!(is_positive(1u32));
    assert!(is_positive(f32::MAX.to_bits()));
    assert!(!is_positive(0.0f32.to_bits()));
    assert!(!is_positive((-0.0f32).to_bits()));
    assert!(!is_positive((-1.0f32).to_bits()));
    assert!(!is_positive(f32::INFINITY.to_bits()));
    assert!(!is_positive(f32::NAN.to_bits()));
}

#[test]
fn negative_is_below_zero() {
    assert!(is_negative((-1.0f32).to_bits()));
    assert!(is_negative(0x8000_0001));
    assert!(is_negative(f32::NEG_INFINITY.to_bits()));
    assert!(!is_negative((-0.0f32).to_bits()));
    assert!(!is_negative(0.0f32.to_bits()));
    assert!(!is_negative(1.0f32.to_bits()));
    assert!(!is_negative(0xff80_0001));
    assert!(!is_negative(f32::INFINITY.to_bits()));
}

#[test]
fn classification_matches_the_numbers() {
    let samples: [f32; 12] = [
        0.0,
        -0.0,
        1.0,
        -1.0,
        1.0e-45,
        -1.0e-45,
        3.4e38,
        -3.4e38,
        f32::INFINITY,
        f32::NEG_INFINITY,
        f32::NAN,
        0.000001,
    ];
    for x in samples {
        let bits = x.to_bits();
        assert_eq!(is_finite(bits), x.is_finite());
        assert_eq!(is_nan(bits), x.is_nan());
        assert_eq!(is_zero(bits), x == 0.0);
        assert_eq!(is_positive(bits), x.is_finite() && x > 0.0);
        assert_eq!(is_negative(bits), x < 0.0);
    }
}
