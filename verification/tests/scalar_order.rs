use raytracer::scalar::{Scalar, INFINITY_BITS, MINUS_ONE_BITS, ONE_BITS, SIGN_BIT};

fn s(x: f32) -> Scalar {
    Scalar::from_bits(x.to_bits())
}

fn samples() -> Vec<f32> {
    vec![
        0.0,
        -0.0,
        1.0,
        -1.0,
        0.3,
        -0.3,
        2.0,
        5.0,
        1.0e-40,
        -1.0e-40,
        f32::MIN_POSITIVE,
        -f32::MIN_POSITIVE,
        f32::from_bits(1),
        f32::from_bits(0x8000_0001),
        f32::MAX,
        f32::MIN,
        f32::INFINITY,
        f32::NEG_INFINITY,
        f32::NAN,
        f32::from_bits(0xffc0_0001),
        f32::from_bits(0x7f80_0001),
        1.0000001,
        0.99999994,
        123456.79,
        -123456.79,
    ]
}

#[test]
fn lt_agrees_with_the_floating_point_unit() {
    for a in samples() {
        for b in samples() {
            assert_eq!(s(a).lt(s(b)), a < b, "{:?} < {:?}", a, b);
        }
    }
}

#[test]
fn gt_agrees_with_the_floating_point_unit() {
    for a in samples() {
        for b in samples() {
            assert_eq!(s(a).gt(s(b)), a > b, "{:?} > {:?}", a, b);
        }
    }
}

#[test]
fn is_nan_agrees_with_the_floating_point_unit() {
    for a in samples() {
        assert_eq!(s(a).is_nan(), a.is_nan(), "{:?}", a);
    }
}

#[test]
fn min_is_the_smaller_number_and_skips_nan() {
    for a in samples() {
        for b in samples() {
            let m = f32::from_bits(s(a).min(s(b)).to_bits());
            let expected = a.min(b);
            if expected.is_nan() {
                assert!(m.is_nan(), "min({:?}, {:?})", a, b);
            } else {
                assert_eq!(m, expected, "min({:?}, {:?})", a, b);
            }
        }
    }
}

#[test]
fn min_of_equal_numbers_is_the_first() {
    assert_eq!(s(0.0).min(s(-0.0)), s(0.0));
    assert_eq!(s(-0.0).min(s(0.0)), s(-0.0));
    assert_eq!(s(2.0).min(s(2.0)), s(2.0));
}

#[test]
fn min_gives_way_to_the_other_argument_on_nan() {
    assert_eq!(s(f32::NAN).min(s(3.0)), s(3.0));
    assert_eq!(s(3.0).min(s(f32::NAN)), s(3.0));
}

#[test]
fn zeros_are_not_ordered_among_themselves() {
    assert!(!s(0.0).lt(s(-0.0)));
    assert!(!s(-0.0).lt(s(0.0)));
    assert!(!s(0.0).gt(s(-0.0)));
}

#[test]
fn named_patterns_are_the_numbers_they_name() {
    assert_eq!(Scalar::zero().to_bits(), 0.0f32.to_bits());
    assert_eq!(Scalar::one().to_bits(), 1.0f32.to_bits());
    assert_eq!(Scalar::minus_one().to_bits(), (-1.0f32).to_bits());
    assert_eq!(ONE_BITS, 1.0f32.to_bits());
    assert_eq!(MINUS_ONE_BITS, (-1.0f32).to_bits());
    assert_eq!(INFINITY_BITS, f32::INFINITY.to_bits());
    assert_eq!(SIGN_BIT, (-0.0f32).to_bits());
}

#[test]
fn bits_go_in_and_come_out_unchanged() {
    for a in samples() {
        assert_eq!(Scalar::from_bits(a.to_bits()).to_bits(), a.to_bits());
    }
    assert_eq!(Scalar::from_bits(0x1234_5678).bits, 0x1234_5678);
}

#[test]
fn negate_agrees_with_the_floating_point_unit() {
    for a in samples() {
        assert_eq!(s(a).negate().to_bits(), (-a).to_bits(), "-{:?}", a);
        assert_eq!(s(a).negate().negate(), s(a));
    }
    assert_eq!(s(0.0).negate(), s(-0.0));
    assert_eq!(s(1.5).negate(), s(-1.5));
}

#[test]
fn to_u8_agrees_with_the_cast() {
    let more = [
        0.5f32, 0.99999994, 1.5, 2.0, 127.5, 254.0, 254.99998, 255.0, 255.5, 256.0, 257.0, 1.0e9,
        -3.0, -255.0, 63.75, 3.9999998, 128.00002, 65535.0, 16777216.0,
    ];
    for a in samples().into_iter().chain(more) {
        assert_eq!(s(a).to_u8(), a as u8, "{:?}", a);
    }
    for byte in 0..=255u8 {
        assert_eq!(s(byte as f32).to_u8(), byte);
        assert_eq!(s(byte as f32 + 0.75).to_u8(), byte);
    }
}
