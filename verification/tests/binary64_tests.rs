use neural_network::binary64::{
    clamp, holds_nan, larger, ranks_below, rectify, NEGATIVE_INFINITY, POSITIVE_INFINITY, SIGN_BIT,
    ZERO,
};
use neural_network::loss_function::cross_entropy::{CLIP_HIGH, CLIP_LOW, ONE};

fn sample_numbers() -> Vec<f64> {
    vec![
        0.0,
        -0.0,
        1.0,
        -1.0,
        0.5,
        -0.001,
        1e-7,
        1.0 - 1e-7,
        123.456,
        -123.456,
        1e300,
        -1e300,
        5e-324,
        -5e-324,
        f64::MIN_POSITIVE,
        f64::MAX,
        f64::MIN,
        f64::INFINITY,
        f64::NEG_INFINITY,
    ]
}

#[test]
fn named_patterns_are_the_numbers_they_stand_for() {
    assert_eq!(ZERO, 0.0f64.to_bits());
    assert_eq!(SIGN_BIT, (-0.0f64).to_bits());
    assert_eq!(POSITIVE_INFINITY, f64::INFINITY.to_bits());
    assert_eq!(NEGATIVE_INFINITY, f64::NEG_INFINITY.to_bits());
    assert_eq!(ONE, 1.0f64.to_bits());
    assert_eq!(CLIP_LOW, 1e-7f64.to_bits());
    assert_eq!(CLIP_HIGH, (1.0f64 - 1e-7f64).to_bits());
}

#[test]
fn rank_order_is_the_order_of_the_numbers() {
    let numbers = sample_numbers();
    for a in numbers.iter() {
        for b in numbers.iter() {
            assert_eq!(ranks_below(a.to_bits(), b.to_bits()), a < b, "{} < {}", a, b);
        }
    }
}

#[test]
fn both_zeros_rank_alike() {
    assert!(!ranks_below(ZERO, SIGN_BIT));
    assert!(!ranks_below(SIGN_BIT, ZERO));
}

#[test]
fn nan_is_told_from_numbers() {
    assert!(holds_nan(f64::NAN.to_bits()));
    assert!(holds_nan((-f64::NAN).to_bits()));
    assert!(holds_nan(0x7ff0_0000_0000_0001));
    assert!(holds_nan(0xffff_ffff_ffff_ffff));
    for a in sample_numbers() {
        assert!(!holds_nan(a.to_bits()), "{}", a);
    }
}

#[test]
fn rectify_is_max_with_zero() {
    for a in sample_numbers() {
        let got = f64::from_bits(rectify(a.to_bits()));
        assert_eq!(got, a.max(0.0), "{}", a);
        assert!(got.is_sign_positive());
    }
    assert_eq!(rectify(2.5f64.to_bits()), 2.5f64.to_bits());
    assert_eq!(rectify((-2.5f64).to_bits()), ZERO);
    assert_eq!(rectify(SIGN_BIT), ZERO);
    assert_eq!(rectify(f64::NAN.to_bits()), f64::NAN.max(0.0).to_bits());
}

#[test]
fn rectify_twice_is_rectify_once() {
    for a in sample_numbers() {
        let once = rectify(a.to_bits());
        assert_eq!(rectify(once), once);
    }
    let once = rectify(f64::NAN.to_bits());
    assert_eq!(rectify(once), once);
}

#[test]
fn clamp_agrees_with_the_numbers() {
    let bounds: [(f64, f64); 4] = [(1e-7, 1.0 - 1e-7), (-2.0, 3.0), (0.0, 0.0), (-1e300, -1.0)];
    for (low, high) in bounds {
        for a in sample_numbers() {
            let got = clamp(a.to_bits(), low.to_bits(), high.to_bits());
            assert_eq!(f64::from_bits(got), a.clamp(low, high), "{} in {}..{}", a, low, high);
        }
    }
    assert_eq!(clamp(0.7f64.to_bits(), CLIP_LOW, CLIP_HIGH), 0.7f64.to_bits());
    assert_eq!(clamp(0.0f64.to_bits(), CLIP_LOW, CLIP_HIGH), CLIP_LOW);
    assert_eq!(clamp(1.0f64.to_bits(), CLIP_LOW, CLIP_HIGH), CLIP_HIGH);
    assert_eq!(clamp((-3.0f64).to_bits(), CLIP_LOW, CLIP_HIGH), CLIP_LOW);
}

#[test]
fn clamp_keeps_nan() {
    let nan = f64::NAN.to_bits();
    assert_eq!(clamp(nan, CLIP_LOW, CLIP_HIGH), nan);
    assert!(f64::NAN.clamp(1e-7, 1.0 - 1e-7).is_nan());
}

#[test]
fn larger_agrees_with_the_numbers() {
    for a in sample_numbers() {
        for b in sample_numbers() {
            let got = f64::from_bits(larger(a.to_bits(), b.to_bits()));
            assert_eq!(got, a.max(b), "max of {} and {}", a, b);
        }
    }
}

#[test]
fn larger_prefers_a_number_to_nan() {
    let nan = f64::NAN.to_bits();
    assert_eq!(larger(nan, 2.0f64.to_bits()), 2.0f64.to_bits());
    assert_eq!(larger(2.0f64.to_bits(), nan), 2.0f64.to_bits());
    assert_eq!(larger(NEGATIVE_INFINITY, nan), NEGATIVE_INFINITY);
}

#[test]
fn larger_keeps_the_left_operand_on_a_tie() {
    assert_eq!(larger(ZERO, SIGN_BIT), ZERO);
    assert_eq!(larger(SIGN_BIT, ZERO), SIGN_BIT);
}
