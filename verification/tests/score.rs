use sip::score::TrustScore;

fn score(value: f64) -> TrustScore {
    TrustScore::from_bits(value.to_bits())
}

fn sample_values() -> Vec<f64> {
    vec![
        0.0,
        -0.0,
        1.0,
        -1.0,
        0.1,
        5.0,
        7.999999999999999,
        8.0,
        8.000000000000002,
        9.0,
        10.0,
        -10.5,
        1e-320,
        -1e-320,
        f64::MIN_POSITIVE,
        f64::MAX,
        f64::MIN,
        f64::INFINITY,
        f64::NEG_INFINITY,
        f64::NAN,
        -f64::NAN,
    ]
}

#[test]
fn score_equal_to_threshold_is_trusted() {
    assert!(score(8.0).at_least(&score(8.0)));
}

#[test]
fn score_just_below_threshold_is_not_trusted() {
    let below = TrustScore::from_bits(8.0f64.to_bits() - 1);
    assert!(f64::from_bits(below.to_bits()) < 8.0);
    assert!(!below.at_least(&score(8.0)));
}

#[test]
fn score_just_above_threshold_is_trusted() {
    let above = TrustScore::from_bits(8.0f64.to_bits() + 1);
    assert!(above.at_least(&score(8.0)));
}

#[test]
fn comparison_agrees_with_double_precision_numbers() {
    for a in sample_values() {
        for b in sample_values() {
            assert_eq!(score(a).at_least(&score(b)), a >= b, "{} >= {}", a, b);
        }
    }
}

#[test]
fn not_a_number_is_recognised() {
    for a in sample_values() {
        assert_eq!(score(a).not_a_number(), a.is_nan(), "{}", a);
    }
}

#[test]
fn not_a_number_never_meets_a_threshold() {
    assert!(!score(f64::NAN).at_least(&score(0.0)));
    assert!(!score(0.0).at_least(&score(f64::NAN)));
    assert!(!score(f64::NAN).at_least(&score(f64::NAN)));
}

#[test]
fn both_zeros_are_the_same_number() {
    assert!(score(0.0).at_least(&score(-0.0)));
    assert!(score(-0.0).at_least(&score(0.0)));
}

#[test]
fn scores_out_of_the_nominal_range_compare_as_numbers() {
    assert!(score(42.0).at_least(&score(10.0)));
    assert!(!score(-3.0).at_least(&score(-2.0)));
    assert!(score(-2.0).at_least(&score(-3.0)));
}

#[test]
fn zero_and_neutral_scores_have_their_values() {
    assert_eq!(f64::from_bits(TrustScore::zero().to_bits()), 0.0);
    assert_eq!(f64::from_bits(TrustScore::neutral().to_bits()), 5.0);
}

#[test]
fn bits_round_trip() {
    for a in sample_values() {
        assert_eq!(score(a).to_bits(), a.to_bits());
    }
}
