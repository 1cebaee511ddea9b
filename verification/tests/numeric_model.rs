// Cross-checks of the bit-level predicates of `Real` against the IEEE
// semantics of f64: for a spread of doubles, every decision the library
// takes on a bit pattern must agree with the comparison it stands for.

use copulas::Real;

fn rbits(x: f64) -> Real {
    Real::from_bits(x.to_bits())
}

fn sample_values() -> Vec<f64> {
    vec![
        0.0,
        -0.0,
        1.0,
        -1.0,
        0.5,
        -0.5,
        0.25,
        1.5,
        2.0,
        1000.0,
        -1000.0,
        1.0 / 3.0,
        -1.0 / 3.0,
        0.9999999999999999,
        1.0000000000000002,
        -0.9999999999999999,
        -1.0000000000000002,
        f64::MIN_POSITIVE,
        -f64::MIN_POSITIVE,
        5e-324,
        -5e-324,
        f64::MAX,
        f64::MIN,
        f64::INFINITY,
        f64::NEG_INFINITY,
        f64::NAN,
        -f64::NAN,
    ]
}

#[test]
fn strictly_negative_matches_ieee() {
    for x in sample_values() {
        assert_eq!(rbits(x).is_strictly_negative(), x < 0.0, "x = {x:?}");
    }
}

#[test]
fn above_one_matches_ieee() {
    for x in sample_values() {
        assert_eq!(rbits(x).is_above_one(), x > 1.0, "x = {x:?}");
    }
}

#[test]
fn finite_matches_ieee() {
    for x in sample_values() {
        assert_eq!(rbits(x).is_finite(), x.is_finite(), "x = {x:?}");
    }
}

#[test]
fn nan_matches_ieee() {
    for x in sample_values() {
        assert_eq!(rbits(x).is_nan(), x.is_nan(), "x = {x:?}");
    }
}

#[test]
fn zero_valued_matches_ieee() {
    for x in sample_values() {
        assert_eq!(rbits(x).is_zero_valued(), x == 0.0, "x = {x:?}");
    }
}

#[test]
fn unit_gate_matches_ieee() {
    for x in sample_values() {
        assert_eq!(rbits(x).passes_unit_gate(), !(x < 0.0 || x > 1.0), "x = {x:?}");
    }
}

#[test]
fn nonneg_finite_matches_ieee() {
    for x in sample_values() {
        assert_eq!(rbits(x).is_nonneg_finite(), x.is_finite() && !(x < 0.0), "x = {x:?}");
    }
}

#[test]
fn ge_min_pos_normal_matches_ieee() {
    for x in sample_values() {
        assert_eq!(
            rbits(x).is_ge_min_pos_normal(),
            x.is_finite() && x >= f64::MIN_POSITIVE,
            "x = {x:?}"
        );
    }
}

#[test]
fn round_trip_preserves_bits() {
    for x in sample_values() {
        assert_eq!(rbits(x).bits(), x.to_bits(), "x = {x:?}");
    }
}

#[test]
fn one_is_the_double_one() {
    assert_eq!(Real::one().bits(), 1.0f64.to_bits());
    assert_eq!(f64::from_bits(Real::one().bits()), 1.0);
}

// The exact comparison |x| * k < 1 on cases whose answers are known
// mathematically, including ones where floating-point evaluation of
// |x| * k would round.

#[test]
fn magnitude_comparison_exact_on_halves() {
    assert!(rbits(0.5).magnitude_times_lt_one(1));
    assert!(!rbits(0.5).magnitude_times_lt_one(2));
    assert!(!rbits(-0.5).magnitude_times_lt_one(2));
    assert!(rbits(-0.5).magnitude_times_lt_one(1));
    assert!(rbits(0.25).magnitude_times_lt_one(3));
    assert!(!rbits(0.25).magnitude_times_lt_one(4));
}

#[test]
fn magnitude_comparison_exact_at_one() {
    assert!(!rbits(1.0).magnitude_times_lt_one(1));
    assert!(!rbits(-1.0).magnitude_times_lt_one(1));
    assert!(rbits(0.9999999999999999).magnitude_times_lt_one(1));
    assert!(!rbits(1.0000000000000002).magnitude_times_lt_one(1));
}

#[test]
fn magnitude_comparison_exact_on_third() {
    // The double nearest 1/3 is strictly below 1/3, so three times its
    // magnitude is strictly below one — a fact floating-point
    // multiplication (which rounds 3 * (1.0/3.0) up to exactly 1.0)
    // cannot see.
    assert!(rbits(1.0 / 3.0).magnitude_times_lt_one(3));
    assert!(rbits(-1.0 / 3.0).magnitude_times_lt_one(3));
    assert_eq!(3.0 * (1.0f64 / 3.0), 1.0);
}

#[test]
fn magnitude_comparison_on_zero_and_subnormals() {
    assert!(rbits(0.0).magnitude_times_lt_one(usize::MAX));
    assert!(rbits(-0.0).magnitude_times_lt_one(usize::MAX));
    // The smallest subnormal is 2^-1074; times any k below 2^1074 it
    // stays under one.
    assert!(rbits(5e-324).magnitude_times_lt_one(usize::MAX));
    assert!(rbits(-5e-324).magnitude_times_lt_one(usize::MAX));
}

#[test]
fn magnitude_comparison_on_large_values() {
    assert!(!rbits(f64::MAX).magnitude_times_lt_one(1));
    assert!(!rbits(2.0).magnitude_times_lt_one(1));
    assert!(rbits(0.0078125).magnitude_times_lt_one(127));
    assert!(!rbits(0.0078125).magnitude_times_lt_one(128));
}
