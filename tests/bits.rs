use approx::float_bits::{
    BINARY32_EPSILON, BINARY32_INFINITY, BINARY32_NEG_INFINITY, BINARY64_EPSILON,
    BINARY64_INFINITY, BINARY64_NEG_INFINITY, BINARY64_SIGN, DEFAULT_MAX_ULPS, abs_binary32, abs_binary64, abs_diff_eq_binary32, abs_diff_eq_binary64, eq_binary32,
    eq_binary64, is_nan_binary32, is_nan_binary64, is_negative_binary32, is_negative_binary64,
    le_binary32, le_binary64, lt_binary32, lt_binary64, relative_eq_binary32,
    relative_eq_binary64, ulps_eq_binary32, ulps_eq_binary64,
};

fn abs64(a: f64, b: f64, epsilon: f64) -> bool {
    abs_diff_eq_binary64((a - b).to_bits(), epsilon.to_bits())
}

fn rel64(a: f64, b: f64, epsilon: f64, max_relative: f64) -> bool {
    relative_eq_binary64(
        a.to_bits(),
        b.to_bits(),
        (a - b).to_bits(),
        epsilon.to_bits(),
        (a.abs() * max_relative).to_bits(),
        (b.abs() * max_relative).to_bits(),
    )
}

fn ulps64(a: f64, b: f64, epsilon: f64, max_ulps: u32) -> bool {
    ulps_eq_binary64(a.to_bits(), b.to_bits(), (a - b).to_bits(), epsilon.to_bits(), max_ulps)
}

fn abs32(a: f32, b: f32, epsilon: f32) -> bool {
    abs_diff_eq_binary32((a - b).to_bits(), epsilon.to_bits())
}

fn rel32(a: f32, b: f32, epsilon: f32, max_relative: f32) -> bool {
    relative_eq_binary32(
        a.to_bits(),
        b.to_bits(),
        (a - b).to_bits(),
        epsilon.to_bits(),
        (a.abs() * max_relative).to_bits(),
        (b.abs() * max_relative).to_bits(),
    )
}

fn ulps32(a: f32, b: f32, epsilon: f32, max_ulps: u32) -> bool {
    ulps_eq_binary32(a.to_bits(), b.to_bits(), (a - b).to_bits(), epsilon.to_bits(), max_ulps)
}

fn next64(x: f64) -> f64 {
    f64::from_bits(x.to_bits() + 1)
}

fn next32(x: f32) -> f32 {
    f32::from_bits(x.to_bits() + 1)
}

const SAMPLES64: [f64; 16] = [
    0.0,
    -0.0,
    1.0,
    -1.0,
    1.5,
    -2.75,
    1.0e-310,
    -1.0e-310,
    f64::MIN_POSITIVE,
    f64::MAX,
    f64::MIN,
    f64::INFINITY,
    f64::NEG_INFINITY,
    f64::NAN,
    1.0e300,
    -1.0e-5,
];

const SAMPLES32: [f32; 12] = [
    0.0,
    -0.0,
    1.0,
    -1.0,
    3.25,
    1.0e-40,
    -1.0e-40,
    f32::MAX,
    f32::MIN,
    f32::INFINITY,
    f32::NEG_INFINITY,
    f32::NAN,
];

#[test]
fn binary64_comparisons_agree_with_hardware() {
    for x in SAMPLES64 {
        for y in SAMPLES64 {
            assert_eq!(eq_binary64(x.to_bits(), y.to_bits()), x == y, "{x} == {y}");
            assert_eq!(le_binary64(x.to_bits(), y.to_bits()), x <= y, "{x} <= {y}");
            assert_eq!(lt_binary64(x.to_bits(), y.to_bits()), x < y, "{x} < {y}");
        }
        assert_eq!(abs_binary64(x.to_bits()), x.abs().to_bits());
    }
}

#[test]
fn binary32_comparisons_agree_with_hardware() {
    for x in SAMPLES32 {
        for y in SAMPLES32 {
            assert_eq!(eq_binary32(x.to_bits(), y.to_bits()), x == y, "{x} == {y}");
            assert_eq!(le_binary32(x.to_bits(), y.to_bits()), x <= y, "{x} <= {y}");
            assert_eq!(lt_binary32(x.to_bits(), y.to_bits()), x < y, "{x} < {y}");
        }
        assert_eq!(abs_binary32(x.to_bits()), x.abs().to_bits());
    }
}

#[test]
fn nan_patterns_are_recognised() {
    assert!(is_nan_binary64(f64::NAN.to_bits()));
    assert!(is_nan_binary64((-f64::NAN).to_bits()));
    assert!(!is_nan_binary64(f64::INFINITY.to_bits()));
    assert!(!is_nan_binary64(f64::NEG_INFINITY.to_bits()));
    assert!(!is_nan_binary64(1.5f64.to_bits()));
    assert!(is_nan_binary32(f32::NAN.to_bits()));
    assert!(!is_nan_binary32(f32::INFINITY.to_bits()));
    assert!(!is_nan_binary32(0.0f32.to_bits()));
}

#[test]
fn sign_bit_is_read() {
    assert!(is_negative_binary64((-0.0f64).to_bits()));
    assert!(!is_negative_binary64(0.0f64.to_bits()));
    assert!(is_negative_binary64(f64::NEG_INFINITY.to_bits()));
    assert!(!is_negative_binary64(f64::MIN_POSITIVE.to_bits()));
    assert!(is_negative_binary32((-2.0f32).to_bits()));
    assert!(!is_negative_binary32(2.0f32.to_bits()));
}

#[test]
fn absolute_test_bounds_the_difference() {
    assert!(abs64(1.0, 1.25, 0.25));
    assert!(!abs64(1.0, 1.25, 0.125));
    assert!(abs64(-3.0, 3.0, 6.0));
    assert!(!abs64(1.0, 1.0, -0.5));
    assert!(abs64(1.0, 1.0 + f64::EPSILON, f64::EPSILON));
    assert!(!abs64(1.0, 1.0 + 2.0 * f64::EPSILON, f64::EPSILON));
    assert!(abs32(2.0, 2.5, 0.5));
    assert!(!abs32(2.0, 2.5, 0.25));
}

#[test]
fn large_magnitudes_pass_on_relative_tolerance() {
    assert!(rel64(100000000.0, 100000000.00000003, f64::EPSILON, 0.00001));
    assert!(!abs64(100000000.0, 100000000.00000003, f64::EPSILON));
}

#[test]
fn near_zero_needs_the_absolute_tolerance() {
    assert!(!rel64(0.0, 1e-10, f64::EPSILON, 0.00001));
    assert!(rel64(0.0, 1e-10, 1e-9, 0.00001));
    assert!(rel32(0.0, 1e-10, f32::EPSILON, 0.00001));
    assert!(!rel32(0.0, 1e-6, f32::EPSILON, 0.00001));
}

#[test]
fn relative_tolerance_scales_the_larger_magnitude() {
    // |1.0 - 1.1| is about 0.1, within 10% of 1.1 but not of 1.0 at 9%.
    assert!(rel64(1.0, 1.1, 0.0, 0.1));
    assert!(rel64(1.1, 1.0, 0.0, 0.1));
    assert!(!rel64(1.0, 1.1, 0.0, 0.05));
    assert!(rel64(-100.0, -101.0, 0.0, 0.01));
    assert!(!rel64(-100.0, -102.0, 0.0, 0.01));
    assert!(rel32(1000.0, 1001.0, 0.0, 0.001));
    assert!(!rel32(1000.0, 1002.0, 0.0, 0.001));
}

#[test]
fn widening_relative_tolerances_keeps_a_pass() {
    let (a, b) = (10.0, 10.5);
    assert!(!rel64(a, b, 0.1, 0.01));
    assert!(rel64(a, b, 0.5, 0.01));
    assert!(rel64(a, b, 1.0, 0.01));
    assert!(rel64(a, b, 0.1, 0.05));
    assert!(rel64(a, b, 0.1, 0.5));
}

#[test]
fn infinities_under_the_relative_test() {
    for (e, m) in [(0.0, 0.0), (f64::EPSILON, f64::EPSILON), (1.0, 1.0), (f64::MAX, 0.5)] {
        assert!(rel64(f64::INFINITY, f64::INFINITY, e, m));
        assert!(rel64(f64::NEG_INFINITY, f64::NEG_INFINITY, e, m));
        assert!(!rel64(f64::INFINITY, f64::NEG_INFINITY, e, m));
        assert!(!rel64(f64::NEG_INFINITY, f64::INFINITY, e, m));
    }
    assert!(!rel64(f64::INFINITY, f64::NEG_INFINITY, 1.0, f64::INFINITY));
    assert!(!rel32(f32::INFINITY, f32::NEG_INFINITY, f32::MAX, 1.0));
    assert!(rel32(f32::INFINITY, f32::INFINITY, 0.0, 0.0));
}

#[test]
fn nan_passes_no_test() {
    let nan = f64::NAN;
    assert!(!abs64(nan, nan, f64::INFINITY));
    assert!(!rel64(nan, nan, f64::INFINITY, f64::INFINITY));
    assert!(!rel64(nan, 1.0, f64::INFINITY, f64::INFINITY));
    assert!(!rel64(1.0, nan, f64::INFINITY, f64::INFINITY));
    assert!(!ulps64(nan, nan, f64::INFINITY, u32::MAX));
    assert!(!ulps64(1.0, nan, f64::INFINITY, u32::MAX));
    assert!(!abs32(f32::NAN, f32::NAN, f32::INFINITY));
    assert!(!rel32(f32::NAN, f32::NAN, f32::INFINITY, f32::INFINITY));
    assert!(!ulps32(f32::NAN, f32::NAN, f32::INFINITY, u32::MAX));
}

#[test]
fn nan_tolerance_passes_nothing_but_equal_values() {
    assert!(!abs64(1.0, 1.0, f64::NAN));
    assert!(rel64(1.0, 1.0, f64::NAN, f64::NAN));
    assert!(!rel64(1.0, 1.5, f64::NAN, f64::NAN));
}

#[test]
fn signed_zeros_are_equal() {
    assert!(abs64(0.0, -0.0, 0.0));
    assert!(rel64(0.0, -0.0, 0.0, 0.0));
    assert!(ulps64(0.0, -0.0, 0.0, 0));
    assert!(abs32(0.0, -0.0, 0.0));
    assert!(ulps32(-0.0, 0.0, 0.0, 0));
}

#[test]
fn signed_zeros_follow_the_absolute_test_in_ulps() {
    assert!(!ulps64(0.0, -0.0, -1.0, 4));
    assert!(!ulps32(0.0, -0.0, -1.0, u32::MAX));
}

#[test]
fn finite_values_equal_themselves_at_zero_tolerance() {
    for x in [0.0f64, -0.0, 1.0, -7.25, 1.0e-310, f64::MAX, f64::MIN] {
        assert!(abs64(x, x, 0.0));
        assert!(rel64(x, x, 0.0, 0.0));
        assert!(ulps64(x, x, 0.0, 0));
    }
    assert!(ulps64(f64::INFINITY, f64::INFINITY, 0.0, 0));
    for x in [0.0f32, 1.0, -3.5, f32::MAX] {
        assert!(abs32(x, x, 0.0));
        assert!(rel32(x, x, 0.0, 0.0));
        assert!(ulps32(x, x, 0.0, 0));
    }
}

#[test]
fn adjacent_binary64_values_are_one_ulp_apart() {
    for x in [1.0f64, 1.0e-300, 123456.789, -1.0, -1.0e300, f64::MIN_POSITIVE, 0.0, f64::MAX] {
        let y = next64(x);
        assert!(ulps64(x, y, 0.0, 1));
        assert!(!ulps64(x, y, 0.0, 0));
        assert!(ulps64(y, x, 0.0, 1));
    }
}

#[test]
fn adjacent_binary32_values_are_one_ulp_apart() {
    for x in [1.0f32, 1.0e-30, 98765.4, -3.0, f32::MIN_POSITIVE, 0.0, f32::MAX] {
        let y = next32(x);
        assert!(ulps32(x, y, 0.0, 1));
        assert!(!ulps32(x, y, 0.0, 0));
    }
}

#[test]
fn ulp_distance_is_counted_exactly() {
    // There are 2^52 binary64 values from 1.0 up to 2.0, and 2^23 binary32 ones.
    assert_eq!(2.0f64.to_bits() - 1.0f64.to_bits(), 1u64 << 52);
    assert!(!ulps64(1.0, 2.0, 0.0, u32::MAX));
    assert!(ulps32(1.0, 2.0, 0.0, 1 << 23));
    assert!(!ulps32(1.0, 2.0, 0.0, (1 << 23) - 1));
    assert!(ulps32(2.0, 1.0, 0.0, 1 << 23));
    assert!(ulps64(1.0, 2.0, 1.0, 0));
}

#[test]
fn patterns_far_apart_do_not_wrap() {
    assert!(!ulps64(0.0, f64::MAX, 0.0, u32::MAX));
    assert!(!ulps64(f64::MAX, 0.0, 0.0, u32::MAX));
    // Every finite binary32 pattern lies within a u32 tolerance of zero.
    assert_eq!(f32::MAX.to_bits(), 0x7f7f_ffff);
    assert!(ulps32(0.0, f32::MAX, 0.0, 0x7f7f_ffff));
    assert!(!ulps32(f32::MAX, 0.0, 0.0, 0x7f7f_fffe));
}

#[test]
fn opposite_signs_are_never_close_in_ulps() {
    assert!(!ulps64(1.0e-300, -1.0e-300, 0.0, u32::MAX));
    assert!(ulps64(1.0e-300, -1.0e-300, 1.0e-299, 0));
    assert!(!ulps32(2.0, -2.0, 0.0, u32::MAX));
}

#[test]
fn tests_are_symmetric() {
    let xs = [0.0f64, -0.0, 1.0, next64(1.0), -2.5, 1.0e-310, f64::NAN, f64::INFINITY];
    for x in xs {
        for y in xs {
            for e in [0.0f64, f64::EPSILON, 1.0] {
                assert_eq!(abs64(x, y, e), abs64(y, x, e));
                assert_eq!(rel64(x, y, e, 0.5), rel64(y, x, e, 0.5));
                for m in [0u32, 1, 4] {
                    assert_eq!(ulps64(x, y, e, m), ulps64(y, x, e, m));
                }
            }
        }
    }
}

#[test]
fn named_patterns_are_the_values_they_name() {
    assert_eq!(f64::from_bits(BINARY64_EPSILON), f64::EPSILON);
    assert_eq!(f32::from_bits(BINARY32_EPSILON), f32::EPSILON);
    assert_eq!(f64::from_bits(BINARY64_INFINITY), f64::INFINITY);
    assert_eq!(f64::from_bits(BINARY64_NEG_INFINITY), f64::NEG_INFINITY);
    assert_eq!(f32::from_bits(BINARY32_INFINITY), f32::INFINITY);
    assert_eq!(f32::from_bits(BINARY32_NEG_INFINITY), f32::NEG_INFINITY);
    assert_eq!(BINARY64_SIGN, (-0.0f64).to_bits());
    assert_eq!(DEFAULT_MAX_ULPS, 4);
}
