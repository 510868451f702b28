use approx::float_bits::{
    abs_diff_eq_binary64, relative_eq_binary64, ulps_eq_binary64, BINARY64_EPSILON, DEFAULT_MAX_ULPS,
};
use approx::shorthand::{
    default_relative_eq, default_relative_ne, default_ulps_eq, default_ulps_ne, relative_eq,
    relative_eq_with_epsilon, relative_eq_with_max, relative_ne, relative_ne_with_epsilon,
    relative_ne_with_max, ulps_eq, ulps_eq_with_epsilon, ulps_eq_with_max, ulps_ne,
    ulps_ne_with_epsilon, ulps_ne_with_max,
};
use approx::{AbsDiffEq, Relative, RelativeEq, Ulps, UlpsEq};
use num_complex::Complex;

/// A binary64 value under test: its arithmetic is done here and every decision
/// by the library. Outside Verus the traits' specification items are ordinary
/// methods; this fixture answers them with the executable tests themselves.
#[derive(Clone, Copy, Debug, PartialEq)]
struct Float(f64);

impl AbsDiffEq for Float {
    type Epsilon = f64;

    fn default_epsilon_spec() -> f64 {
        f64::from_bits(BINARY64_EPSILON)
    }

    fn abs_diff_eq_spec(&self, other: &Float, epsilon: f64) -> bool {
        self.abs_diff_eq(other, epsilon)
    }

    fn lemma_abs_diff_eq_symmetric(_a: &Float, _b: &Float, _epsilon: f64) {}

    fn default_epsilon() -> f64 {
        f64::from_bits(BINARY64_EPSILON)
    }

    fn abs_diff_eq(&self, other: &Float, epsilon: f64) -> bool {
        abs_diff_eq_binary64((self.0 - other.0).to_bits(), epsilon.to_bits())
    }
}

impl RelativeEq for Float {
    fn default_max_relative_spec() -> f64 {
        f64::from_bits(BINARY64_EPSILON)
    }

    fn relative_eq_spec(&self, other: &Float, epsilon: f64, max_relative: f64) -> bool {
        self.relative_eq(other, epsilon, max_relative)
    }

    fn lemma_relative_eq_symmetric(_a: &Float, _b: &Float, _epsilon: f64, _max_relative: f64) {}

    fn default_max_relative() -> f64 {
        f64::from_bits(BINARY64_EPSILON)
    }

    fn relative_eq(&self, other: &Float, epsilon: f64, max_relative: f64) -> bool {
        relative_eq_binary64(
            self.0.to_bits(),
            other.0.to_bits(),
            (self.0 - other.0).to_bits(),
            epsilon.to_bits(),
            (self.0.abs() * max_relative).to_bits(),
            (other.0.abs() * max_relative).to_bits(),
        )
    }
}

impl UlpsEq for Float {
    fn default_max_ulps_spec() -> u32 {
        DEFAULT_MAX_ULPS
    }

    fn ulps_eq_spec(&self, other: &Float, epsilon: f64, max_ulps: u32) -> bool {
        self.ulps_eq(other, epsilon, max_ulps)
    }

    fn lemma_ulps_eq_symmetric(_a: &Float, _b: &Float, _epsilon: f64, _max_ulps: u32) {}

    fn default_max_ulps() -> u32 {
        DEFAULT_MAX_ULPS
    }

    fn ulps_eq(&self, other: &Float, epsilon: f64, max_ulps: u32) -> bool {
        ulps_eq_binary64(
            self.0.to_bits(),
            other.0.to_bits(),
            (self.0 - other.0).to_bits(),
            epsilon.to_bits(),
            max_ulps,
        )
    }
}

fn up(x: f64, n: u64) -> Float {
    Float(f64::from_bits(x.to_bits() + n))
}

#[test]
fn optional_floats() {
    assert!(Some(Float(1.0)).ulps_eq(&Some(Float(1.0)), 0.0, 4));
    assert!(!Some(Float(1.0)).ulps_eq(&None, 0.0, 4));
    assert!(!None.ulps_eq(&Some(Float(1.0)), 0.0, 4));
    assert!(None::<Float>.ulps_eq(&None, 0.0, 4));
    assert!(Some(Float(1.0)).ulps_ne(&Some(up(1.0, 5)), 0.0, 4));
    assert_eq!(Option::<Float>::default_max_ulps(), 4);
}

#[test]
fn pairs_of_floats_need_both_positions() {
    let a = [Float(1.0), Float(2.0)];
    let near = [up(1.0, 1), up(2.0, 2)];
    let far = [up(1.0, 1), up(2.0, 9)];
    assert!(a[..].ulps_eq(&near[..], 0.0, 2));
    assert!(!a[..].ulps_eq(&near[..], 0.0, 1));
    assert!(!a[..].ulps_eq(&far[..], 0.0, 4));
    assert!(a[..1].ulps_eq(&far[..1], 0.0, 1));
    assert!(!a[..].ulps_eq(&near[..1], 1.0, 100));
    assert!(a[..].ulps_ne(&far[..], 0.0, 4));
}

#[test]
fn result_of_floats() {
    let ok: Result<Float, Float> = Ok(Float(1.0));
    let ok_near: Result<Float, Float> = Ok(up(1.0, 3));
    let err: Result<Float, Float> = Err(Float(1.0));
    assert!(ok.ulps_eq(&ok_near, (0.0, 0.0), 3));
    assert!(!ok.ulps_eq(&ok_near, (0.0, 1.0), 2));
    assert!(ok.ulps_eq(&ok_near, (1.0, 0.0), 0));
    assert!(!ok.ulps_eq(&err, (1.0, 1.0), u32::MAX));
    assert_eq!(Result::<Float, Float>::default_max_ulps(), 4);
}

#[test]
fn complex_floats() {
    let z = Complex::new(Float(1.0), Float(-2.0));
    let w = Complex::new(up(1.0, 2), Float(-2.0));
    let v = Complex::new(Float(1.0), up(-2.0, 7));
    assert!(z.ulps_eq(&w, 0.0, 2));
    assert!(!z.ulps_eq(&w, 0.0, 1));
    assert!(!z.ulps_eq(&v, 0.0, 4));
    assert!(z.relative_eq(&z, 0.0, 0.0));
    assert_eq!(Complex::<Float>::default_max_ulps(), 4);
}

#[test]
fn signed_zero_under_composites() {
    let z = Some(Float(0.0));
    let n = Some(Float(-0.0));
    assert!(z.ulps_eq(&n, 0.0, 0));
    assert!(z.abs_diff_eq(&n, 0.0));
}

#[test]
fn ulps_builder() {
    let d = Ulps::<Float>::default();
    assert_eq!(d.max_ulps, 4);
    assert_eq!(d.epsilon, f64::EPSILON);
    assert!(Ulps::default().eq(&Float(1.0), &up(1.0, 4)));
    assert!(Ulps::default().ne(&Float(1.0), &up(1.0, 5)));
    assert!(Ulps::default().max_ulps(5).eq(&Float(1.0), &up(1.0, 5)));
    assert!(Ulps::default().epsilon(1.0).max_ulps(0).eq(&Float(1.0), &Float(1.5)));
    let b = Ulps::<Float>::default().max_ulps(9).epsilon(0.5);
    assert_eq!((b.epsilon, b.max_ulps), (0.5, 9));
}

#[test]
fn relative_builder() {
    let d = Relative::<Float>::default();
    assert_eq!((d.epsilon, d.max_relative), (f64::EPSILON, f64::EPSILON));
    assert!(Relative::default().eq(&Float(1.0), &Float(1.0)));
    assert!(Relative::default().ne(&Float(1.0), &Float(1.5)));
    assert!(Relative::default().max_relative(0.5).eq(&Float(1.0), &Float(1.5)));
    let b = Relative::<Float>::default().epsilon(0.25).max_relative(0.125);
    assert_eq!((b.epsilon, b.max_relative), (0.25, 0.125));
    let c = Relative::<Float>::default().max_relative(0.125).epsilon(0.25);
    assert_eq!((c.epsilon, c.max_relative), (0.25, 0.125));
}

#[test]
fn relative_shorthand_fills_defaults() {
    let (a, b) = (Float(1.0), Float(1.5));
    assert!(relative_eq(&a, &b, 0.5, 0.0));
    assert!(!relative_eq(&a, &b, 0.0, 0.0));
    assert!(relative_eq_with_epsilon(&a, &b, 0.5));
    assert!(relative_eq_with_max(&a, &b, 0.5));
    assert!(!default_relative_eq(&a, &b));
    assert!(default_relative_eq(&a, &a));
    assert!(relative_ne(&a, &b, 0.0, 0.0));
    assert!(relative_ne_with_epsilon(&a, &b, 0.25));
    assert!(relative_ne_with_max(&a, &b, 0.25));
    assert!(default_relative_ne(&a, &b));
}

#[test]
fn ulps_shorthand_fills_defaults() {
    let (a, b) = (Float(1.0), up(1.0, 6));
    assert!(ulps_eq(&a, &b, 0.0, 6));
    assert!(!ulps_eq(&a, &b, 0.0, 5));
    assert!(ulps_eq_with_epsilon(&a, &b, 1.0));
    assert!(!ulps_eq_with_epsilon(&a, &b, 0.0));
    assert!(ulps_eq_with_max(&a, &b, 6));
    assert!(!default_ulps_eq(&a, &b));
    assert!(default_ulps_eq(&a, &up(1.0, 4)));
    assert!(ulps_ne(&a, &b, 0.0, 5));
    assert!(ulps_ne_with_epsilon(&a, &b, 0.0));
    assert!(ulps_ne_with_max(&a, &b, 5));
    assert!(default_ulps_ne(&a, &b));
}
