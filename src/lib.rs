//! Approximate equality for numeric values and for values built from them.
//!
//! Three comparison strategies are offered, each as a trait: an absolute
//! difference test (`AbsDiffEq`), a relative difference test that falls back to
//! the absolute one (`RelativeEq`), and a test on the distance in units in the
//! last place (`UlpsEq`). Each trait states its result through a spec function
//! and proves that the result does not depend on the order of the operands.
//!
//! The integer types compare by the exact distance between their values,
//! computed without overflow. Options, results, slices, complex numbers and
//! references compare part by part, and are proved to agree exactly with the
//! comparisons of their parts (`laws` states the consequences).
//!
//! For binary32 and binary64 values, `float_bits` takes the three tests on
//! bit patterns: IEEE-754 comparison, the relative test with its handling of
//! equal and opposite infinities, and the ULPs test with its NaN and sign
//! checks. The caller computes the rounded arithmetic (the difference of the
//! operands, the scaled magnitudes) and hands in its results.
//! `shorthand` offers the tests with parameters left at the type's defaults.

use vstd::prelude::*;

pub mod abs_diff_eq;
pub mod complex;
pub mod float_bits;
pub mod laws;
pub mod relative_eq;
pub mod shorthand;
pub mod ulps_eq;

pub use abs_diff_eq::AbsDiffEq;
pub use relative_eq::RelativeEq;
pub use ulps_eq::UlpsEq;

verus! {

/// The parameters of an absolute difference comparison.
///
/// Built from the type's default with `AbsDiff::default()`, adjusted with
/// `epsilon`, then used once by `eq` or `ne`.
pub struct AbsDiff<T: AbsDiffEq> {
    /// The tolerance to use when testing values that are close together.
    pub epsilon: T::Epsilon,
}

impl<T: AbsDiffEq> Default for AbsDiff<T> {
    fn default() -> (r: AbsDiff<T>)
        ensures
            r.epsilon == T::default_epsilon_spec(),
    {
        AbsDiff { epsilon: T::default_epsilon() }
    }
}

impl<T: AbsDiffEq> AbsDiff<T> {
    /// Replace the epsilon value with the one specified.
    pub fn epsilon(self, epsilon: T::Epsilon) -> (r: AbsDiff<T>)
        ensures
            r.epsilon == epsilon,
    {
        AbsDiff { epsilon }
    }

    /// Perform the equality comparison.
    pub fn eq(self, lhs: &T, rhs: &T) -> (r: bool)
        ensures
            r == lhs.abs_diff_eq_spec(rhs, self.epsilon),
    {
        T::abs_diff_eq(lhs, rhs, self.epsilon)
    }

    /// Perform the inequality comparison.
    pub fn ne(self, lhs: &T, rhs: &T) -> (r: bool)
        ensures
            r == !lhs.abs_diff_eq_spec(rhs, self.epsilon),
    {
        T::abs_diff_ne(lhs, rhs, self.epsilon)
    }
}

/// The parameters of a relative difference comparison.
pub struct Relative<T: RelativeEq> {
    /// The tolerance to use when testing values that are close together.
    pub epsilon: T::Epsilon,
    /// The relative tolerance for testing values that are far apart.
    pub max_relative: T::Epsilon,
}

impl<T: RelativeEq> Default for Relative<T> {
    fn default() -> (r: Relative<T>)
        ensures
            r.epsilon == T::default_epsilon_spec(),
            r.max_relative == T::default_max_relative_spec(),
    {
        Relative { epsilon: T::default_epsilon(), max_relative: T::default_max_relative() }
    }
}

impl<T: RelativeEq> Relative<T> {
    /// Replace the epsilon value with the one specified.
    pub fn epsilon(self, epsilon: T::Epsilon) -> (r: Relative<T>)
        ensures
            r.epsilon == epsilon,
            r.max_relative == self.max_relative,
    {
        Relative { epsilon, ..self }
    }

    /// Replace the maximum relative value with the one specified.
    pub fn max_relative(self, max_relative: T::Epsilon) -> (r: Relative<T>)
        ensures
            r.epsilon == self.epsilon,
            r.max_relative == max_relative,
    {
        Relative { max_relative, ..self }
    }

    /// Perform the equality comparison.
    pub fn eq(self, lhs: &T, rhs: &T) -> (r: bool)
        ensures
            r == lhs.relative_eq_spec(rhs, self.epsilon, self.max_relative),
    {
        T::relative_eq(lhs, rhs, self.epsilon, self.max_relative)
    }

    /// Perform the inequality comparison.
    pub fn ne(self, lhs: &T, rhs: &T) -> (r: bool)
        ensures
            r == !lhs.relative_eq_spec(rhs, self.epsilon, self.max_relative),
    {
        T::relative_ne(lhs, rhs, self.epsilon, self.max_relative)
    }
}

/// The parameters of a comparison in units in the last place.
pub struct Ulps<T: UlpsEq> {
    /// The tolerance to use when testing values that are close together.
    pub epsilon: T::Epsilon,
    /// The ULPs to tolerate when testing values that are far apart.
    pub max_ulps: u32,
}

impl<T: UlpsEq> Default for Ulps<T> {
    fn default() -> (r: Ulps<T>)
        ensures
            r.epsilon == T::default_epsilon_spec(),
            r.max_ulps == T::default_max_ulps_spec(),
    {
        Ulps { epsilon: T::default_epsilon(), max_ulps: T::default_max_ulps() }
    }
}

impl<T: UlpsEq> Ulps<T> {
    /// Replace the epsilon value with the one specified.
    pub fn epsilon(self, epsilon: T::Epsilon) -> (r: Ulps<T>)
        ensures
            r.epsilon == epsilon,
            r.max_ulps == self.max_ulps,
    {
        Ulps { epsilon, ..self }
    }

    /// Replace the max ulps value with the one specified.
    pub fn max_ulps(self, max_ulps: u32) -> (r: Ulps<T>)
        ensures
            r.epsilon == self.epsilon,
            r.max_ulps == max_ulps,
    {
        Ulps { max_ulps, ..self }
    }

    /// Perform the equality comparison.
    pub fn eq(self, lhs: &T, rhs: &T) -> (r: bool)
        ensures
            r == lhs.ulps_eq_spec(rhs, self.epsilon, self.max_ulps),
    {
        T::ulps_eq(lhs, rhs, self.epsilon, self.max_ulps)
    }

    /// Perform the inequality comparison.
    pub fn ne(self, lhs: &T, rhs: &T) -> (r: bool)
        ensures
            r == !lhs.ulps_eq_spec(rhs, self.epsilon, self.max_ulps),
    {
        T::ulps_ne(lhs, rhs, self.epsilon, self.max_ulps)
    }
}

} // verus!
