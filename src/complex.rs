//! The three comparisons on complex numbers of `num_complex`: both parts are
//! compared independently under the same parameters.

use vstd::prelude::*;

use crate::abs_diff_eq::AbsDiffEq;
use crate::relative_eq::RelativeEq;
use crate::ulps_eq::UlpsEq;
use num_complex::Complex;

verus! {

/// `num_complex::Complex`, whose two public fields `re` and `im` Verus reads.
#[verifier::external_type_specification]
pub struct ExComplex<T>(Complex<T>);

impl<T: AbsDiffEq> AbsDiffEq for Complex<T> where T::Epsilon: Copy {
    type Epsilon = T::Epsilon;

    open spec fn default_epsilon_spec() -> T::Epsilon {
        T::default_epsilon_spec()
    }

    open spec fn abs_diff_eq_spec(&self, other: &Complex<T>, epsilon: T::Epsilon) -> bool {
        &&& self.re.abs_diff_eq_spec(&other.re, epsilon)
        &&& self.im.abs_diff_eq_spec(&other.im, epsilon)
    }

    proof fn lemma_abs_diff_eq_symmetric(a: &Complex<T>, b: &Complex<T>, epsilon: T::Epsilon) {
        T::lemma_abs_diff_eq_symmetric(&a.re, &b.re, epsilon);
        T::lemma_abs_diff_eq_symmetric(&a.im, &b.im, epsilon);
    }

    fn default_epsilon() -> (r: T::Epsilon) {
        T::default_epsilon()
    }

    fn abs_diff_eq(&self, other: &Complex<T>, epsilon: T::Epsilon) -> (r: bool) {
        T::abs_diff_eq(&self.re, &other.re, epsilon) && T::abs_diff_eq(&self.im, &other.im, epsilon)
    }
}

impl<T: RelativeEq> RelativeEq for Complex<T> where T::Epsilon: Copy {
    open spec fn default_max_relative_spec() -> T::Epsilon {
        T::default_max_relative_spec()
    }

    open spec fn relative_eq_spec(
        &self,
        other: &Complex<T>,
        epsilon: T::Epsilon,
        max_relative: T::Epsilon,
    ) -> bool {
        &&& self.re.relative_eq_spec(&other.re, epsilon, max_relative)
        &&& self.im.relative_eq_spec(&other.im, epsilon, max_relative)
    }

    proof fn lemma_relative_eq_symmetric(
        a: &Complex<T>,
        b: &Complex<T>,
        epsilon: T::Epsilon,
        max_relative: T::Epsilon,
    ) {
        T::lemma_relative_eq_symmetric(&a.re, &b.re, epsilon, max_relative);
        T::lemma_relative_eq_symmetric(&a.im, &b.im, epsilon, max_relative);
    }

    fn default_max_relative() -> (r: T::Epsilon) {
        T::default_max_relative()
    }

    fn relative_eq(
        &self,
        other: &Complex<T>,
        epsilon: T::Epsilon,
        max_relative: T::Epsilon,
    ) -> (r: bool) {
        T::relative_eq(&self.re, &other.re, epsilon, max_relative) && T::relative_eq(
            &self.im,
            &other.im,
            epsilon,
            max_relative,
        )
    }
}

impl<T: UlpsEq> UlpsEq for Complex<T> where T::Epsilon: Copy {
    open spec fn default_max_ulps_spec() -> u32 {
        T::default_max_ulps_spec()
    }

    open spec fn ulps_eq_spec(
        &self,
        other: &Complex<T>,
        epsilon: T::Epsilon,
        max_ulps: u32,
    ) -> bool {
        &&& self.re.ulps_eq_spec(&other.re, epsilon, max_ulps)
        &&& self.im.ulps_eq_spec(&other.im, epsilon, max_ulps)
    }

    proof fn lemma_ulps_eq_symmetric(
        a: &Complex<T>,
        b: &Complex<T>,
        epsilon: T::Epsilon,
        max_ulps: u32,
    ) {
        T::lemma_ulps_eq_symmetric(&a.re, &b.re, epsilon, max_ulps);
        T::lemma_ulps_eq_symmetric(&a.im, &b.im, epsilon, max_ulps);
    }

    fn default_max_ulps() -> (r: u32) {
        T::default_max_ulps()
    }

    fn ulps_eq(&self, other: &Complex<T>, epsilon: T::Epsilon, max_ulps: u32) -> (r: bool) {
        T::ulps_eq(&self.re, &other.re, epsilon, max_ulps) && T::ulps_eq(
            &self.im,
            &other.im,
            epsilon,
            max_ulps,
        )
    }
}

} // verus!
