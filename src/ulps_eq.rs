//! The ULPs test and its instances on references, options, results and slices.

use vstd::prelude::*;

use crate::abs_diff_eq::AbsDiffEq;

verus! {

/// Equality comparisons that use the absolute difference for values close
/// together and the distance in units in the last place (ULPs) for values
/// far apart.
pub trait UlpsEq: AbsDiffEq {
    /// The ULP count that `default_max_ulps` returns.
    spec fn default_max_ulps_spec() -> u32;

    /// Whether `self` and `other` are equal under the ULPs test.
    spec fn ulps_eq_spec(&self, other: &Self, epsilon: Self::Epsilon, max_ulps: u32) -> bool;

    /// The ULPs test does not depend on the order of its operands.
    proof fn lemma_ulps_eq_symmetric(a: &Self, b: &Self, epsilon: Self::Epsilon, max_ulps: u32)
        ensures
            a.ulps_eq_spec(b, epsilon, max_ulps) == b.ulps_eq_spec(a, epsilon, max_ulps),
    ;

    /// The default number of ULPs to tolerate when testing values that are far apart.
    fn default_max_ulps() -> (r: u32)
        ensures
            r == Self::default_max_ulps_spec(),
    ;

    /// A test for equality that uses units in the last place if the values are far apart.
    fn ulps_eq(&self, other: &Self, epsilon: Self::Epsilon, max_ulps: u32) -> (r: bool)
        ensures
            r == self.ulps_eq_spec(other, epsilon, max_ulps),
    ;

    /// The inverse of `ulps_eq`.
    fn ulps_ne(&self, other: &Self, epsilon: Self::Epsilon, max_ulps: u32) -> (r: bool)
        ensures
            r == !self.ulps_eq_spec(other, epsilon, max_ulps),
    {
        !self.ulps_eq(other, epsilon, max_ulps)
    }
}

impl<'a, T: UlpsEq> UlpsEq for &'a T {
    open spec fn default_max_ulps_spec() -> u32 {
        T::default_max_ulps_spec()
    }

    open spec fn ulps_eq_spec(&self, other: &&'a T, epsilon: T::Epsilon, max_ulps: u32) -> bool {
        T::ulps_eq_spec(*self, *other, epsilon, max_ulps)
    }

    proof fn lemma_ulps_eq_symmetric(a: &&'a T, b: &&'a T, epsilon: T::Epsilon, max_ulps: u32) {
        T::lemma_ulps_eq_symmetric(*a, *b, epsilon, max_ulps);
    }

    fn default_max_ulps() -> (r: u32) {
        T::default_max_ulps()
    }

    fn ulps_eq(&self, other: &&'a T, epsilon: T::Epsilon, max_ulps: u32) -> (r: bool) {
        T::ulps_eq(*self, *other, epsilon, max_ulps)
    }
}

impl<'a, T: UlpsEq> UlpsEq for &'a mut T {
    open spec fn default_max_ulps_spec() -> u32 {
        T::default_max_ulps_spec()
    }

    open spec fn ulps_eq_spec(
        &self,
        other: &&'a mut T,
        epsilon: T::Epsilon,
        max_ulps: u32,
    ) -> bool {
        T::ulps_eq_spec(&**self, &**other, epsilon, max_ulps)
    }

    proof fn lemma_ulps_eq_symmetric(
        a: &&'a mut T,
        b: &&'a mut T,
        epsilon: T::Epsilon,
        max_ulps: u32,
    ) {
        T::lemma_ulps_eq_symmetric(&**a, &**b, epsilon, max_ulps);
    }

    fn default_max_ulps() -> (r: u32) {
        T::default_max_ulps()
    }

    fn ulps_eq(&self, other: &&'a mut T, epsilon: T::Epsilon, max_ulps: u32) -> (r: bool) {
        T::ulps_eq(&**self, &**other, epsilon, max_ulps)
    }
}

impl<T: UlpsEq> UlpsEq for Option<T> {
    open spec fn default_max_ulps_spec() -> u32 {
        T::default_max_ulps_spec()
    }

    open spec fn ulps_eq_spec(
        &self,
        other: &Option<T>,
        epsilon: T::Epsilon,
        max_ulps: u32,
    ) -> bool {
        match (self, other) {
            (Some(a), Some(b)) => a.ulps_eq_spec(b, epsilon, max_ulps),
            (None, None) => true,
            _ => false,
        }
    }

    proof fn lemma_ulps_eq_symmetric(
        a: &Option<T>,
        b: &Option<T>,
        epsilon: T::Epsilon,
        max_ulps: u32,
    ) {
        if let (Some(x), Some(y)) = (a, b) {
            T::lemma_ulps_eq_symmetric(x, y, epsilon, max_ulps);
        }
    }

    fn default_max_ulps() -> (r: u32) {
        T::default_max_ulps()
    }

    fn ulps_eq(&self, other: &Option<T>, epsilon: T::Epsilon, max_ulps: u32) -> (r: bool) {
        match (self, other) {
            (Some(a), Some(b)) => T::ulps_eq(a, b, epsilon, max_ulps),
            (None, None) => true,
            _ => false,
        }
    }
}

/// The ULP tolerance of a result is shared by both variants; by default it is
/// the larger of the two variants' defaults.
impl<T: UlpsEq, E: UlpsEq> UlpsEq for Result<T, E> {
    open spec fn default_max_ulps_spec() -> u32 {
        if T::default_max_ulps_spec() >= E::default_max_ulps_spec() {
            T::default_max_ulps_spec()
        } else {
            E::default_max_ulps_spec()
        }
    }

    open spec fn ulps_eq_spec(
        &self,
        other: &Result<T, E>,
        epsilon: (T::Epsilon, E::Epsilon),
        max_ulps: u32,
    ) -> bool {
        match (self, other) {
            (Ok(a), Ok(b)) => a.ulps_eq_spec(b, epsilon.0, max_ulps),
            (Err(a), Err(b)) => a.ulps_eq_spec(b, epsilon.1, max_ulps),
            _ => false,
        }
    }

    proof fn lemma_ulps_eq_symmetric(
        a: &Result<T, E>,
        b: &Result<T, E>,
        epsilon: (T::Epsilon, E::Epsilon),
        max_ulps: u32,
    ) {
        match (a, b) {
            (Ok(x), Ok(y)) => T::lemma_ulps_eq_symmetric(x, y, epsilon.0, max_ulps),
            (Err(x), Err(y)) => E::lemma_ulps_eq_symmetric(x, y, epsilon.1, max_ulps),
            _ => {},
        }
    }

    fn default_max_ulps() -> (r: u32) {
        let t = T::default_max_ulps();
        let e = E::default_max_ulps();
        if t >= e {
            t
        } else {
            e
        }
    }

    fn ulps_eq(
        &self,
        other: &Result<T, E>,
        epsilon: (T::Epsilon, E::Epsilon),
        max_ulps: u32,
    ) -> (r: bool) {
        match (self, other) {
            (Ok(a), Ok(b)) => T::ulps_eq(a, b, epsilon.0, max_ulps),
            (Err(a), Err(b)) => E::ulps_eq(a, b, epsilon.1, max_ulps),
            _ => false,
        }
    }
}

impl<A: UlpsEq> UlpsEq for [A] where A::Epsilon: Copy {
    open spec fn default_max_ulps_spec() -> u32 {
        A::default_max_ulps_spec()
    }

    open spec fn ulps_eq_spec(&self, other: &[A], epsilon: A::Epsilon, max_ulps: u32) -> bool {
        &&& self@.len() == other@.len()
        &&& forall|i: int|
            0 <= i < self@.len() ==> #[trigger] self@[i].ulps_eq_spec(
                &other@[i],
                epsilon,
                max_ulps,
            )
    }

    proof fn lemma_ulps_eq_symmetric(a: &[A], b: &[A], epsilon: A::Epsilon, max_ulps: u32) {
        assert forall|i: int| 0 <= i < a@.len() && a@.len() == b@.len() implies a@[i].ulps_eq_spec(
            &b@[i],
            epsilon,
            max_ulps,
        ) == b@[i].ulps_eq_spec(&a@[i], epsilon, max_ulps) by {
            A::lemma_ulps_eq_symmetric(&a@[i], &b@[i], epsilon, max_ulps);
        }
    }

    fn default_max_ulps() -> (r: u32) {
        A::default_max_ulps()
    }

    fn ulps_eq(&self, other: &[A], epsilon: A::Epsilon, max_ulps: u32) -> (r: bool) {
        if self.len() != other.len() {
            return false;
        }
        let mut i: usize = 0;
        while i < self.len()
            invariant
                self@.len() == other@.len(),
                i <= self@.len(),
                forall|j: int|
                    0 <= j < i ==> #[trigger] self@[j].ulps_eq_spec(&other@[j], epsilon, max_ulps),
            decreases self@.len() - i,
        {
            if !A::ulps_eq(&self[i], &other[i], epsilon, max_ulps) {
                return false;
            }
            i = i + 1;
        }
        true
    }
}

} // verus!
