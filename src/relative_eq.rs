//! The relative difference test and its instances on references, options,
//! results and slices.

use vstd::prelude::*;

use crate::abs_diff_eq::AbsDiffEq;

verus! {

/// Equality comparisons that use the absolute difference for values close
/// together and a relative difference for values far apart.
pub trait RelativeEq: AbsDiffEq {
    /// The relative tolerance that `default_max_relative` returns.
    spec fn default_max_relative_spec() -> Self::Epsilon;

    /// Whether `self` and `other` are equal under the relative test.
    spec fn relative_eq_spec(
        &self,
        other: &Self,
        epsilon: Self::Epsilon,
        max_relative: Self::Epsilon,
    ) -> bool;

    /// The relative test does not depend on the order of its operands.
    proof fn lemma_relative_eq_symmetric(
        a: &Self,
        b: &Self,
        epsilon: Self::Epsilon,
        max_relative: Self::Epsilon,
    )
        ensures
            a.relative_eq_spec(b, epsilon, max_relative) == b.relative_eq_spec(
                a,
                epsilon,
                max_relative,
            ),
    ;

    /// The default relative tolerance for testing values that are far apart.
    fn default_max_relative() -> (r: Self::Epsilon)
        ensures
            r == Self::default_max_relative_spec(),
    ;

    /// A test for equality that uses a relative comparison if the values are far apart.
    fn relative_eq(&self, other: &Self, epsilon: Self::Epsilon, max_relative: Self::Epsilon) -> (r:
        bool)
        ensures
            r == self.relative_eq_spec(other, epsilon, max_relative),
    ;

    /// The inverse of `relative_eq`.
    fn relative_ne(&self, other: &Self, epsilon: Self::Epsilon, max_relative: Self::Epsilon) -> (r:
        bool)
        ensures
            r == !self.relative_eq_spec(other, epsilon, max_relative),
    {
        !self.relative_eq(other, epsilon, max_relative)
    }
}

impl<'a, T: RelativeEq> RelativeEq for &'a T {
    open spec fn default_max_relative_spec() -> T::Epsilon {
        T::default_max_relative_spec()
    }

    open spec fn relative_eq_spec(
        &self,
        other: &&'a T,
        epsilon: T::Epsilon,
        max_relative: T::Epsilon,
    ) -> bool {
        T::relative_eq_spec(*self, *other, epsilon, max_relative)
    }

    proof fn lemma_relative_eq_symmetric(
        a: &&'a T,
        b: &&'a T,
        epsilon: T::Epsilon,
        max_relative: T::Epsilon,
    ) {
        T::lemma_relative_eq_symmetric(*a, *b, epsilon, max_relative);
    }

    fn default_max_relative() -> (r: T::Epsilon) {
        T::default_max_relative()
    }

    fn relative_eq(&self, other: &&'a T, epsilon: T::Epsilon, max_relative: T::Epsilon) -> (r:
        bool) {
        T::relative_eq(*self, *other, epsilon, max_relative)
    }
}

impl<'a, T: RelativeEq> RelativeEq for &'a mut T {
    open spec fn default_max_relative_spec() -> T::Epsilon {
        T::default_max_relative_spec()
    }

    open spec fn relative_eq_spec(
        &self,
        other: &&'a mut T,
        epsilon: T::Epsilon,
        max_relative: T::Epsilon,
    ) -> bool {
        T::relative_eq_spec(&**self, &**other, epsilon, max_relative)
    }

    proof fn lemma_relative_eq_symmetric(
        a: &&'a mut T,
        b: &&'a mut T,
        epsilon: T::Epsilon,
        max_relative: T::Epsilon,
    ) {
        T::lemma_relative_eq_symmetric(&**a, &**b, epsilon, max_relative);
    }

    fn default_max_relative() -> (r: T::Epsilon) {
        T::default_max_relative()
    }

    fn relative_eq(
        &self,
        other: &&'a mut T,
        epsilon: T::Epsilon,
        max_relative: T::Epsilon,
    ) -> (r: bool) {
        T::relative_eq(&**self, &**other, epsilon, max_relative)
    }
}

impl<T: RelativeEq> RelativeEq for Option<T> {
    open spec fn default_max_relative_spec() -> T::Epsilon {
        T::default_max_relative_spec()
    }

    open spec fn relative_eq_spec(
        &self,
        other: &Option<T>,
        epsilon: T::Epsilon,
        max_relative: T::Epsilon,
    ) -> bool {
        match (self, other) {
            (Some(a), Some(b)) => a.relative_eq_spec(b, epsilon, max_relative),
            (None, None) => true,
            _ => false,
        }
    }

    proof fn lemma_relative_eq_symmetric(
        a: &Option<T>,
        b: &Option<T>,
        epsilon: T::Epsilon,
        max_relative: T::Epsilon,
    ) {
        if let (Some(x), Some(y)) = (a, b) {
            T::lemma_relative_eq_symmetric(x, y, epsilon, max_relative);
        }
    }

    fn default_max_relative() -> (r: T::Epsilon) {
        T::default_max_relative()
    }

    fn relative_eq(
        &self,
        other: &Option<T>,
        epsilon: T::Epsilon,
        max_relative: T::Epsilon,
    ) -> (r: bool) {
        match (self, other) {
            (Some(a), Some(b)) => T::relative_eq(a, b, epsilon, max_relative),
            (None, None) => true,
            _ => false,
        }
    }
}

impl<T: RelativeEq, E: RelativeEq> RelativeEq for Result<T, E> {
    open spec fn default_max_relative_spec() -> (T::Epsilon, E::Epsilon) {
        (T::default_max_relative_spec(), E::default_max_relative_spec())
    }

    open spec fn relative_eq_spec(
        &self,
        other: &Result<T, E>,
        epsilon: (T::Epsilon, E::Epsilon),
        max_relative: (T::Epsilon, E::Epsilon),
    ) -> bool {
        match (self, other) {
            (Ok(a), Ok(b)) => a.relative_eq_spec(b, epsilon.0, max_relative.0),
            (Err(a), Err(b)) => a.relative_eq_spec(b, epsilon.1, max_relative.1),
            _ => false,
        }
    }

    proof fn lemma_relative_eq_symmetric(
        a: &Result<T, E>,
        b: &Result<T, E>,
        epsilon: (T::Epsilon, E::Epsilon),
        max_relative: (T::Epsilon, E::Epsilon),
    ) {
        match (a, b) {
            (Ok(x), Ok(y)) => T::lemma_relative_eq_symmetric(x, y, epsilon.0, max_relative.0),
            (Err(x), Err(y)) => E::lemma_relative_eq_symmetric(x, y, epsilon.1, max_relative.1),
            _ => {},
        }
    }

    fn default_max_relative() -> (r: (T::Epsilon, E::Epsilon)) {
        (T::default_max_relative(), E::default_max_relative())
    }

    fn relative_eq(
        &self,
        other: &Result<T, E>,
        epsilon: (T::Epsilon, E::Epsilon),
        max_relative: (T::Epsilon, E::Epsilon),
    ) -> (r: bool) {
        match (self, other) {
            (Ok(a), Ok(b)) => T::relative_eq(a, b, epsilon.0, max_relative.0),
            (Err(a), Err(b)) => E::relative_eq(a, b, epsilon.1, max_relative.1),
            _ => false,
        }
    }
}

impl<A: RelativeEq> RelativeEq for [A] where A::Epsilon: Copy {
    open spec fn default_max_relative_spec() -> A::Epsilon {
        A::default_max_relative_spec()
    }

    open spec fn relative_eq_spec(
        &self,
        other: &[A],
        epsilon: A::Epsilon,
        max_relative: A::Epsilon,
    ) -> bool {
        &&& self@.len() == other@.len()
        &&& forall|i: int|
            0 <= i < self@.len() ==> #[trigger] self@[i].relative_eq_spec(
                &other@[i],
                epsilon,
                max_relative,
            )
    }

    proof fn lemma_relative_eq_symmetric(
        a: &[A],
        b: &[A],
        epsilon: A::Epsilon,
        max_relative: A::Epsilon,
    ) {
        assert forall|i: int| 0 <= i < a@.len() && a@.len() == b@.len() implies a@[i].relative_eq_spec(
            &b@[i],
            epsilon,
            max_relative,
        ) == b@[i].relative_eq_spec(&a@[i], epsilon, max_relative) by {
            A::lemma_relative_eq_symmetric(&a@[i], &b@[i], epsilon, max_relative);
        }
    }

    fn default_max_relative() -> (r: A::Epsilon) {
        A::default_max_relative()
    }

    fn relative_eq(&self, other: &[A], epsilon: A::Epsilon, max_relative: A::Epsilon) -> (r:
        bool) {
        if self.len() != other.len() {
            return false;
        }
        let mut i: usize = 0;
        while i < self.len()
            invariant
                self@.len() == other@.len(),
                i <= self@.len(),
                forall|j: int|
                    0 <= j < i ==> #[trigger] self@[j].relative_eq_spec(
                        &other@[j],
                        epsilon,
                        max_relative,
                    ),
            decreases self@.len() - i,
        {
            if !A::relative_eq(&self[i], &other[i], epsilon, max_relative) {
                return false;
            }
            i = i + 1;
        }
        true
    }
}

} // verus!
