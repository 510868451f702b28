//! Properties that relate the comparisons of composite values to those of
//! their parts, and that hold of every integer instance.

use vstd::prelude::*;

use crate::abs_diff_eq::AbsDiffEq;
use crate::ulps_eq::UlpsEq;

verus! {

/// Two slices of two elements are equal in ULPs exactly when the first
/// elements are and the second elements are, under the same parameters.
pub proof fn lemma_ulps_eq_pairs<A: UlpsEq>(a: &[A], b: &[A], epsilon: A::Epsilon, max_ulps: u32)
    where
        A::Epsilon: Copy,
    requires
        a@.len() == 2,
        b@.len() == 2,
    ensures
        a.ulps_eq_spec(b, epsilon, max_ulps) == (a@[0].ulps_eq_spec(&b@[0], epsilon, max_ulps)
            && a@[1].ulps_eq_spec(&b@[1], epsilon, max_ulps)),
{
    if a@[0].ulps_eq_spec(&b@[0], epsilon, max_ulps) && a@[1].ulps_eq_spec(
        &b@[1],
        epsilon,
        max_ulps,
    ) {
        assert forall|i: int| 0 <= i < a@.len() implies #[trigger] a@[i].ulps_eq_spec(
            &b@[i],
            epsilon,
            max_ulps,
        ) by {
            if i == 0 {
            } else {
                assert(i == 1);
            }
        }
    }
}

/// Slices of different lengths are never equal in ULPs.
pub proof fn lemma_ulps_eq_length_mismatch<A: UlpsEq>(
    a: &[A],
    b: &[A],
    epsilon: A::Epsilon,
    max_ulps: u32,
)
    where
        A::Epsilon: Copy,
    requires
        a@.len() != b@.len(),
    ensures
        !a.ulps_eq_spec(b, epsilon, max_ulps),
{
}

/// Optional values compare as their payloads when both are present, are
/// equal when both are absent, and are unequal when only one is present.
pub proof fn lemma_ulps_eq_options<T: UlpsEq>(x: T, y: T, epsilon: T::Epsilon, max_ulps: u32)
    ensures
        Some(x).ulps_eq_spec(&Some(y), epsilon, max_ulps) == x.ulps_eq_spec(&y, epsilon, max_ulps),
        !Some(x).ulps_eq_spec(&None, epsilon, max_ulps),
        !None::<T>.ulps_eq_spec(&Some(y), epsilon, max_ulps),
        None::<T>.ulps_eq_spec(&None, epsilon, max_ulps),
{
}

/// Optional values compare as their payloads under the absolute test when
/// both are present, are equal when both are absent, and are unequal when only
/// one is present.
pub proof fn lemma_abs_diff_eq_options<T: AbsDiffEq>(x: T, y: T, epsilon: T::Epsilon)
    ensures
        Some(x).abs_diff_eq_spec(&Some(y), epsilon) == x.abs_diff_eq_spec(&y, epsilon),
        !Some(x).abs_diff_eq_spec(&None, epsilon),
        !None::<T>.abs_diff_eq_spec(&Some(y), epsilon),
        None::<T>.abs_diff_eq_spec(&None, epsilon),
{
}

/// Every integer is equal to itself under the absolute test with a zero
/// tolerance, which is each integer type's default.
pub proof fn lemma_abs_diff_eq_reflexive_integers()
    ensures
        forall|x: u8| #[trigger] x.abs_diff_eq_spec(&x, 0u8),
        forall|x: u16| #[trigger] x.abs_diff_eq_spec(&x, 0u16),
        forall|x: u32| #[trigger] x.abs_diff_eq_spec(&x, 0u32),
        forall|x: u64| #[trigger] x.abs_diff_eq_spec(&x, 0u64),
        forall|x: usize| #[trigger] x.abs_diff_eq_spec(&x, 0usize),
        forall|x: i8| #[trigger] x.abs_diff_eq_spec(&x, 0i8),
        forall|x: i16| #[trigger] x.abs_diff_eq_spec(&x, 0i16),
        forall|x: i32| #[trigger] x.abs_diff_eq_spec(&x, 0i32),
        forall|x: i64| #[trigger] x.abs_diff_eq_spec(&x, 0i64),
        forall|x: isize| #[trigger] x.abs_diff_eq_spec(&x, 0isize),
{
}

} // verus!
