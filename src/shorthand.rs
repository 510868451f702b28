//! Comparisons with some parameters left at the type's defaults.

use vstd::prelude::*;

use crate::relative_eq::RelativeEq;
use crate::ulps_eq::UlpsEq;

verus! {

/// The relative test with both parameters given.
pub fn relative_eq<T: RelativeEq>(a: &T, b: &T, epsilon: T::Epsilon, max_relative: T::Epsilon) -> (r: bool)
    ensures
        r == a.relative_eq_spec(b, epsilon, max_relative),
{
    T::relative_eq(a, b, epsilon, max_relative)
}

/// The relative test with the default relative tolerance.
pub fn relative_eq_with_epsilon<T: RelativeEq>(a: &T, b: &T, epsilon: T::Epsilon) -> (r: bool)
    ensures
        r == a.relative_eq_spec(b, epsilon, T::default_max_relative_spec()),
{
    T::relative_eq(a, b, epsilon, T::default_max_relative())
}

/// The relative test with the default absolute tolerance.
pub fn relative_eq_with_max<T: RelativeEq>(a: &T, b: &T, max_relative: T::Epsilon) -> (r: bool)
    ensures
        r == a.relative_eq_spec(b, T::default_epsilon_spec(), max_relative),
{
    T::relative_eq(a, b, T::default_epsilon(), max_relative)
}

/// The relative test with both parameters at their defaults.
pub fn default_relative_eq<T: RelativeEq>(a: &T, b: &T) -> (r: bool)
    ensures
        r == a.relative_eq_spec(b, T::default_epsilon_spec(), T::default_max_relative_spec()),
{
    T::relative_eq(a, b, T::default_epsilon(), T::default_max_relative())
}

/// The negation of the relative test with both parameters given.
pub fn relative_ne<T: RelativeEq>(a: &T, b: &T, epsilon: T::Epsilon, max_relative: T::Epsilon) -> (r: bool)
    ensures
        r == !a.relative_eq_spec(b, epsilon, max_relative),
{
    T::relative_ne(a, b, epsilon, max_relative)
}

/// The negation of the relative test with the default relative tolerance.
pub fn relative_ne_with_epsilon<T: RelativeEq>(a: &T, b: &T, epsilon: T::Epsilon) -> (r: bool)
    ensures
        r == !a.relative_eq_spec(b, epsilon, T::default_max_relative_spec()),
{
    T::relative_ne(a, b, epsilon, T::default_max_relative())
}

/// The negation of the relative test with the default absolute tolerance.
pub fn relative_ne_with_max<T: RelativeEq>(a: &T, b: &T, max_relative: T::Epsilon) -> (r: bool)
    ensures
        r == !a.relative_eq_spec(b, T::default_epsilon_spec(), max_relative),
{
    T::relative_ne(a, b, T::default_epsilon(), max_relative)
}

/// The negation of the relative test with both parameters at their defaults.
pub fn default_relative_ne<T: RelativeEq>(a: &T, b: &T) -> (r: bool)
    ensures
        r == !a.relative_eq_spec(b, T::default_epsilon_spec(), T::default_max_relative_spec()),
{
    T::relative_ne(a, b, T::default_epsilon(), T::default_max_relative())
}

/// The ULPs test with both parameters given.
pub fn ulps_eq<T: UlpsEq>(a: &T, b: &T, epsilon: T::Epsilon, max_ulps: u32) -> (r: bool)
    ensures
        r == a.ulps_eq_spec(b, epsilon, max_ulps),
{
    T::ulps_eq(a, b, epsilon, max_ulps)
}

/// The ULPs test with the default ULP tolerance.
pub fn ulps_eq_with_epsilon<T: UlpsEq>(a: &T, b: &T, epsilon: T::Epsilon) -> (r: bool)
    ensures
        r == a.ulps_eq_spec(b, epsilon, T::default_max_ulps_spec()),
{
    T::ulps_eq(a, b, epsilon, T::default_max_ulps())
}

/// The ULPs test with the default absolute tolerance.
pub fn ulps_eq_with_max<T: UlpsEq>(a: &T, b: &T, max_ulps: u32) -> (r: bool)
    ensures
        r == a.ulps_eq_spec(b, T::default_epsilon_spec(), max_ulps),
{
    T::ulps_eq(a, b, T::default_epsilon(), max_ulps)
}

/// The ULPs test with both parameters at their defaults.
pub fn default_ulps_eq<T: UlpsEq>(a: &T, b: &T) -> (r: bool)
    ensures
        r == a.ulps_eq_spec(b, T::default_epsilon_spec(), T::default_max_ulps_spec()),
{
    T::ulps_eq(a, b, T::default_epsilon(), T::default_max_ulps())
}

/// The negation of the ULPs test with both parameters given.
pub fn ulps_ne<T: UlpsEq>(a: &T, b: &T, epsilon: T::Epsilon, max_ulps: u32) -> (r: bool)
    ensures
        r == !a.ulps_eq_spec(b, epsilon, max_ulps),
{
    T::ulps_ne(a, b, epsilon, max_ulps)
}

/// The negation of the ULPs test with the default ULP tolerance.
pub fn ulps_ne_with_epsilon<T: UlpsEq>(a: &T, b: &T, epsilon: T::Epsilon) -> (r: bool)
    ensures
        r == !a.ulps_eq_spec(b, epsilon, T::default_max_ulps_spec()),
{
    T::ulps_ne(a, b, epsilon, T::default_max_ulps())
}

/// The negation of the ULPs test with the default absolute tolerance.
pub fn ulps_ne_with_max<T: UlpsEq>(a: &T, b: &T, max_ulps: u32) -> (r: bool)
    ensures
        r == !a.ulps_eq_spec(b, T::default_epsilon_spec(), max_ulps),
{
    T::ulps_ne(a, b, T::default_epsilon(), max_ulps)
}

/// The negation of the ULPs test with both parameters at their defaults.
pub fn default_ulps_ne<T: UlpsEq>(a: &T, b: &T) -> (r: bool)
    ensures
        r == !a.ulps_eq_spec(b, T::default_epsilon_spec(), T::default_max_ulps_spec()),
{
    T::ulps_ne(a, b, T::default_epsilon(), T::default_max_ulps())
}

} // verus!
