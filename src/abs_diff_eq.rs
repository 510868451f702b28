//! The absolute difference test, its integer instances, and its instances on
//! references, options, results and slices.

use vstd::prelude::*;

verus! {

/// The distance between two integers.
pub open spec fn dist(a: int, b: int) -> int {
    if a >= b {
        a - b
    } else {
        b - a
    }
}

/// Equality that is defined using the absolute difference of two values.
pub trait AbsDiffEq: PartialEq {
    /// The type of the tolerance.
    type Epsilon;

    /// The tolerance that `default_epsilon` returns.
    spec fn default_epsilon_spec() -> Self::Epsilon;

    /// Whether `self` and `other` differ by at most `epsilon`.
    spec fn abs_diff_eq_spec(&self, other: &Self, epsilon: Self::Epsilon) -> bool;

    /// The default tolerance to use when testing values that are close together.
    fn default_epsilon() -> (r: Self::Epsilon)
        ensures
            r == Self::default_epsilon_spec(),
    ;

    /// A test for equality that uses the absolute difference of the two values.
    fn abs_diff_eq(&self, other: &Self, epsilon: Self::Epsilon) -> (r: bool)
        ensures
            r == self.abs_diff_eq_spec(other, epsilon),
    ;

    /// The absolute test does not depend on the order of its operands.
    proof fn lemma_abs_diff_eq_symmetric(a: &Self, b: &Self, epsilon: Self::Epsilon)
        ensures
            a.abs_diff_eq_spec(b, epsilon) == b.abs_diff_eq_spec(a, epsilon),
    ;

    /// The inverse of `abs_diff_eq`.
    fn abs_diff_ne(&self, other: &Self, epsilon: Self::Epsilon) -> (r: bool)
        ensures
            r == !self.abs_diff_eq_spec(other, epsilon),
    {
        !self.abs_diff_eq(other, epsilon)
    }
}

impl AbsDiffEq for u8 {
    type Epsilon = u8;

    open spec fn default_epsilon_spec() -> u8 {
        0
    }

    open spec fn abs_diff_eq_spec(&self, other: &u8, epsilon: u8) -> bool {
        dist(*self as int, *other as int) <= epsilon as int
    }

    proof fn lemma_abs_diff_eq_symmetric(a: &u8, b: &u8, epsilon: u8) {
    }

    fn default_epsilon() -> (r: u8) {
        0
    }

    fn abs_diff_eq(&self, other: &u8, epsilon: u8) -> (r: bool) {
        (if *self > *other { *self - *other } else { *other - *self }) <= epsilon
    }
}

impl AbsDiffEq for u16 {
    type Epsilon = u16;

    open spec fn default_epsilon_spec() -> u16 {
        0
    }

    open spec fn abs_diff_eq_spec(&self, other: &u16, epsilon: u16) -> bool {
        dist(*self as int, *other as int) <= epsilon as int
    }

    proof fn lemma_abs_diff_eq_symmetric(a: &u16, b: &u16, epsilon: u16) {
    }

    fn default_epsilon() -> (r: u16) {
        0
    }

    fn abs_diff_eq(&self, other: &u16, epsilon: u16) -> (r: bool) {
        (if *self > *other { *self - *other } else { *other - *self }) <= epsilon
    }
}

impl AbsDiffEq for u32 {
    type Epsilon = u32;

    open spec fn default_epsilon_spec() -> u32 {
        0
    }

    open spec fn abs_diff_eq_spec(&self, other: &u32, epsilon: u32) -> bool {
        dist(*self as int, *other as int) <= epsilon as int
    }

    proof fn lemma_abs_diff_eq_symmetric(a: &u32, b: &u32, epsilon: u32) {
    }

    fn default_epsilon() -> (r: u32) {
        0
    }

    fn abs_diff_eq(&self, other: &u32, epsilon: u32) -> (r: bool) {
        (if *self > *other { *self - *other } else { *other - *self }) <= epsilon
    }
}

impl AbsDiffEq for u64 {
    type Epsilon = u64;

    open spec fn default_epsilon_spec() -> u64 {
        0
    }

    open spec fn abs_diff_eq_spec(&self, other: &u64, epsilon: u64) -> bool {
        dist(*self as int, *other as int) <= epsilon as int
    }

    proof fn lemma_abs_diff_eq_symmetric(a: &u64, b: &u64, epsilon: u64) {
    }

    fn default_epsilon() -> (r: u64) {
        0
    }

    fn abs_diff_eq(&self, other: &u64, epsilon: u64) -> (r: bool) {
        (if *self > *other { *self - *other } else { *other - *self }) <= epsilon
    }
}

impl AbsDiffEq for usize {
    type Epsilon = usize;

    open spec fn default_epsilon_spec() -> usize {
        0
    }

    open spec fn abs_diff_eq_spec(&self, other: &usize, epsilon: usize) -> bool {
        dist(*self as int, *other as int) <= epsilon as int
    }

    proof fn lemma_abs_diff_eq_symmetric(a: &usize, b: &usize, epsilon: usize) {
    }

    fn default_epsilon() -> (r: usize) {
        0
    }

    fn abs_diff_eq(&self, other: &usize, epsilon: usize) -> (r: bool) {
        (if *self > *other { *self - *other } else { *other - *self }) <= epsilon
    }
}

impl AbsDiffEq for i8 {
    type Epsilon = i8;

    open spec fn default_epsilon_spec() -> i8 {
        0
    }

    open spec fn abs_diff_eq_spec(&self, other: &i8, epsilon: i8) -> bool {
        dist(*self as int, *other as int) <= epsilon as int
    }

    proof fn lemma_abs_diff_eq_symmetric(a: &i8, b: &i8, epsilon: i8) {
    }

    fn default_epsilon() -> (r: i8) {
        0
    }

    fn abs_diff_eq(&self, other: &i8, epsilon: i8) -> (r: bool) {
        // The difference is taken in a wider type, where it cannot overflow.
        let d: i16 = if *self > *other {
            *self as i16 - *other as i16
        } else {
            *other as i16 - *self as i16
        };
        d <= epsilon as i16
    }
}

impl AbsDiffEq for i16 {
    type Epsilon = i16;

    open spec fn default_epsilon_spec() -> i16 {
        0
    }

    open spec fn abs_diff_eq_spec(&self, other: &i16, epsilon: i16) -> bool {
        dist(*self as int, *other as int) <= epsilon as int
    }

    proof fn lemma_abs_diff_eq_symmetric(a: &i16, b: &i16, epsilon: i16) {
    }

    fn default_epsilon() -> (r: i16) {
        0
    }

    fn abs_diff_eq(&self, other: &i16, epsilon: i16) -> (r: bool) {
        // The difference is taken in a wider type, where it cannot overflow.
        let d: i32 = if *self > *other {
            *self as i32 - *other as i32
        } else {
            *other as i32 - *self as i32
        };
        d <= epsilon as i32
    }
}

impl AbsDiffEq for i32 {
    type Epsilon = i32;

    open spec fn default_epsilon_spec() -> i32 {
        0
    }

    open spec fn abs_diff_eq_spec(&self, other: &i32, epsilon: i32) -> bool {
        dist(*self as int, *other as int) <= epsilon as int
    }

    proof fn lemma_abs_diff_eq_symmetric(a: &i32, b: &i32, epsilon: i32) {
    }

    fn default_epsilon() -> (r: i32) {
        0
    }

    fn abs_diff_eq(&self, other: &i32, epsilon: i32) -> (r: bool) {
        // The difference is taken in a wider type, where it cannot overflow.
        let d: i64 = if *self > *other {
            *self as i64 - *other as i64
        } else {
            *other as i64 - *self as i64
        };
        d <= epsilon as i64
    }
}

impl AbsDiffEq for i64 {
    type Epsilon = i64;

    open spec fn default_epsilon_spec() -> i64 {
        0
    }

    open spec fn abs_diff_eq_spec(&self, other: &i64, epsilon: i64) -> bool {
        dist(*self as int, *other as int) <= epsilon as int
    }

    proof fn lemma_abs_diff_eq_symmetric(a: &i64, b: &i64, epsilon: i64) {
    }

    fn default_epsilon() -> (r: i64) {
        0
    }

    fn abs_diff_eq(&self, other: &i64, epsilon: i64) -> (r: bool) {
        // The difference is taken in a wider type, where it cannot overflow.
        let d: i128 = if *self > *other {
            *self as i128 - *other as i128
        } else {
            *other as i128 - *self as i128
        };
        d <= epsilon as i128
    }
}

impl AbsDiffEq for isize {
    type Epsilon = isize;

    open spec fn default_epsilon_spec() -> isize {
        0
    }

    open spec fn abs_diff_eq_spec(&self, other: &isize, epsilon: isize) -> bool {
        dist(*self as int, *other as int) <= epsilon as int
    }

    proof fn lemma_abs_diff_eq_symmetric(a: &isize, b: &isize, epsilon: isize) {
    }

    fn default_epsilon() -> (r: isize) {
        0
    }

    fn abs_diff_eq(&self, other: &isize, epsilon: isize) -> (r: bool) {
        // The difference is taken in a wider type, where it cannot overflow.
        let d: i128 = if *self > *other {
            *self as i128 - *other as i128
        } else {
            *other as i128 - *self as i128
        };
        d <= epsilon as i128
    }
}

impl<'a, T: AbsDiffEq> AbsDiffEq for &'a T {
    type Epsilon = T::Epsilon;

    open spec fn default_epsilon_spec() -> T::Epsilon {
        T::default_epsilon_spec()
    }

    open spec fn abs_diff_eq_spec(&self, other: &&'a T, epsilon: T::Epsilon) -> bool {
        T::abs_diff_eq_spec(*self, *other, epsilon)
    }

    proof fn lemma_abs_diff_eq_symmetric(a: &&'a T, b: &&'a T, epsilon: T::Epsilon) {
        T::lemma_abs_diff_eq_symmetric(*a, *b, epsilon);
    }

    fn default_epsilon() -> (r: T::Epsilon) {
        T::default_epsilon()
    }

    fn abs_diff_eq(&self, other: &&'a T, epsilon: T::Epsilon) -> (r: bool) {
        T::abs_diff_eq(*self, *other, epsilon)
    }
}

impl<'a, T: AbsDiffEq> AbsDiffEq for &'a mut T {
    type Epsilon = T::Epsilon;

    open spec fn default_epsilon_spec() -> T::Epsilon {
        T::default_epsilon_spec()
    }

    open spec fn abs_diff_eq_spec(&self, other: &&'a mut T, epsilon: T::Epsilon) -> bool {
        T::abs_diff_eq_spec(&**self, &**other, epsilon)
    }

    proof fn lemma_abs_diff_eq_symmetric(a: &&'a mut T, b: &&'a mut T, epsilon: T::Epsilon) {
        T::lemma_abs_diff_eq_symmetric(&**a, &**b, epsilon);
    }

    fn default_epsilon() -> (r: T::Epsilon) {
        T::default_epsilon()
    }

    fn abs_diff_eq(&self, other: &&'a mut T, epsilon: T::Epsilon) -> (r: bool) {
        T::abs_diff_eq(&**self, &**other, epsilon)
    }
}

/// Two optional values are close when both are absent, or both are present
/// and their payloads are close.
impl<T: AbsDiffEq> AbsDiffEq for Option<T> {
    type Epsilon = T::Epsilon;

    open spec fn default_epsilon_spec() -> T::Epsilon {
        T::default_epsilon_spec()
    }

    open spec fn abs_diff_eq_spec(&self, other: &Option<T>, epsilon: T::Epsilon) -> bool {
        match (self, other) {
            (Some(a), Some(b)) => a.abs_diff_eq_spec(b, epsilon),
            (None, None) => true,
            _ => false,
        }
    }

    proof fn lemma_abs_diff_eq_symmetric(a: &Option<T>, b: &Option<T>, epsilon: T::Epsilon) {
        if let (Some(x), Some(y)) = (a, b) {
            T::lemma_abs_diff_eq_symmetric(x, y, epsilon);
        }
    }

    fn default_epsilon() -> (r: T::Epsilon) {
        T::default_epsilon()
    }

    fn abs_diff_eq(&self, other: &Option<T>, epsilon: T::Epsilon) -> (r: bool) {
        match (self, other) {
            (Some(a), Some(b)) => T::abs_diff_eq(a, b, epsilon),
            (None, None) => true,
            _ => false,
        }
    }
}

/// Two results are close when they are the same variant and their payloads
/// are close; the tolerance holds one component for each variant.
impl<T: AbsDiffEq, E: AbsDiffEq> AbsDiffEq for Result<T, E> {
    type Epsilon = (T::Epsilon, E::Epsilon);

    open spec fn default_epsilon_spec() -> (T::Epsilon, E::Epsilon) {
        (T::default_epsilon_spec(), E::default_epsilon_spec())
    }

    open spec fn abs_diff_eq_spec(&self, other: &Result<T, E>, epsilon: (T::Epsilon, E::Epsilon)) -> bool {
        match (self, other) {
            (Ok(a), Ok(b)) => a.abs_diff_eq_spec(b, epsilon.0),
            (Err(a), Err(b)) => a.abs_diff_eq_spec(b, epsilon.1),
            _ => false,
        }
    }

    proof fn lemma_abs_diff_eq_symmetric(
        a: &Result<T, E>,
        b: &Result<T, E>,
        epsilon: (T::Epsilon, E::Epsilon),
    ) {
        match (a, b) {
            (Ok(x), Ok(y)) => T::lemma_abs_diff_eq_symmetric(x, y, epsilon.0),
            (Err(x), Err(y)) => E::lemma_abs_diff_eq_symmetric(x, y, epsilon.1),
            _ => {},
        }
    }

    fn default_epsilon() -> (r: (T::Epsilon, E::Epsilon)) {
        (T::default_epsilon(), E::default_epsilon())
    }

    fn abs_diff_eq(&self, other: &Result<T, E>, epsilon: (T::Epsilon, E::Epsilon)) -> (r: bool) {
        match (self, other) {
            (Ok(a), Ok(b)) => T::abs_diff_eq(a, b, epsilon.0),
            (Err(a), Err(b)) => E::abs_diff_eq(a, b, epsilon.1),
            _ => false,
        }
    }
}

/// Two slices are close when they have the same length and the elements at
/// each position are close, all under the same tolerance.
impl<A: AbsDiffEq> AbsDiffEq for [A] where A::Epsilon: Copy {
    type Epsilon = A::Epsilon;

    open spec fn default_epsilon_spec() -> A::Epsilon {
        A::default_epsilon_spec()
    }

    open spec fn abs_diff_eq_spec(&self, other: &[A], epsilon: A::Epsilon) -> bool {
        &&& self@.len() == other@.len()
        &&& forall|i: int|
            0 <= i < self@.len() ==> #[trigger] self@[i].abs_diff_eq_spec(&other@[i], epsilon)
    }

    proof fn lemma_abs_diff_eq_symmetric(a: &[A], b: &[A], epsilon: A::Epsilon) {
        assert forall|i: int| 0 <= i < a@.len() && a@.len() == b@.len() implies
            a@[i].abs_diff_eq_spec(&b@[i], epsilon) == b@[i].abs_diff_eq_spec(&a@[i], epsilon) by {
            A::lemma_abs_diff_eq_symmetric(&a@[i], &b@[i], epsilon);
        }
    }

    fn default_epsilon() -> (r: A::Epsilon) {
        A::default_epsilon()
    }

    fn abs_diff_eq(&self, other: &[A], epsilon: A::Epsilon) -> (r: bool) {
        if self.len() != other.len() {
            return false;
        }
        let mut i: usize = 0;
        while i < self.len()
            invariant
                self@.len() == other@.len(),
                i <= self@.len(),
                forall|j: int| 0 <= j < i ==> #[trigger] self@[j].abs_diff_eq_spec(&other@[j], epsilon),
            decreases self@.len() - i,
        {
            if !A::abs_diff_eq(&self[i], &other[i], epsilon) {
                return false;
            }
            i = i + 1;
        }
        true
    }
}

} // verus!
