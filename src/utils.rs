use vstd::prelude::*;

verus! {

/// Equality up to a tolerance; exact for integers.
pub trait ApproximateEq<Rhs = Self> {
    /// Equality at the fine tolerance.
    fn approx_eq(&self, other: &Rhs) -> bool;

    /// Equality at the coarse tolerance.
    fn approx_eq_low(&self, other: &Rhs) -> bool;
}

impl ApproximateEq for i64 {
    fn approx_eq(&self, other: &i64) -> (r: bool)
        ensures
            r == (*self == *other),
    {
        *self == *other
    }

    fn approx_eq_low(&self, other: &i64) -> (r: bool)
        ensures
            r == (*self == *other),
    {
        *self == *other
    }
}

impl ApproximateEq for i32 {
    fn approx_eq(&self, other: &i32) -> (r: bool)
        ensures
            r == (*self == *other),
    {
        *self == *other
    }

    fn approx_eq_low(&self, other: &i32) -> (r: bool)
        ensures
            r == (*self == *other),
    {
        *self == *other
    }
}

/// The additive identity: `x + T::zero() == x`.
pub trait Zero: Sized {
    fn zero() -> Self;
}

/// The multiplicative identity: `x * T::one() == x`.
pub trait One: Sized {
    fn one() -> Self;
}

impl Zero for usize {
    fn zero() -> (r: usize)
        ensures
            r == 0,
    {
        0
    }
}

impl Zero for i32 {
    fn zero() -> (r: i32)
        ensures
            r == 0,
    {
        0
    }
}

impl Zero for i64 {
    fn zero() -> (r: i64)
        ensures
            r == 0,
    {
        0
    }
}

impl One for usize {
    fn one() -> (r: usize)
        ensures
            r == 1,
    {
        1
    }
}

impl One for i32 {
    fn one() -> (r: i32)
        ensures
            r == 1,
    {
        1
    }
}

impl One for i64 {
    fn one() -> (r: i64)
        ensures
            r == 1,
    {
        1
    }
}

} // verus!
