//! Arithmetic and comparison of quantities, written once for all of them.
//!
//! Each operator is a trait over the two operand types with the result type
//! as `Output`, and its one method is provided: it converts both operands to
//! base units, applies the scalar operation and builds the result from base
//! units. A quantity type takes part in an operation by naming the result
//! type, and supplies nothing else.
//!
//! A bare number counts as a dimensionless measurement, so that scaling a
//! quantity and the ratio of two quantities are instances of the same
//! operators.
use crate::measurement::Measurement;
use crate::scalar::{ge_spec, le_spec, Scalar};
use std::cmp::Ordering;
use vstd::prelude::*;

verus! {

/// The sum of two measurements as a measurement of type `O`: the base units
/// of both added, and the result built from that many base units.
pub open spec fn sum_spec<T: Scalar, A: Measurement<T>, B: Measurement<T>, O: Measurement<T>>(
    a: A,
    b: B,
) -> O {
    O::from_base_spec(a.base().plus_spec(b.base()))
}

/// The difference of two measurements as a measurement of type `O`.
pub open spec fn difference_spec<
    T: Scalar,
    A: Measurement<T>,
    B: Measurement<T>,
    O: Measurement<T>,
>(a: A, b: B) -> O {
    O::from_base_spec(a.base().minus_spec(b.base()))
}

/// The product of two measurements as a measurement of type `O`.
pub open spec fn product_spec<
    T: Scalar,
    A: Measurement<T>,
    B: Measurement<T>,
    O: Measurement<T>,
>(a: A, b: B) -> O {
    O::from_base_spec(a.base().times_spec(b.base()))
}

/// The quotient of two measurements as a measurement of type `O`.
pub open spec fn quotient_spec<
    T: Scalar,
    A: Measurement<T>,
    B: Measurement<T>,
    O: Measurement<T>,
>(a: A, b: B) -> O {
    O::from_base_spec(a.base().over_spec(b.base()))
}

/// `Self + Rhs`.
pub trait Sum<T: Scalar, Rhs: Measurement<T>>: Measurement<T> {
    type Output: Measurement<T>;

    fn add(self, rhs: Rhs) -> (r: Self::Output)
        ensures
            r == sum_spec::<T, Self, Rhs, Self::Output>(self, rhs),
    {
        Self::Output::from_base_units(self.as_base_units().plus(rhs.as_base_units()))
    }
}

/// `Self - Rhs`.
pub trait Difference<T: Scalar, Rhs: Measurement<T>>: Measurement<T> {
    type Output: Measurement<T>;

    fn sub(self, rhs: Rhs) -> (r: Self::Output)
        ensures
            r == difference_spec::<T, Self, Rhs, Self::Output>(self, rhs),
    {
        Self::Output::from_base_units(self.as_base_units().minus(rhs.as_base_units()))
    }
}

/// `Self * Rhs`.
pub trait Product<T: Scalar, Rhs: Measurement<T>>: Measurement<T> {
    type Output: Measurement<T>;

    fn mul(self, rhs: Rhs) -> (r: Self::Output)
        ensures
            r == product_spec::<T, Self, Rhs, Self::Output>(self, rhs),
    {
        Self::Output::from_base_units(self.as_base_units().times(rhs.as_base_units()))
    }
}

/// `Self / Rhs`.
pub trait Quotient<T: Scalar, Rhs: Measurement<T>>: Measurement<T> {
    type Output: Measurement<T>;

    fn div(self, rhs: Rhs) -> (r: Self::Output)
        ensures
            r == quotient_spec::<T, Self, Rhs, Self::Output>(self, rhs),
    {
        Self::Output::from_base_units(self.as_base_units().over(rhs.as_base_units()))
    }
}

/// Equality and order of two quantities of one type, decided by their
/// numbers of base units.
pub trait Comparable<T: Scalar>: Measurement<T> {
    fn eq(&self, other: &Self) -> (r: bool)
        ensures
            r == self.base().equals_spec(other.base()),
    {
        self.as_base_units().equals(&other.as_base_units())
    }

    fn ne(&self, other: &Self) -> (r: bool)
        ensures
            r == !self.base().equals_spec(other.base()),
    {
        !self.as_base_units().equals(&other.as_base_units())
    }

    fn lt(&self, other: &Self) -> (r: bool)
        ensures
            r == self.base().below_spec(other.base()),
    {
        self.as_base_units().below(&other.as_base_units())
    }

    fn le(&self, other: &Self) -> (r: bool)
        ensures
            r == le_spec(self.base(), other.base()),
    {
        crate::scalar::le(&self.as_base_units(), &other.as_base_units())
    }

    fn gt(&self, other: &Self) -> (r: bool)
        ensures
            r == other.base().below_spec(self.base()),
    {
        other.as_base_units().below(&self.as_base_units())
    }

    fn ge(&self, other: &Self) -> (r: bool)
        ensures
            r == ge_spec(self.base(), other.base()),
    {
        crate::scalar::ge(&self.as_base_units(), &other.as_base_units())
    }
}

/// How two numbers compare: below, equal, above, or not at all.
pub open spec fn ordering_spec<T: Scalar>(a: T, b: T) -> Option<Ordering> {
    if a.below_spec(b) {
        Some(Ordering::Less)
    } else if a.equals_spec(b) {
        Some(Ordering::Equal)
    } else if b.below_spec(a) {
        Some(Ordering::Greater)
    } else {
        None
    }
}

/// The order of two quantities is the order of their numbers of base units.
/// They are incomparable only when those numbers are.
pub fn partial_cmp<T: Scalar, Q: Comparable<T>>(a: &Q, b: &Q) -> (r: Option<Ordering>)
    ensures
        r == ordering_spec(a.base(), b.base()),
{
    if a.lt(b) {
        Some(Ordering::Less)
    } else if a.eq(b) {
        Some(Ordering::Equal)
    } else if a.gt(b) {
        Some(Ordering::Greater)
    } else {
        None
    }
}

} // verus!
