//! Types and constants for handling powers.
use crate::measurement::{Measurement, Quantity};
use crate::operators::{Comparable, Difference, Product, Quotient, Sum};
use crate::scalar::{Scalar, Text};
use vstd::prelude::*;

verus! {

/// The `Power` struct can be used to deal with powers in a common way.
#[derive(Copy, Clone, Debug)]
pub struct Power<T: Scalar> {
    watts: T,
}

impl<T: Scalar> Power<T> {
    /// Create a new Power from a value in watts
    pub fn from_watts(watts: T) -> (r: Self)
        ensures
            r == Self::from_base_spec(watts),
    {
        Power { watts }
    }

    /// Convert this Power to a value in watts
    pub fn as_watts(&self) -> (r: T)
        ensures
            r == self.base(),
    {
        self.watts
    }
}

impl<T: Scalar> Measurement<T> for Power<T> {
    closed spec fn base(&self) -> T {
        self.watts
    }

    closed spec fn from_base_spec(units: T) -> Self {
        Power { watts: units }
    }

    open spec fn units_name_spec() -> Text {
        "W"@
    }

    fn get_base_units_name(&self) -> (r: &'static str) {
        "W"
    }

    fn as_base_units(&self) -> (r: T) {
        self.watts
    }

    fn from_base_units(units: T) -> (r: Self) {
        Power { watts: units }
    }
}

impl<T: Scalar> Quantity<T> for Power<T> {
    proof fn lemma_base_units(q: Self, units: T) {
    }
}

impl<T: Scalar> Comparable<T> for Power<T> {
}

impl<T: Scalar> Sum<T, Power<T>> for Power<T> {
    type Output = Power<T>;
}

impl<T: Scalar> Difference<T, Power<T>> for Power<T> {
    type Output = Power<T>;
}

/// The ratio of two quantities of this type is a bare number.
impl<T: Scalar> Quotient<T, Power<T>> for Power<T> {
    type Output = T;
}

impl<T: Scalar> Quotient<T, T> for Power<T> {
    type Output = Power<T>;
}

impl<T: Scalar> Product<T, T> for Power<T> {
    type Output = Power<T>;
}

impl<T: Scalar> Product<T, Power<T>> for T {
    type Output = Power<T>;
}

} // verus!
