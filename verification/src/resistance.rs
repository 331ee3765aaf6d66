//! Types and constants for handling electrical resistances.
use crate::measurement::{Measurement, Quantity};
use crate::operators::{Comparable, Difference, Product, Quotient, Sum};
use crate::scalar::{Scalar, Text};
use vstd::prelude::*;

verus! {

/// The `Resistance` struct can be used to deal with electrical resistances in a common way.
#[derive(Copy, Clone, Debug)]
pub struct Resistance<T: Scalar> {
    ohms: T,
}

impl<T: Scalar> Resistance<T> {
    /// Create a new Resistance from a value in ohms
    pub fn from_ohms(ohms: T) -> (r: Self)
        ensures
            r == Self::from_base_spec(ohms),
    {
        Resistance { ohms }
    }

    /// Convert this Resistance to a value in ohms
    pub fn as_ohms(&self) -> (r: T)
        ensures
            r == self.base(),
    {
        self.ohms
    }
}

impl<T: Scalar> Measurement<T> for Resistance<T> {
    closed spec fn base(&self) -> T {
        self.ohms
    }

    closed spec fn from_base_spec(units: T) -> Self {
        Resistance { ohms: units }
    }

    open spec fn units_name_spec() -> Text {
        "\u{2126}"@
    }

    fn get_base_units_name(&self) -> (r: &'static str) {
        "\u{2126}"
    }

    fn as_base_units(&self) -> (r: T) {
        self.ohms
    }

    fn from_base_units(units: T) -> (r: Self) {
        Resistance { ohms: units }
    }
}

impl<T: Scalar> Quantity<T> for Resistance<T> {
    proof fn lemma_base_units(q: Self, units: T) {
    }
}

impl<T: Scalar> Comparable<T> for Resistance<T> {
}

impl<T: Scalar> Sum<T, Resistance<T>> for Resistance<T> {
    type Output = Resistance<T>;
}

impl<T: Scalar> Difference<T, Resistance<T>> for Resistance<T> {
    type Output = Resistance<T>;
}

/// The ratio of two quantities of this type is a bare number.
impl<T: Scalar> Quotient<T, Resistance<T>> for Resistance<T> {
    type Output = T;
}

impl<T: Scalar> Quotient<T, T> for Resistance<T> {
    type Output = Resistance<T>;
}

impl<T: Scalar> Product<T, T> for Resistance<T> {
    type Output = Resistance<T>;
}

impl<T: Scalar> Product<T, Resistance<T>> for T {
    type Output = Resistance<T>;
}

} // verus!
