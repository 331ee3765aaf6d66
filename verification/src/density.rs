//! Types and constants for handling densities.
use crate::measurement::{Measurement, Quantity};
use crate::operators::{Comparable, Difference, Product, Quotient, Sum};
use crate::scalar::{Scalar, Text};
use vstd::prelude::*;

verus! {

/// The `Density` struct can be used to deal with densities in a common way.
#[derive(Copy, Clone, Debug)]
pub struct Density<T: Scalar> {
    kilograms_per_cubic_meter: T,
}

impl<T: Scalar> Density<T> {
    /// Create a new Density from a value in kilograms per cubic meter
    pub fn from_kilograms_per_cubic_meter(kilograms_per_cubic_meter: T) -> (r: Self)
        ensures
            r == Self::from_base_spec(kilograms_per_cubic_meter),
    {
        Density { kilograms_per_cubic_meter }
    }

    /// Convert this Density to a value in kilograms per cubic meter
    pub fn as_kilograms_per_cubic_meter(&self) -> (r: T)
        ensures
            r == self.base(),
    {
        self.kilograms_per_cubic_meter
    }
}

impl<T: Scalar> Measurement<T> for Density<T> {
    closed spec fn base(&self) -> T {
        self.kilograms_per_cubic_meter
    }

    closed spec fn from_base_spec(units: T) -> Self {
        Density { kilograms_per_cubic_meter: units }
    }

    open spec fn units_name_spec() -> Text {
        "kg/m\u{b3}"@
    }

    fn get_base_units_name(&self) -> (r: &'static str) {
        "kg/m\u{b3}"
    }

    fn as_base_units(&self) -> (r: T) {
        self.kilograms_per_cubic_meter
    }

    fn from_base_units(units: T) -> (r: Self) {
        Density { kilograms_per_cubic_meter: units }
    }
}

impl<T: Scalar> Quantity<T> for Density<T> {
    proof fn lemma_base_units(q: Self, units: T) {
    }
}

impl<T: Scalar> Comparable<T> for Density<T> {
}

impl<T: Scalar> Sum<T, Density<T>> for Density<T> {
    type Output = Density<T>;
}

impl<T: Scalar> Difference<T, Density<T>> for Density<T> {
    type Output = Density<T>;
}

/// The ratio of two quantities of this type is a bare number.
impl<T: Scalar> Quotient<T, Density<T>> for Density<T> {
    type Output = T;
}

impl<T: Scalar> Quotient<T, T> for Density<T> {
    type Output = Density<T>;
}

impl<T: Scalar> Product<T, T> for Density<T> {
    type Output = Density<T>;
}

impl<T: Scalar> Product<T, Density<T>> for T {
    type Output = Density<T>;
}

} // verus!
