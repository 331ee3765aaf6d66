//! Types and constants for handling forces.
use crate::measurement::{Measurement, Quantity};
use crate::operators::{Comparable, Difference, Product, Quotient, Sum};
use crate::scalar::{Scalar, Text};
use vstd::prelude::*;

verus! {

/// The `Force` struct can be used to deal with forces in a common way.
#[derive(Copy, Clone, Debug)]
pub struct Force<T: Scalar> {
    newtons: T,
}

impl<T: Scalar> Force<T> {
    /// Create a new Force from a value in newtons
    pub fn from_newtons(newtons: T) -> (r: Self)
        ensures
            r == Self::from_base_spec(newtons),
    {
        Force { newtons }
    }

    /// Convert this Force to a value in newtons
    pub fn as_newtons(&self) -> (r: T)
        ensures
            r == self.base(),
    {
        self.newtons
    }
}

impl<T: Scalar> Measurement<T> for Force<T> {
    closed spec fn base(&self) -> T {
        self.newtons
    }

    closed spec fn from_base_spec(units: T) -> Self {
        Force { newtons: units }
    }

    open spec fn units_name_spec() -> Text {
        "N"@
    }

    fn get_base_units_name(&self) -> (r: &'static str) {
        "N"
    }

    fn as_base_units(&self) -> (r: T) {
        self.newtons
    }

    fn from_base_units(units: T) -> (r: Self) {
        Force { newtons: units }
    }
}

impl<T: Scalar> Quantity<T> for Force<T> {
    proof fn lemma_base_units(q: Self, units: T) {
    }
}

impl<T: Scalar> Comparable<T> for Force<T> {
}

impl<T: Scalar> Sum<T, Force<T>> for Force<T> {
    type Output = Force<T>;
}

impl<T: Scalar> Difference<T, Force<T>> for Force<T> {
    type Output = Force<T>;
}

/// The ratio of two quantities of this type is a bare number.
impl<T: Scalar> Quotient<T, Force<T>> for Force<T> {
    type Output = T;
}

impl<T: Scalar> Quotient<T, T> for Force<T> {
    type Output = Force<T>;
}

impl<T: Scalar> Product<T, T> for Force<T> {
    type Output = Force<T>;
}

impl<T: Scalar> Product<T, Force<T>> for T {
    type Output = Force<T>;
}

} // verus!
