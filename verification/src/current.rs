//! Types and constants for handling electric currents.
use crate::measurement::{Measurement, Quantity};
use crate::operators::{Comparable, Difference, Product, Quotient, Sum};
use crate::scalar::{Scalar, Text};
use vstd::prelude::*;

verus! {

/// The `Current` struct can be used to deal with electric currents in a common way.
#[derive(Copy, Clone, Debug)]
pub struct Current<T: Scalar> {
    amperes: T,
}

impl<T: Scalar> Current<T> {
    /// Create a new Current from a value in amperes
    pub fn from_amperes(amperes: T) -> (r: Self)
        ensures
            r == Self::from_base_spec(amperes),
    {
        Current { amperes }
    }

    /// Convert this Current to a value in amperes
    pub fn as_amperes(&self) -> (r: T)
        ensures
            r == self.base(),
    {
        self.amperes
    }
}

impl<T: Scalar> Measurement<T> for Current<T> {
    closed spec fn base(&self) -> T {
        self.amperes
    }

    closed spec fn from_base_spec(units: T) -> Self {
        Current { amperes: units }
    }

    open spec fn units_name_spec() -> Text {
        "A"@
    }

    fn get_base_units_name(&self) -> (r: &'static str) {
        "A"
    }

    fn as_base_units(&self) -> (r: T) {
        self.amperes
    }

    fn from_base_units(units: T) -> (r: Self) {
        Current { amperes: units }
    }
}

impl<T: Scalar> Quantity<T> for Current<T> {
    proof fn lemma_base_units(q: Self, units: T) {
    }
}

impl<T: Scalar> Comparable<T> for Current<T> {
}

impl<T: Scalar> Sum<T, Current<T>> for Current<T> {
    type Output = Current<T>;
}

impl<T: Scalar> Difference<T, Current<T>> for Current<T> {
    type Output = Current<T>;
}

/// The ratio of two quantities of this type is a bare number.
impl<T: Scalar> Quotient<T, Current<T>> for Current<T> {
    type Output = T;
}

impl<T: Scalar> Quotient<T, T> for Current<T> {
    type Output = Current<T>;
}

impl<T: Scalar> Product<T, T> for Current<T> {
    type Output = Current<T>;
}

impl<T: Scalar> Product<T, Current<T>> for T {
    type Output = Current<T>;
}

} // verus!
