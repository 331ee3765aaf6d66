//! Types and constants for handling voltages.
use crate::measurement::{Measurement, Quantity};
use crate::operators::{Comparable, Difference, Product, Quotient, Sum};
use crate::scalar::{Scalar, Text};
use vstd::prelude::*;

verus! {

/// The `Voltage` struct can be used to deal with voltages in a common way.
#[derive(Copy, Clone, Debug)]
pub struct Voltage<T: Scalar> {
    volts: T,
}

impl<T: Scalar> Voltage<T> {
    /// Create a new Voltage from a value in volts
    pub fn from_volts(volts: T) -> (r: Self)
        ensures
            r == Self::from_base_spec(volts),
    {
        Voltage { volts }
    }

    /// Convert this Voltage to a value in volts
    pub fn as_volts(&self) -> (r: T)
        ensures
            r == self.base(),
    {
        self.volts
    }
}

impl<T: Scalar> Measurement<T> for Voltage<T> {
    closed spec fn base(&self) -> T {
        self.volts
    }

    closed spec fn from_base_spec(units: T) -> Self {
        Voltage { volts: units }
    }

    open spec fn units_name_spec() -> Text {
        "V"@
    }

    fn get_base_units_name(&self) -> (r: &'static str) {
        "V"
    }

    fn as_base_units(&self) -> (r: T) {
        self.volts
    }

    fn from_base_units(units: T) -> (r: Self) {
        Voltage { volts: units }
    }
}

impl<T: Scalar> Quantity<T> for Voltage<T> {
    proof fn lemma_base_units(q: Self, units: T) {
    }
}

impl<T: Scalar> Comparable<T> for Voltage<T> {
}

impl<T: Scalar> Sum<T, Voltage<T>> for Voltage<T> {
    type Output = Voltage<T>;
}

impl<T: Scalar> Difference<T, Voltage<T>> for Voltage<T> {
    type Output = Voltage<T>;
}

/// The ratio of two quantities of this type is a bare number.
impl<T: Scalar> Quotient<T, Voltage<T>> for Voltage<T> {
    type Output = T;
}

impl<T: Scalar> Quotient<T, T> for Voltage<T> {
    type Output = Voltage<T>;
}

impl<T: Scalar> Product<T, T> for Voltage<T> {
    type Output = Voltage<T>;
}

impl<T: Scalar> Product<T, Voltage<T>> for T {
    type Output = Voltage<T>;
}

} // verus!
