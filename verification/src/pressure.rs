//! Types and constants for handling pressures.
use crate::measurement::{Measurement, Quantity};
use crate::operators::{Comparable, Difference, Product, Quotient, Sum};
use crate::scalar::{Scalar, Text};
use vstd::prelude::*;

verus! {

/// The `Pressure` struct can be used to deal with pressures in a common way.
#[derive(Copy, Clone, Debug)]
pub struct Pressure<T: Scalar> {
    pascals: T,
}

impl<T: Scalar> Pressure<T> {
    /// Create a new Pressure from a value in pascals
    pub fn from_pascals(pascals: T) -> (r: Self)
        ensures
            r == Self::from_base_spec(pascals),
    {
        Pressure { pascals }
    }

    /// Convert this Pressure to a value in pascals
    pub fn as_pascals(&self) -> (r: T)
        ensures
            r == self.base(),
    {
        self.pascals
    }

    /// Create a new Pressure from a value in hectopascals
    pub fn from_hectopascals(hectopascals: T) -> (r: Self)
        ensures
            r == Self::from_base_spec(hectopascals.times_spec(T::ratio_spec(100, 1))),
    {
        Pressure { pascals: hectopascals.times(T::from_ratio(100, 1)) }
    }

    /// Convert this Pressure to a value in hectopascals
    pub fn as_hectopascals(&self) -> (r: T)
        ensures
            r == self.base().over_spec(T::ratio_spec(100, 1)),
    {
        self.pascals.over(T::from_ratio(100, 1))
    }

    /// Create a new Pressure from a value in kilopascals
    pub fn from_kilopascals(kilopascals: T) -> (r: Self)
        ensures
            r == Self::from_base_spec(kilopascals.times_spec(T::ratio_spec(1000, 1))),
    {
        Pressure { pascals: kilopascals.times(T::from_ratio(1000, 1)) }
    }

    /// Convert this Pressure to a value in kilopascals
    pub fn as_kilopascals(&self) -> (r: T)
        ensures
            r == self.base().over_spec(T::ratio_spec(1000, 1)),
    {
        self.pascals.over(T::from_ratio(1000, 1))
    }
}

impl<T: Scalar> Measurement<T> for Pressure<T> {
    closed spec fn base(&self) -> T {
        self.pascals
    }

    closed spec fn from_base_spec(units: T) -> Self {
        Pressure { pascals: units }
    }

    open spec fn units_name_spec() -> Text {
        "Pa"@
    }

    fn get_base_units_name(&self) -> (r: &'static str) {
        "Pa"
    }

    fn as_base_units(&self) -> (r: T) {
        self.pascals
    }

    fn from_base_units(units: T) -> (r: Self) {
        Pressure { pascals: units }
    }
}

impl<T: Scalar> Quantity<T> for Pressure<T> {
    proof fn lemma_base_units(q: Self, units: T) {
    }
}

impl<T: Scalar> Comparable<T> for Pressure<T> {
}

impl<T: Scalar> Sum<T, Pressure<T>> for Pressure<T> {
    type Output = Pressure<T>;
}

impl<T: Scalar> Difference<T, Pressure<T>> for Pressure<T> {
    type Output = Pressure<T>;
}

/// The ratio of two quantities of this type is a bare number.
impl<T: Scalar> Quotient<T, Pressure<T>> for Pressure<T> {
    type Output = T;
}

impl<T: Scalar> Quotient<T, T> for Pressure<T> {
    type Output = Pressure<T>;
}

impl<T: Scalar> Product<T, T> for Pressure<T> {
    type Output = Pressure<T>;
}

impl<T: Scalar> Product<T, Pressure<T>> for T {
    type Output = Pressure<T>;
}

} // verus!
