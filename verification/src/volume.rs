//! Types and constants for handling volumes.
use crate::measurement::{Measurement, Quantity};
use crate::operators::{Comparable, Difference, Product, Quotient, Sum};
use crate::scalar::{Scalar, Text};
use vstd::prelude::*;

verus! {

/// The `Volume` struct can be used to deal with volumes in a common way.
#[derive(Copy, Clone, Debug)]
pub struct Volume<T: Scalar> {
    cubic_meters: T,
}

impl<T: Scalar> Volume<T> {
    /// Create a new Volume from a value in cubic meters
    pub fn from_cubic_meters(cubic_meters: T) -> (r: Self)
        ensures
            r == Self::from_base_spec(cubic_meters),
    {
        Volume { cubic_meters }
    }

    /// Convert this Volume to a value in cubic meters
    pub fn as_cubic_meters(&self) -> (r: T)
        ensures
            r == self.base(),
    {
        self.cubic_meters
    }
}

impl<T: Scalar> Measurement<T> for Volume<T> {
    closed spec fn base(&self) -> T {
        self.cubic_meters
    }

    closed spec fn from_base_spec(units: T) -> Self {
        Volume { cubic_meters: units }
    }

    open spec fn units_name_spec() -> Text {
        "m\u{b3}"@
    }

    fn get_base_units_name(&self) -> (r: &'static str) {
        "m\u{b3}"
    }

    fn as_base_units(&self) -> (r: T) {
        self.cubic_meters
    }

    fn from_base_units(units: T) -> (r: Self) {
        Volume { cubic_meters: units }
    }
}

impl<T: Scalar> Quantity<T> for Volume<T> {
    proof fn lemma_base_units(q: Self, units: T) {
    }
}

impl<T: Scalar> Comparable<T> for Volume<T> {
}

impl<T: Scalar> Sum<T, Volume<T>> for Volume<T> {
    type Output = Volume<T>;
}

impl<T: Scalar> Difference<T, Volume<T>> for Volume<T> {
    type Output = Volume<T>;
}

/// The ratio of two quantities of this type is a bare number.
impl<T: Scalar> Quotient<T, Volume<T>> for Volume<T> {
    type Output = T;
}

impl<T: Scalar> Quotient<T, T> for Volume<T> {
    type Output = Volume<T>;
}

impl<T: Scalar> Product<T, T> for Volume<T> {
    type Output = Volume<T>;
}

impl<T: Scalar> Product<T, Volume<T>> for T {
    type Output = Volume<T>;
}

} // verus!
