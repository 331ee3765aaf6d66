//! Types and constants for handling speeds.
use crate::measurement::{Measurement, Quantity};
use crate::operators::{Comparable, Difference, Product, Quotient, Sum};
use crate::scalar::{Scalar, Text};
use vstd::prelude::*;

verus! {

/// The `Speed` struct can be used to deal with speeds in a common way.
#[derive(Copy, Clone, Debug)]
pub struct Speed<T: Scalar> {
    meters_per_second: T,
}

impl<T: Scalar> Speed<T> {
    /// Create a new Speed from a value in meters per second
    pub fn from_meters_per_second(meters_per_second: T) -> (r: Self)
        ensures
            r == Self::from_base_spec(meters_per_second),
    {
        Speed { meters_per_second }
    }

    /// Convert this Speed to a value in meters per second
    pub fn as_meters_per_second(&self) -> (r: T)
        ensures
            r == self.base(),
    {
        self.meters_per_second
    }

    /// Create a new Speed from a value in kilometers per hour
    pub fn from_kilometers_per_hour(kilometers_per_hour: T) -> (r: Self)
        ensures
            r == Self::from_base_spec(kilometers_per_hour.over_spec(T::ratio_spec(36, 10))),
    {
        Speed { meters_per_second: kilometers_per_hour.over(T::from_ratio(36, 10)) }
    }

    /// Convert this Speed to a value in kilometers per hour
    pub fn as_kilometers_per_hour(&self) -> (r: T)
        ensures
            r == self.base().times_spec(T::ratio_spec(36, 10)),
    {
        self.meters_per_second.times(T::from_ratio(36, 10))
    }
}

impl<T: Scalar> Measurement<T> for Speed<T> {
    closed spec fn base(&self) -> T {
        self.meters_per_second
    }

    closed spec fn from_base_spec(units: T) -> Self {
        Speed { meters_per_second: units }
    }

    open spec fn units_name_spec() -> Text {
        "m/s"@
    }

    fn get_base_units_name(&self) -> (r: &'static str) {
        "m/s"
    }

    fn as_base_units(&self) -> (r: T) {
        self.meters_per_second
    }

    fn from_base_units(units: T) -> (r: Self) {
        Speed { meters_per_second: units }
    }
}

impl<T: Scalar> Quantity<T> for Speed<T> {
    proof fn lemma_base_units(q: Self, units: T) {
    }
}

impl<T: Scalar> Comparable<T> for Speed<T> {
}

impl<T: Scalar> Sum<T, Speed<T>> for Speed<T> {
    type Output = Speed<T>;
}

impl<T: Scalar> Difference<T, Speed<T>> for Speed<T> {
    type Output = Speed<T>;
}

/// The ratio of two quantities of this type is a bare number.
impl<T: Scalar> Quotient<T, Speed<T>> for Speed<T> {
    type Output = T;
}

impl<T: Scalar> Quotient<T, T> for Speed<T> {
    type Output = Speed<T>;
}

impl<T: Scalar> Product<T, T> for Speed<T> {
    type Output = Speed<T>;
}

impl<T: Scalar> Product<T, Speed<T>> for T {
    type Output = Speed<T>;
}

} // verus!
