//! Types and constants for handling acceleration.
use crate::measurement::{Measurement, Quantity};
use crate::operators::{Comparable, Difference, Product, Quotient, Sum};
use crate::scalar::{Scalar, Text};
use vstd::prelude::*;

verus! {

/// The `Acceleration` struct can be used to deal with Accelerations in a
/// common way.
#[derive(Copy, Clone, Debug)]
pub struct Acceleration<T: Scalar> {
    meters_per_second_per_second: T,
}

impl<T: Scalar> Acceleration<T> {
    /// Create a new Acceleration from a value in meters per second per second
    pub fn from_meters_per_second_per_second(meters_per_second_per_second: T) -> (r: Self)
        ensures
            r == Self::from_base_spec(meters_per_second_per_second),
    {
        Acceleration { meters_per_second_per_second }
    }

    /// Create a new Acceleration from a value in metres per second per second
    pub fn from_metres_per_second_per_second(metres_per_second_per_second: T) -> (r: Self)
        ensures
            r == Self::from_base_spec(metres_per_second_per_second),
    {
        Acceleration::from_meters_per_second_per_second(metres_per_second_per_second)
    }

    /// Convert this Acceleration to a value in meters per second per second
    pub fn as_meters_per_second_per_second(&self) -> (r: T)
        ensures
            r == self.base(),
    {
        self.meters_per_second_per_second
    }

    /// Convert this Acceleration to a value in metres per second per second
    pub fn as_metres_per_second_per_second(&self) -> (r: T)
        ensures
            r == self.base(),
    {
        self.as_meters_per_second_per_second()
    }
}

impl<T: Scalar> Measurement<T> for Acceleration<T> {
    closed spec fn base(&self) -> T {
        self.meters_per_second_per_second
    }

    closed spec fn from_base_spec(units: T) -> Self {
        Acceleration { meters_per_second_per_second: units }
    }

    open spec fn units_name_spec() -> Text {
        "m/s\u{b2}"@
    }

    fn get_base_units_name(&self) -> (r: &'static str) {
        "m/s\u{b2}"
    }

    fn as_base_units(&self) -> (r: T) {
        self.meters_per_second_per_second
    }

    fn from_base_units(units: T) -> (r: Self) {
        Acceleration { meters_per_second_per_second: units }
    }
}

impl<T: Scalar> Quantity<T> for Acceleration<T> {
    proof fn lemma_base_units(q: Self, units: T) {
    }
}

impl<T: Scalar> Comparable<T> for Acceleration<T> {
}

impl<T: Scalar> Sum<T, Acceleration<T>> for Acceleration<T> {
    type Output = Acceleration<T>;
}

impl<T: Scalar> Difference<T, Acceleration<T>> for Acceleration<T> {
    type Output = Acceleration<T>;
}

/// The ratio of two quantities of this type is a bare number.
impl<T: Scalar> Quotient<T, Acceleration<T>> for Acceleration<T> {
    type Output = T;
}

impl<T: Scalar> Quotient<T, T> for Acceleration<T> {
    type Output = Acceleration<T>;
}

impl<T: Scalar> Product<T, T> for Acceleration<T> {
    type Output = Acceleration<T>;
}

impl<T: Scalar> Product<T, Acceleration<T>> for T {
    type Output = Acceleration<T>;
}

} // verus!
