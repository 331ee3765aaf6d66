//! Types and constants for handling angular velocities.
use crate::measurement::{Measurement, Quantity};
use crate::operators::{Comparable, Difference, Product, Quotient, Sum};
use crate::scalar::{Scalar, Text};
use vstd::prelude::*;

verus! {

/// The `AngularVelocity` struct can be used to deal with angular velocities in a common way.
#[derive(Copy, Clone, Debug)]
pub struct AngularVelocity<T: Scalar> {
    radians_per_second: T,
}

impl<T: Scalar> AngularVelocity<T> {
    /// Create a new AngularVelocity from a value in radians per second
    pub fn from_radians_per_second(radians_per_second: T) -> (r: Self)
        ensures
            r == Self::from_base_spec(radians_per_second),
    {
        AngularVelocity { radians_per_second }
    }

    /// Convert this AngularVelocity to a value in radians per second
    pub fn as_radians_per_second(&self) -> (r: T)
        ensures
            r == self.base(),
    {
        self.radians_per_second
    }
}

impl<T: Scalar> Measurement<T> for AngularVelocity<T> {
    closed spec fn base(&self) -> T {
        self.radians_per_second
    }

    closed spec fn from_base_spec(units: T) -> Self {
        AngularVelocity { radians_per_second: units }
    }

    open spec fn units_name_spec() -> Text {
        "rad/s"@
    }

    fn get_base_units_name(&self) -> (r: &'static str) {
        "rad/s"
    }

    fn as_base_units(&self) -> (r: T) {
        self.radians_per_second
    }

    fn from_base_units(units: T) -> (r: Self) {
        AngularVelocity { radians_per_second: units }
    }
}

impl<T: Scalar> Quantity<T> for AngularVelocity<T> {
    proof fn lemma_base_units(q: Self, units: T) {
    }
}

impl<T: Scalar> Comparable<T> for AngularVelocity<T> {
}

impl<T: Scalar> Sum<T, AngularVelocity<T>> for AngularVelocity<T> {
    type Output = AngularVelocity<T>;
}

impl<T: Scalar> Difference<T, AngularVelocity<T>> for AngularVelocity<T> {
    type Output = AngularVelocity<T>;
}

/// The ratio of two quantities of this type is a bare number.
impl<T: Scalar> Quotient<T, AngularVelocity<T>> for AngularVelocity<T> {
    type Output = T;
}

impl<T: Scalar> Quotient<T, T> for AngularVelocity<T> {
    type Output = AngularVelocity<T>;
}

impl<T: Scalar> Product<T, T> for AngularVelocity<T> {
    type Output = AngularVelocity<T>;
}

impl<T: Scalar> Product<T, AngularVelocity<T>> for T {
    type Output = AngularVelocity<T>;
}

} // verus!
