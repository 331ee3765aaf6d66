//! Types and constants for handling areas.
use crate::measurement::{Measurement, Quantity};
use crate::operators::{Comparable, Difference, Product, Quotient, Sum};
use crate::scalar::{Scalar, Text};
use vstd::prelude::*;

verus! {

/// The `Area` struct can be used to deal with areas in a common way.
#[derive(Copy, Clone, Debug)]
pub struct Area<T: Scalar> {
    square_meters: T,
}

impl<T: Scalar> Area<T> {
    /// Create a new Area from a value in square meters
    pub fn from_square_meters(square_meters: T) -> (r: Self)
        ensures
            r == Self::from_base_spec(square_meters),
    {
        Area { square_meters }
    }

    /// Convert this Area to a value in square meters
    pub fn as_square_meters(&self) -> (r: T)
        ensures
            r == self.base(),
    {
        self.square_meters
    }
}

impl<T: Scalar> Measurement<T> for Area<T> {
    closed spec fn base(&self) -> T {
        self.square_meters
    }

    closed spec fn from_base_spec(units: T) -> Self {
        Area { square_meters: units }
    }

    open spec fn units_name_spec() -> Text {
        "m\u{b2}"@
    }

    fn get_base_units_name(&self) -> (r: &'static str) {
        "m\u{b2}"
    }

    fn as_base_units(&self) -> (r: T) {
        self.square_meters
    }

    fn from_base_units(units: T) -> (r: Self) {
        Area { square_meters: units }
    }
}

impl<T: Scalar> Quantity<T> for Area<T> {
    proof fn lemma_base_units(q: Self, units: T) {
    }
}

impl<T: Scalar> Comparable<T> for Area<T> {
}

impl<T: Scalar> Sum<T, Area<T>> for Area<T> {
    type Output = Area<T>;
}

impl<T: Scalar> Difference<T, Area<T>> for Area<T> {
    type Output = Area<T>;
}

/// The ratio of two quantities of this type is a bare number.
impl<T: Scalar> Quotient<T, Area<T>> for Area<T> {
    type Output = T;
}

impl<T: Scalar> Quotient<T, T> for Area<T> {
    type Output = Area<T>;
}

impl<T: Scalar> Product<T, T> for Area<T> {
    type Output = Area<T>;
}

impl<T: Scalar> Product<T, Area<T>> for T {
    type Output = Area<T>;
}

} // verus!
