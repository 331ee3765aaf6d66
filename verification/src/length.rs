//! Types and constants for handling lengths.
use crate::measurement::{pick_spec, Measurement, Quantity};
use crate::operators::{Comparable, Difference, Product, Quotient, Sum};
use crate::scalar::{Scalar, Text};
use vstd::prelude::*;

verus! {

/// The `Length` struct can be used to deal with lengths in a common way.
#[derive(Copy, Clone, Debug)]
pub struct Length<T: Scalar> {
    meters: T,
}

/// The units a length is shown in, smallest first, each with its size in
/// meters.
pub open spec fn length_units_spec<T: Scalar>() -> Seq<(&'static str, T)> {
    seq![
        ("mm", T::ratio_spec(1, 1000)),
        ("m", T::ratio_spec(1, 1)),
        ("km", T::ratio_spec(1000, 1)),
    ]
}

impl<T: Scalar> Length<T> {
    /// Create a new Length from a value in meters
    pub fn from_meters(meters: T) -> (r: Self)
        ensures
            r == Self::from_base_spec(meters),
    {
        Length { meters }
    }

    /// Convert this Length to a value in meters
    pub fn as_meters(&self) -> (r: T)
        ensures
            r == self.base(),
    {
        self.meters
    }

    /// Create a new Length from a value in kilometers
    pub fn from_kilometers(kilometers: T) -> (r: Self)
        ensures
            r == Self::from_base_spec(kilometers.times_spec(T::ratio_spec(1000, 1))),
    {
        Length { meters: kilometers.times(T::from_ratio(1000, 1)) }
    }

    /// Convert this Length to a value in kilometers
    pub fn as_kilometers(&self) -> (r: T)
        ensures
            r == self.base().over_spec(T::ratio_spec(1000, 1)),
    {
        self.meters.over(T::from_ratio(1000, 1))
    }

    /// Create a new Length from a value in millimeters
    pub fn from_millimeters(millimeters: T) -> (r: Self)
        ensures
            r == Self::from_base_spec(millimeters.over_spec(T::ratio_spec(1000, 1))),
    {
        Length { meters: millimeters.over(T::from_ratio(1000, 1)) }
    }

    /// Convert this Length to a value in millimeters
    pub fn as_millimeters(&self) -> (r: T)
        ensures
            r == self.base().times_spec(T::ratio_spec(1000, 1)),
    {
        self.meters.times(T::from_ratio(1000, 1))
    }
}

impl<T: Scalar> Measurement<T> for Length<T> {
    closed spec fn base(&self) -> T {
        self.meters
    }

    closed spec fn from_base_spec(units: T) -> Self {
        Length { meters: units }
    }

    open spec fn units_name_spec() -> Text {
        "m"@
    }

    /// Selects among the units of [`length_units_spec`].
    fn get_appropriate_units(&self) -> (r: (&'static str, T))
        ensures
            (r.0@, r.1) == pick_spec(self.base(), length_units_spec::<T>()),
    {
        let list = [
            ("mm", T::from_ratio(1, 1000)),
            ("m", T::from_ratio(1, 1)),
            ("km", T::from_ratio(1000, 1)),
        ];
        assert(list@ =~= length_units_spec::<T>());
        self.pick_appropriate_units(list.as_slice())
    }

    fn get_base_units_name(&self) -> (r: &'static str) {
        "m"
    }

    fn as_base_units(&self) -> (r: T) {
        self.meters
    }

    fn from_base_units(units: T) -> (r: Self) {
        Length { meters: units }
    }
}

impl<T: Scalar> Quantity<T> for Length<T> {
    proof fn lemma_base_units(q: Self, units: T) {
    }
}

impl<T: Scalar> Comparable<T> for Length<T> {
}

impl<T: Scalar> Sum<T, Length<T>> for Length<T> {
    type Output = Length<T>;
}

impl<T: Scalar> Difference<T, Length<T>> for Length<T> {
    type Output = Length<T>;
}

/// The ratio of two quantities of this type is a bare number.
impl<T: Scalar> Quotient<T, Length<T>> for Length<T> {
    type Output = T;
}

impl<T: Scalar> Quotient<T, T> for Length<T> {
    type Output = Length<T>;
}

impl<T: Scalar> Product<T, T> for Length<T> {
    type Output = Length<T>;
}

impl<T: Scalar> Product<T, Length<T>> for T {
    type Output = Length<T>;
}

} // verus!
