//! Types and constants for handling masses.
use crate::measurement::{pick_spec, Measurement, Quantity};
use crate::operators::{Comparable, Difference, Product, Quotient, Sum};
use crate::scalar::{Scalar, Text};
use vstd::prelude::*;

verus! {

/// The `Mass` struct can be used to deal with masses in a common way.
#[derive(Copy, Clone, Debug)]
pub struct Mass<T: Scalar> {
    kilograms: T,
}

/// The units a mass is shown in, smallest first, each with its size in
/// kilograms.
pub open spec fn mass_units_spec<T: Scalar>() -> Seq<(&'static str, T)> {
    seq![
        ("mg", T::ratio_spec(1, 1000000)),
        ("g", T::ratio_spec(1, 1000)),
        ("kg", T::ratio_spec(1, 1)),
        ("tonnes", T::ratio_spec(1000, 1)),
    ]
}

impl<T: Scalar> Mass<T> {
    /// Create a new Mass from a value in kilograms
    pub fn from_kilograms(kilograms: T) -> (r: Self)
        ensures
            r == Self::from_base_spec(kilograms),
    {
        Mass { kilograms }
    }

    /// Convert this Mass to a value in kilograms
    pub fn as_kilograms(&self) -> (r: T)
        ensures
            r == self.base(),
    {
        self.kilograms
    }

    /// Create a new Mass from a value in grams
    pub fn from_grams(grams: T) -> (r: Self)
        ensures
            r == Self::from_base_spec(grams.over_spec(T::ratio_spec(1000, 1))),
    {
        Mass { kilograms: grams.over(T::from_ratio(1000, 1)) }
    }

    /// Convert this Mass to a value in grams
    pub fn as_grams(&self) -> (r: T)
        ensures
            r == self.base().times_spec(T::ratio_spec(1000, 1)),
    {
        self.kilograms.times(T::from_ratio(1000, 1))
    }

    /// Create a new Mass from a value in metric tonnes
    pub fn from_tonnes(tonnes: T) -> (r: Self)
        ensures
            r == Self::from_base_spec(tonnes.times_spec(T::ratio_spec(1000, 1))),
    {
        Mass { kilograms: tonnes.times(T::from_ratio(1000, 1)) }
    }

    /// Convert this Mass to a value in metric tonnes
    pub fn as_tonnes(&self) -> (r: T)
        ensures
            r == self.base().over_spec(T::ratio_spec(1000, 1)),
    {
        self.kilograms.over(T::from_ratio(1000, 1))
    }
}

impl<T: Scalar> Measurement<T> for Mass<T> {
    closed spec fn base(&self) -> T {
        self.kilograms
    }

    closed spec fn from_base_spec(units: T) -> Self {
        Mass { kilograms: units }
    }

    open spec fn units_name_spec() -> Text {
        "kg"@
    }

    /// Selects among the units of [`mass_units_spec`].
    fn get_appropriate_units(&self) -> (r: (&'static str, T))
        ensures
            (r.0@, r.1) == pick_spec(self.base(), mass_units_spec::<T>()),
    {
        let list = [
            ("mg", T::from_ratio(1, 1000000)),
            ("g", T::from_ratio(1, 1000)),
            ("kg", T::from_ratio(1, 1)),
            ("tonnes", T::from_ratio(1000, 1)),
        ];
        assert(list@ =~= mass_units_spec::<T>());
        self.pick_appropriate_units(list.as_slice())
    }

    fn get_base_units_name(&self) -> (r: &'static str) {
        "kg"
    }

    fn as_base_units(&self) -> (r: T) {
        self.kilograms
    }

    fn from_base_units(units: T) -> (r: Self) {
        Mass { kilograms: units }
    }
}

impl<T: Scalar> Quantity<T> for Mass<T> {
    proof fn lemma_base_units(q: Self, units: T) {
    }
}

impl<T: Scalar> Comparable<T> for Mass<T> {
}

impl<T: Scalar> Sum<T, Mass<T>> for Mass<T> {
    type Output = Mass<T>;
}

impl<T: Scalar> Difference<T, Mass<T>> for Mass<T> {
    type Output = Mass<T>;
}

/// The ratio of two quantities of this type is a bare number.
impl<T: Scalar> Quotient<T, Mass<T>> for Mass<T> {
    type Output = T;
}

impl<T: Scalar> Quotient<T, T> for Mass<T> {
    type Output = Mass<T>;
}

impl<T: Scalar> Product<T, T> for Mass<T> {
    type Output = Mass<T>;
}

impl<T: Scalar> Product<T, Mass<T>> for T {
    type Output = Mass<T>;
}

} // verus!
