//! Types and constants for handling torque
use crate::measurement::{Measurement, Quantity};
use crate::operators::{Comparable, Difference, Product, Quotient, Sum};
use crate::scalar::{Scalar, Text};
use vstd::prelude::*;

verus! {

/// Number of pound-foot in a newton-metre
pub open spec fn newton_metre_pound_foot_factor_spec<T: Scalar>() -> T {
    T::ratio_spec(73756326522588, 100000000000000)
}

/// Number of pound-foot in a newton-metre
fn newton_metre_pound_foot_factor<T: Scalar>() -> (r: T)
    ensures
        r == newton_metre_pound_foot_factor_spec::<T>(),
{
    T::from_ratio(73756326522588, 100000000000000)
}

/// The 'Torque' struct can be used to deal with torque in a common way.
#[derive(Copy, Clone, Debug)]
pub struct Torque<T: Scalar> {
    newton_metres: T,
}

impl<T: Scalar> Torque<T> {
    /// Create a new Torque from a value in newton metres
    pub fn from_newton_metres(newton_metres: T) -> (r: Self)
        ensures
            r == Self::from_base_spec(newton_metres),
    {
        Torque { newton_metres }
    }

    /// Create a new Torque from a value in newton meters
    pub fn from_newton_meters(newton_meters: T) -> (r: Self)
        ensures
            r == Self::from_base_spec(newton_meters),
    {
        Torque::from_newton_metres(newton_meters)
    }

    /// Create a new Torque from a value in pound-foot (lbf.ft)
    pub fn from_pound_foot(pound_foot: T) -> (r: Self)
        ensures
            r == Self::from_base_spec(
                pound_foot.over_spec(newton_metre_pound_foot_factor_spec::<T>()),
            ),
    {
        Torque::from_newton_metres(pound_foot.over(newton_metre_pound_foot_factor()))
    }

    /// Convert this Torque to a value in newton metres
    pub fn as_newton_metres(&self) -> (r: T)
        ensures
            r == self.base(),
    {
        self.newton_metres
    }

    /// Convert this Torque to a value in newton meters
    pub fn as_newton_meters(&self) -> (r: T)
        ensures
            r == self.base(),
    {
        self.newton_metres
    }

    /// Convert this Torque to a value in pound-foot (lbf-ft)
    pub fn as_pound_foot(&self) -> (r: T)
        ensures
            r == self.base().times_spec(newton_metre_pound_foot_factor_spec::<T>()),
    {
        self.newton_metres.times(newton_metre_pound_foot_factor())
    }
}

impl<T: Scalar> Measurement<T> for Torque<T> {
    closed spec fn base(&self) -> T {
        self.newton_metres
    }

    closed spec fn from_base_spec(units: T) -> Self {
        Torque { newton_metres: units }
    }

    open spec fn units_name_spec() -> Text {
        "Nm"@
    }

    fn get_base_units_name(&self) -> (r: &'static str) {
        "Nm"
    }

    fn as_base_units(&self) -> (r: T) {
        self.newton_metres
    }

    fn from_base_units(units: T) -> (r: Self) {
        Torque { newton_metres: units }
    }
}

impl<T: Scalar> Quantity<T> for Torque<T> {
    proof fn lemma_base_units(q: Self, units: T) {
    }
}

impl<T: Scalar> Default for Torque<T> {
    /// Zero newton metres.
    fn default() -> (r: Self)
        ensures
            r == Self::from_base_spec(T::ratio_spec(0, 1)),
    {
        Torque { newton_metres: T::from_ratio(0, 1) }
    }
}

impl<T: Scalar> Comparable<T> for Torque<T> {
}

impl<T: Scalar> Sum<T, Torque<T>> for Torque<T> {
    type Output = Torque<T>;
}

impl<T: Scalar> Difference<T, Torque<T>> for Torque<T> {
    type Output = Torque<T>;
}

/// The ratio of two quantities of this type is a bare number.
impl<T: Scalar> Quotient<T, Torque<T>> for Torque<T> {
    type Output = T;
}

impl<T: Scalar> Quotient<T, T> for Torque<T> {
    type Output = Torque<T>;
}

impl<T: Scalar> Product<T, T> for Torque<T> {
    type Output = Torque<T>;
}

impl<T: Scalar> Product<T, Torque<T>> for T {
    type Output = Torque<T>;
}

} // verus!
