//! Types and constants for handling energies.
use crate::measurement::{Measurement, Quantity};
use crate::operators::{Comparable, Difference, Product, Quotient, Sum};
use crate::scalar::{Scalar, Text};
use vstd::prelude::*;

verus! {

/// The `Energy` struct can be used to deal with energies in a common way.
#[derive(Copy, Clone, Debug)]
pub struct Energy<T: Scalar> {
    joules: T,
}

impl<T: Scalar> Energy<T> {
    /// Create a new Energy from a value in joules
    pub fn from_joules(joules: T) -> (r: Self)
        ensures
            r == Self::from_base_spec(joules),
    {
        Energy { joules }
    }

    /// Convert this Energy to a value in joules
    pub fn as_joules(&self) -> (r: T)
        ensures
            r == self.base(),
    {
        self.joules
    }
}

impl<T: Scalar> Measurement<T> for Energy<T> {
    closed spec fn base(&self) -> T {
        self.joules
    }

    closed spec fn from_base_spec(units: T) -> Self {
        Energy { joules: units }
    }

    open spec fn units_name_spec() -> Text {
        "J"@
    }

    fn get_base_units_name(&self) -> (r: &'static str) {
        "J"
    }

    fn as_base_units(&self) -> (r: T) {
        self.joules
    }

    fn from_base_units(units: T) -> (r: Self) {
        Energy { joules: units }
    }
}

impl<T: Scalar> Quantity<T> for Energy<T> {
    proof fn lemma_base_units(q: Self, units: T) {
    }
}

impl<T: Scalar> Comparable<T> for Energy<T> {
}

impl<T: Scalar> Sum<T, Energy<T>> for Energy<T> {
    type Output = Energy<T>;
}

impl<T: Scalar> Difference<T, Energy<T>> for Energy<T> {
    type Output = Energy<T>;
}

/// The ratio of two quantities of this type is a bare number.
impl<T: Scalar> Quotient<T, Energy<T>> for Energy<T> {
    type Output = T;
}

impl<T: Scalar> Quotient<T, T> for Energy<T> {
    type Output = Energy<T>;
}

impl<T: Scalar> Product<T, T> for Energy<T> {
    type Output = Energy<T>;
}

impl<T: Scalar> Product<T, Energy<T>> for T {
    type Output = Energy<T>;
}

} // verus!
