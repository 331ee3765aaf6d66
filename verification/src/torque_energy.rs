//! Implements a bridging structure to distinguish between Torque and Energy
use crate::energy::Energy;
use crate::measurement::{Measurement, Quantity};
use crate::scalar::{Scalar, Text};
use crate::torque::Torque;
use vstd::prelude::*;
use vstd::std_specs::convert::FromSpecImpl;

verus! {

/// If you multiply a Force by a Length, we can't tell if you're
/// pushing something along (which requires Energy) or rotating
/// something (which creates a Torque). This struct is what results
/// from the multiplication, and you have to then convert
/// it to whichever you want.
pub struct TorqueEnergy<T: Scalar> {
    newton_metres: T,
}

impl<T: Scalar> std::convert::From<TorqueEnergy<T>> for Torque<T> {
    fn from(t: TorqueEnergy<T>) -> (r: Torque<T>) {
        Torque::from_newton_metres(t.newton_metres)
    }
}

impl<T: Scalar> FromSpecImpl<TorqueEnergy<T>> for Torque<T> {
    open spec fn obeys_from_spec() -> bool {
        true
    }

    open spec fn from_spec(t: TorqueEnergy<T>) -> Torque<T> {
        Torque::from_base_spec(t.base())
    }
}

impl<T: Scalar> std::convert::From<TorqueEnergy<T>> for Energy<T> {
    fn from(t: TorqueEnergy<T>) -> (r: Energy<T>) {
        Energy::from_joules(t.newton_metres)
    }
}

impl<T: Scalar> FromSpecImpl<TorqueEnergy<T>> for Energy<T> {
    open spec fn obeys_from_spec() -> bool {
        true
    }

    open spec fn from_spec(t: TorqueEnergy<T>) -> Energy<T> {
        Energy::from_base_spec(t.base())
    }
}

impl<T: Scalar> Measurement<T> for TorqueEnergy<T> {
    closed spec fn base(&self) -> T {
        self.newton_metres
    }

    closed spec fn from_base_spec(units: T) -> Self {
        TorqueEnergy { newton_metres: units }
    }

    open spec fn units_name_spec() -> Text {
        "Nm||J"@
    }

    fn get_base_units_name(&self) -> (r: &'static str) {
        "Nm||J"
    }

    fn as_base_units(&self) -> (r: T) {
        self.newton_metres
    }

    fn from_base_units(units: T) -> (r: Self) {
        TorqueEnergy { newton_metres: units }
    }
}

impl<T: Scalar> Quantity<T> for TorqueEnergy<T> {
    proof fn lemma_base_units(q: Self, units: T) {
    }
}

} // verus!
