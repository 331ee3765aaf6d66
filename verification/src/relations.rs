//! The relations between quantities of different kinds.
//!
//! Each relation has the form `A = B * C` in base units, and gives four
//! operations: `B * C` and `C * B` make an `A`, `A / B` makes a `C` and
//! `A / C` makes a `B`. Every operation converts its operands to base units,
//! multiplies or divides, and builds the result from base units, so a
//! relation is sound exactly when the base units of its three types are
//! coherent: one base unit of `B` times one of `C` is one of `A`.
//!
//! The product of a force and a length is either a torque or an energy.
//! It is given as a [`TorqueEnergy`], which the caller turns into the one
//! that is meant. The quotients of a torque or an energy by a force or a
//! length are not ambiguous, and are given directly.
use crate::acceleration::Acceleration;
use crate::angular_velocity::AngularVelocity;
use crate::area::Area;
use crate::current::Current;
use crate::duration::Duration;
use crate::energy::Energy;
use crate::force::Force;
use crate::length::Length;
use crate::mass::Mass;
use crate::operators::{Product, Quotient};
use crate::power::Power;
use crate::pressure::Pressure;
use crate::resistance::Resistance;
use crate::scalar::Scalar;
use crate::speed::Speed;
use crate::torque::Torque;
use crate::torque_energy::TorqueEnergy;
use crate::voltage::Voltage;
use crate::volume::Volume;
use vstd::prelude::*;

verus! {

// Area = Length * Length
impl<T: Scalar> Product<T, Length<T>> for Length<T> {
    type Output = Area<T>;
}

impl<T: Scalar> Quotient<T, Length<T>> for Area<T> {
    type Output = Length<T>;
}

// Energy = Duration * Power
impl<T: Scalar> Product<T, Power<T>> for Duration {
    type Output = Energy<T>;
}

impl<T: Scalar> Product<T, Duration> for Power<T> {
    type Output = Energy<T>;
}

impl<T: Scalar> Quotient<T, Power<T>> for Energy<T> {
    type Output = Duration;
}

impl<T: Scalar> Quotient<T, Duration> for Energy<T> {
    type Output = Power<T>;
}

// Force = Mass * Acceleration
impl<T: Scalar> Product<T, Acceleration<T>> for Mass<T> {
    type Output = Force<T>;
}

impl<T: Scalar> Product<T, Mass<T>> for Acceleration<T> {
    type Output = Force<T>;
}

impl<T: Scalar> Quotient<T, Acceleration<T>> for Force<T> {
    type Output = Mass<T>;
}

impl<T: Scalar> Quotient<T, Mass<T>> for Force<T> {
    type Output = Acceleration<T>;
}

// Force = Pressure * Area
impl<T: Scalar> Product<T, Area<T>> for Pressure<T> {
    type Output = Force<T>;
}

impl<T: Scalar> Product<T, Pressure<T>> for Area<T> {
    type Output = Force<T>;
}

impl<T: Scalar> Quotient<T, Area<T>> for Force<T> {
    type Output = Pressure<T>;
}

impl<T: Scalar> Quotient<T, Pressure<T>> for Force<T> {
    type Output = Area<T>;
}

// Length = Duration * Speed
impl<T: Scalar> Product<T, Speed<T>> for Duration {
    type Output = Length<T>;
}

impl<T: Scalar> Product<T, Duration> for Speed<T> {
    type Output = Length<T>;
}

impl<T: Scalar> Quotient<T, Speed<T>> for Length<T> {
    type Output = Duration;
}

impl<T: Scalar> Quotient<T, Duration> for Length<T> {
    type Output = Speed<T>;
}

// Power = Force * Speed
impl<T: Scalar> Product<T, Speed<T>> for Force<T> {
    type Output = Power<T>;
}

impl<T: Scalar> Product<T, Force<T>> for Speed<T> {
    type Output = Power<T>;
}

impl<T: Scalar> Quotient<T, Speed<T>> for Power<T> {
    type Output = Force<T>;
}

impl<T: Scalar> Quotient<T, Force<T>> for Power<T> {
    type Output = Speed<T>;
}

// Speed = Duration * Acceleration
impl<T: Scalar> Product<T, Acceleration<T>> for Duration {
    type Output = Speed<T>;
}

impl<T: Scalar> Product<T, Duration> for Acceleration<T> {
    type Output = Speed<T>;
}

impl<T: Scalar> Quotient<T, Acceleration<T>> for Speed<T> {
    type Output = Duration;
}

impl<T: Scalar> Quotient<T, Duration> for Speed<T> {
    type Output = Acceleration<T>;
}

// Volume = Length * Area
impl<T: Scalar> Product<T, Area<T>> for Length<T> {
    type Output = Volume<T>;
}

impl<T: Scalar> Product<T, Length<T>> for Area<T> {
    type Output = Volume<T>;
}

impl<T: Scalar> Quotient<T, Area<T>> for Volume<T> {
    type Output = Length<T>;
}

impl<T: Scalar> Quotient<T, Length<T>> for Volume<T> {
    type Output = Area<T>;
}

// Power = AngularVelocity * Torque
impl<T: Scalar> Product<T, Torque<T>> for AngularVelocity<T> {
    type Output = Power<T>;
}

impl<T: Scalar> Product<T, AngularVelocity<T>> for Torque<T> {
    type Output = Power<T>;
}

impl<T: Scalar> Quotient<T, Torque<T>> for Power<T> {
    type Output = AngularVelocity<T>;
}

impl<T: Scalar> Quotient<T, AngularVelocity<T>> for Power<T> {
    type Output = Torque<T>;
}

// Power = Voltage * Current
impl<T: Scalar> Product<T, Current<T>> for Voltage<T> {
    type Output = Power<T>;
}

impl<T: Scalar> Product<T, Voltage<T>> for Current<T> {
    type Output = Power<T>;
}

impl<T: Scalar> Quotient<T, Current<T>> for Power<T> {
    type Output = Voltage<T>;
}

impl<T: Scalar> Quotient<T, Voltage<T>> for Power<T> {
    type Output = Current<T>;
}

// Voltage = Resistance * Current
impl<T: Scalar> Product<T, Current<T>> for Resistance<T> {
    type Output = Voltage<T>;
}

impl<T: Scalar> Product<T, Resistance<T>> for Current<T> {
    type Output = Voltage<T>;
}

impl<T: Scalar> Quotient<T, Current<T>> for Voltage<T> {
    type Output = Resistance<T>;
}

impl<T: Scalar> Quotient<T, Resistance<T>> for Voltage<T> {
    type Output = Current<T>;
}

// Force * Length is ambiguous: it makes the bridging value that the caller
// turns into either a Torque or an Energy.
impl<T: Scalar> Product<T, Length<T>> for Force<T> {
    type Output = TorqueEnergy<T>;
}

impl<T: Scalar> Product<T, Force<T>> for Length<T> {
    type Output = TorqueEnergy<T>;
}

impl<T: Scalar> Quotient<T, Length<T>> for TorqueEnergy<T> {
    type Output = Force<T>;
}

impl<T: Scalar> Quotient<T, Force<T>> for TorqueEnergy<T> {
    type Output = Length<T>;
}

// The quotients of a torque or an energy are given directly: the result type
// is known from the operands.
impl<T: Scalar> Quotient<T, Length<T>> for Torque<T> {
    type Output = Force<T>;
}

impl<T: Scalar> Quotient<T, Force<T>> for Torque<T> {
    type Output = Length<T>;
}

impl<T: Scalar> Quotient<T, Length<T>> for Energy<T> {
    type Output = Force<T>;
}

impl<T: Scalar> Quotient<T, Force<T>> for Energy<T> {
    type Output = Length<T>;
}

} // verus!
