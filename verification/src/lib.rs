//! # Measurements
//!
//! Measurements is a crate that lets you represent physical quantities, such
//! as Lengths, Masses, Pressures, etc. Each quantity has a series of
//! functions that allow you to convert to and from common units. You can also
//! perform arithmetic on the quantities - for example you can divide a Force
//! by an Area to get a Pressure.
//!
//! Every quantity is generic over the number it holds, a [`Scalar`]. The
//! crate brings one scalar of its own, the exact [`Rational`]; a scalar over
//! hardware floating point is a few lines in the crate that uses it.
//!
//! The crate is verified with Verus: every function states what it returns,
//! and the laws of the arithmetic are proved in [`laws`].
pub mod decimal;
pub mod number_theory;
pub mod parse;
pub mod rational;
pub mod scalar;
pub use rational::Rational;
pub use scalar::{Exact, Scalar, Transcendental};

pub mod measurement;
pub use measurement::{Measurement, Quantity};

pub mod operators;
pub use operators::{Comparable, Difference, Product, Quotient, Sum};

pub mod length;
pub use length::Length;

pub mod temperature;
pub use temperature::{Temperature, TemperatureDelta};

pub mod humidity;
pub use humidity::Humidity;

pub mod mass;
pub use mass::Mass;

pub mod volume;
pub use volume::Volume;

pub mod density;
pub use density::Density;

pub mod pressure;
pub use pressure::Pressure;

pub mod speed;
pub use speed::Speed;

pub mod acceleration;
pub use acceleration::Acceleration;

pub mod energy;
pub use energy::Energy;

pub mod power;
pub use power::Power;

pub mod voltage;
pub use voltage::Voltage;

pub mod current;
pub use current::Current;

pub mod resistance;
pub use resistance::Resistance;

pub mod force;
pub use force::Force;

pub mod area;
pub use area::Area;

pub mod angle;
pub use angle::Angle;

pub mod angular_velocity;
pub use angular_velocity::AngularVelocity;

pub mod torque;
pub use torque::Torque;

pub mod duration;
pub use duration::Duration;

mod torque_energy;
pub use torque_energy::TorqueEnergy;

pub mod laws;
pub mod relations;
pub mod test_utils;
