//! Types and constants for handling humidity.
use crate::density::Density;
use crate::measurement::{Measurement, Quantity};
use crate::operators::Comparable;
use crate::pressure::Pressure;
use crate::scalar::{Scalar, Text, Transcendental};
use crate::temperature::{celsius_from_kelvin, kelvin_from_celsius, Temperature};
use vstd::prelude::*;

verus! {

/// The `Humidity` struct can be used to deal with relative humidity
/// in air in a common way. Relative humidity is an important metric used
/// in weather forecasts.
///
/// Relative humidity (as a ratio and percentage) and conversions between
/// relative humidity and dewpoint are supported. It also provides calculations
/// giving vapour pressure and absolute humidity.
///
/// Relative humidity gives the ratio of how much moisture the air is
/// holding to how much moisture it could hold at a given temperature.
/// Here we use the technical definition of humidity as ratio of the
/// actual water vapor pressure to the equilibrium vapor pressure
/// (often called the "saturation" vapor pressure).
///
/// For dewpoint calculations, we use the algorithm commonly known as
/// the Magnus formula, with coefficients derived by Alduchov and
/// Eskridge (1996), which gives resonable accuracy (vapour pressure
/// error < 0.2%) for temperatures between 0 deg C, and 50 deg C.
#[derive(Copy, Clone, Debug)]
pub struct Humidity<T: Scalar> {
    relative_humidity: T,
}

/// The number one hundred: percent in a ratio of one.
pub open spec fn hundred_spec<T: Scalar>() -> T {
    T::ratio_spec(100, 1)
}

impl<T: Scalar> Humidity<T> {
    /// Create a new Humidity from a percentage (i.e. 0% to 100%)
    pub fn from_percent(percent: T) -> (r: Self)
        ensures
            r == Self::from_base_spec(percent),
    {
        Humidity { relative_humidity: percent }
    }

    /// Create a new Humidity from a ratio (i.e. 0 to 1)
    pub fn from_ratio(relative_humidity: T) -> (r: Self)
        ensures
            r == Self::from_base_spec(relative_humidity.times_spec(hundred_spec::<T>())),
    {
        Humidity { relative_humidity: relative_humidity.times(T::from_ratio(100, 1)) }
    }

    /// Convert this relative humidity to a value expressed as a ratio (i.e. 0 to 1)
    pub fn as_ratio(&self) -> (r: T)
        ensures
            r == self.base().over_spec(hundred_spec::<T>()),
    {
        self.relative_humidity.over(T::from_ratio(100, 1))
    }

    /// Convert this relative humidty to a value expressed as a percentage
    /// (i.e. 0% to 100%)
    pub fn as_percent(&self) -> (r: T)
        ensures
            r == self.base(),
    {
        self.relative_humidity
    }
}

/// The first Magnus coefficient of Alduchov and Eskridge: 17.625.
pub open spec fn magnus_b_spec<T: Scalar>() -> T {
    T::ratio_spec(17625, 1000)
}

/// The second Magnus coefficient of Alduchov and Eskridge, in degrees
/// Celsius: 243.04.
pub open spec fn magnus_c_spec<T: Scalar>() -> T {
    T::ratio_spec(24304, 100)
}

/// The Magnus term of a temperature in degrees Celsius:
/// `(17.625 * celsius) / (243.04 + celsius)`.
pub open spec fn magnus_term<T: Scalar>(celsius: T) -> T {
    magnus_b_spec::<T>().times_spec(celsius).over_spec(magnus_c_spec::<T>().plus_spec(celsius))
}

/// The dewpoint in degrees Celsius of air at `celsius` degrees with the
/// relative humidity `percent`, by the Magnus formula: with `g` the
/// logarithm of the humidity as a ratio plus the Magnus term of the
/// temperature, `243.04 * g / (17.625 - g)`, the subtraction taken one term
/// after the other.
pub open spec fn dewpoint_spec<T: Transcendental>(percent: T, celsius: T) -> T {
    let log = percent.over_spec(hundred_spec::<T>()).ln_spec();
    magnus_c_spec::<T>().times_spec(log.plus_spec(magnus_term(celsius))).over_spec(
        magnus_b_spec::<T>().minus_spec(log).minus_spec(magnus_term(celsius)),
    )
}

/// The saturation vapour pressure in kilopascals of air at `celsius` degrees,
/// by the Buck formula:
/// `0.61121 * exp((18.678 - celsius / 234.5) * (celsius / (257.14 + celsius)))`.
pub open spec fn saturation_pressure_spec<T: Transcendental>(celsius: T) -> T {
    T::ratio_spec(61121, 100000).times_spec(
        T::ratio_spec(18678, 1000).minus_spec(celsius.over_spec(T::ratio_spec(2345, 10))).times_spec(
            celsius.over_spec(T::ratio_spec(25714, 100).plus_spec(celsius)),
        ).exp_spec(),
    )
}

/// The vapour pressure in kilopascals of air at `celsius` degrees with the
/// relative humidity `percent`: that share of the saturation pressure.
pub open spec fn vapor_pressure_spec<T: Transcendental>(percent: T, celsius: T) -> T {
    percent.times_spec(saturation_pressure_spec(celsius)).over_spec(hundred_spec::<T>())
}

/// The gas constant of water vapour in joules per kilogram and kelvin: 461.5.
pub open spec fn vapor_gas_constant_spec<T: Scalar>() -> T {
    T::ratio_spec(4615, 10)
}

/// The density of water vapour in kilograms per cubic metre, by the ideal
/// gas law: the pressure in pascals over the kelvin times the gas constant.
pub open spec fn absolute_humidity_spec<T: Scalar>(pascals: T, kelvin: T) -> T {
    pascals.over_spec(kelvin.times_spec(vapor_gas_constant_spec::<T>()))
}

/// The relative humidity in percent of air at `celsius` degrees whose
/// dewpoint is `dewpoint` degrees Celsius, by the Magnus formula.
pub open spec fn humidity_from_dewpoint_spec<T: Transcendental>(dewpoint: T, celsius: T) -> T {
    hundred_spec::<T>().times_spec(
        magnus_term(dewpoint).exp_spec().over_spec(magnus_term(celsius).exp_spec()),
    )
}

/// The Magnus term of a temperature in degrees Celsius.
fn magnus<T: Scalar>(celsius: T) -> (r: T)
    ensures
        r == magnus_term(celsius),
{
    T::from_ratio(17625, 1000).times(celsius).over(T::from_ratio(24304, 100).plus(celsius))
}

impl<T: Transcendental> Humidity<T> {
    /// Calculates Dewpoint from humidity and air temperature using the
    /// Magnus-Tetens approximation, with coefficients derived by Alduchov and
    /// Eskridge (1996). The formulas assume standard atmospheric pressure.
    pub fn as_dewpoint(&self, temp: Temperature<T>) -> (r: Temperature<T>)
        ensures
            r == Temperature::<T>::from_base_spec(
                kelvin_from_celsius(
                    dewpoint_spec(self.base(), celsius_from_kelvin(temp.base())),
                ),
            ),
    {
        let humidity = self.relative_humidity.over(T::from_ratio(100, 1));
        let celsius = temp.as_celsius();
        let humidity_ln = humidity.ln();
        let dewpoint = T::from_ratio(24304, 100).times(humidity_ln.plus(magnus(celsius))).over(
            T::from_ratio(17625, 1000).minus(humidity_ln).minus(magnus(celsius)),
        );
        Temperature::from_celsius(dewpoint)
    }

    /// Calculates the actual vapour pressure in the air, based on the air
    /// temperature and humidity at standard atmospheric pressure (1013.25
    /// mb), using the Buck formula (accurate to +/- 0.02% between 0 deg C
    /// and 50 deg C)
    pub fn as_vapor_pressure(&self, temp: Temperature<T>) -> (r: Pressure<T>)
        ensures
            r == Pressure::<T>::from_base_spec(
                vapor_pressure_spec(
                    self.base(),
                    celsius_from_kelvin(temp.base()),
                ).times_spec(T::ratio_spec(1000, 1)),
            ),
    {
        let temp = temp.as_celsius();
        let saturation_vapor_pressure = T::from_ratio(61121, 100000).times(
            T::from_ratio(18678, 1000).minus(temp.over(T::from_ratio(2345, 10))).times(
                temp.over(T::from_ratio(25714, 100).plus(temp)),
            ).exp(),
        );
        Pressure::from_kilopascals(
            self.relative_humidity.times(saturation_vapor_pressure).over(T::from_ratio(100, 1)),
        )
    }

    /// Calculates the absolute humidity (i.e. the density of water vapor in
    /// the air (kg/m3)), using the Ideal Gas Law equation.
    pub fn as_absolute_humidity(&self, temp: Temperature<T>) -> (r: Density<T>)
        ensures
            r == Density::<T>::from_base_spec(
                absolute_humidity_spec(
                    vapor_pressure_spec(
                        self.base(),
                        celsius_from_kelvin(temp.base()),
                    ).times_spec(T::ratio_spec(1000, 1)),
                    temp.base(),
                ),
            ),
    {
        // use the Ideal Gas Law equation (Density = Pressure / (Temperature * [gas constant
        // for water vapor= 461.5 (J/kg*Kelvin)]))
        proof {
            Pressure::<T>::lemma_base_units(
                Pressure::<T>::from_base_spec(T::ratio_spec(0, 1)),
                vapor_pressure_spec(self.base(), celsius_from_kelvin(temp.base())).times_spec(
                    T::ratio_spec(1000, 1),
                ),
            );
        }
        let density = self.as_vapor_pressure(temp).as_pascals().over(
            temp.as_kelvin().times(T::from_ratio(4615, 10)),
        );
        Density::from_kilograms_per_cubic_meter(density)
    }

    /// Calculates humidity from dewpoint and air temperature using the
    /// Magnus-Tetens Approximation, with coefficients derived by Alduchov and
    /// Eskridge (1996). The formulas assume standard atmospheric pressure.
    pub fn from_dewpoint(dewpoint: Temperature<T>, temp: Temperature<T>) -> (r: Humidity<T>)
        ensures
            r == Self::from_base_spec(
                humidity_from_dewpoint_spec(
                    celsius_from_kelvin(dewpoint.base()),
                    celsius_from_kelvin(temp.base()),
                ),
            ),
    {
        let dewpoint = dewpoint.as_celsius();
        let temp = temp.as_celsius();
        let rh = T::from_ratio(100, 1).times(magnus(dewpoint).exp().over(magnus(temp).exp()));
        Humidity::from_percent(rh)
    }
}

impl<T: Scalar> Measurement<T> for Humidity<T> {
    closed spec fn base(&self) -> T {
        self.relative_humidity
    }

    closed spec fn from_base_spec(units: T) -> Self {
        Humidity { relative_humidity: units }
    }

    open spec fn units_name_spec() -> Text {
        "%"@
    }

    fn get_base_units_name(&self) -> (r: &'static str) {
        "%"
    }

    fn as_base_units(&self) -> (r: T) {
        self.relative_humidity
    }

    fn from_base_units(units: T) -> (r: Self) {
        Humidity { relative_humidity: units }
    }
}

impl<T: Scalar> Quantity<T> for Humidity<T> {
    proof fn lemma_base_units(q: Self, units: T) {
    }
}

impl<T: Scalar> Default for Humidity<T> {
    /// Zero relative humidity.
    fn default() -> (r: Self)
        ensures
            r == Self::from_base_spec(T::ratio_spec(0, 1)),
    {
        Humidity { relative_humidity: T::from_ratio(0, 1) }
    }
}

impl<T: Scalar> Comparable<T> for Humidity<T> {
}

} // verus!
