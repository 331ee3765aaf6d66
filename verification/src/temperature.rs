//! Types and constants for handling temperature.
use crate::measurement::{Measurement, Quantity};
use crate::operators::{Comparable, Difference, Product, Quotient, Sum};
use crate::parse::{
    captures, group, group_spec, groups_view, is_letter, letter, regex_captures, ParseError,
};
use crate::scalar::{Scalar, Text};
use vstd::prelude::*;
use vstd::string::StrSliceExecFns;

verus! {

/// The kelvin at zero degrees Celsius: 273.15.
pub open spec fn celsius_offset_spec<T: Scalar>() -> T {
    T::ratio_spec(27315, 100)
}

/// The degrees Fahrenheit in a kelvin: 1.8.
pub open spec fn fahrenheit_step_spec<T: Scalar>() -> T {
    T::ratio_spec(9, 5)
}

/// The degrees Fahrenheit at zero degrees Celsius: 32.
pub open spec fn fahrenheit_offset_spec<T: Scalar>() -> T {
    T::ratio_spec(32, 1)
}

/// The degrees Rankine at zero degrees Celsius: 491.67.
pub open spec fn rankine_offset_spec<T: Scalar>() -> T {
    T::ratio_spec(49167, 100)
}

/// `celsius + 273.15`
pub open spec fn kelvin_from_celsius<T: Scalar>(celsius: T) -> T {
    celsius.plus_spec(celsius_offset_spec::<T>())
}

/// `(fahrenheit - 32) / 1.8 + 273.15`
pub open spec fn kelvin_from_fahrenheit<T: Scalar>(fahrenheit: T) -> T {
    fahrenheit.minus_spec(fahrenheit_offset_spec::<T>()).over_spec(
        fahrenheit_step_spec::<T>(),
    ).plus_spec(celsius_offset_spec::<T>())
}

/// `(rankine - 491.67) / 1.8 + 273.15`
pub open spec fn kelvin_from_rankine<T: Scalar>(rankine: T) -> T {
    rankine.minus_spec(rankine_offset_spec::<T>()).over_spec(
        fahrenheit_step_spec::<T>(),
    ).plus_spec(celsius_offset_spec::<T>())
}

/// `kelvin - 273.15`
pub open spec fn celsius_from_kelvin<T: Scalar>(kelvin: T) -> T {
    kelvin.minus_spec(celsius_offset_spec::<T>())
}

/// `(kelvin - 273.15) * 1.8 + 32`
pub open spec fn fahrenheit_from_kelvin<T: Scalar>(kelvin: T) -> T {
    kelvin.minus_spec(celsius_offset_spec::<T>()).times_spec(
        fahrenheit_step_spec::<T>(),
    ).plus_spec(fahrenheit_offset_spec::<T>())
}

/// `(kelvin - 273.15) * 1.8 + 491.67`
pub open spec fn rankine_from_kelvin<T: Scalar>(kelvin: T) -> T {
    kelvin.minus_spec(celsius_offset_spec::<T>()).times_spec(
        fahrenheit_step_spec::<T>(),
    ).plus_spec(rankine_offset_spec::<T>())
}

fn celsius_offset<T: Scalar>() -> (r: T)
    ensures
        r == celsius_offset_spec::<T>(),
{
    T::from_ratio(27315, 100)
}

fn fahrenheit_step<T: Scalar>() -> (r: T)
    ensures
        r == fahrenheit_step_spec::<T>(),
{
    T::from_ratio(9, 5)
}

fn fahrenheit_offset<T: Scalar>() -> (r: T)
    ensures
        r == fahrenheit_offset_spec::<T>(),
{
    T::from_ratio(32, 1)
}

fn rankine_offset<T: Scalar>() -> (r: T)
    ensures
        r == rankine_offset_spec::<T>(),
{
    T::from_ratio(49167, 100)
}

/// The `Temperature` struct can be used to deal with absolute temperatures in
/// a common way.
#[derive(Copy, Clone, Debug)]
pub struct Temperature<T: Scalar> {
    degrees_kelvin: T,
}

/// The `TemperatureDelta` struct can be used to deal with differences between
/// temperatures in a common way.
#[derive(Copy, Clone, Debug)]
pub struct TemperatureDelta<T: Scalar> {
    kelvin_degrees: T,
}

impl<T: Scalar> TemperatureDelta<T> {
    /// Create a new TemperatureDelta from a value in Kelvin
    pub fn from_kelvin(kelvin_degrees: T) -> (r: Self)
        ensures
            r == Self::from_base_spec(kelvin_degrees),
    {
        TemperatureDelta { kelvin_degrees }
    }

    /// Create a new TemperatureDelta from a value in Celsius
    pub fn from_celsius(celsius_degrees: T) -> (r: Self)
        ensures
            r == Self::from_base_spec(celsius_degrees),
    {
        TemperatureDelta::from_kelvin(celsius_degrees)
    }

    /// Create a new TemperatureDelta from a value in Fahrenheit
    pub fn from_fahrenheit(farenheit_degrees: T) -> (r: Self)
        ensures
            r == Self::from_base_spec(farenheit_degrees.over_spec(fahrenheit_step_spec::<T>())),
    {
        TemperatureDelta { kelvin_degrees: farenheit_degrees.over(fahrenheit_step()) }
    }

    /// Create a new TemperatureDelta from a value in Rankine
    pub fn from_rankine(rankine_degrees: T) -> (r: Self)
        ensures
            r == Self::from_base_spec(rankine_degrees.over_spec(fahrenheit_step_spec::<T>())),
    {
        TemperatureDelta { kelvin_degrees: rankine_degrees.over(fahrenheit_step()) }
    }

    /// Convert this TemperatureDelta to a value in Kelvin
    pub fn as_kelvin(&self) -> (r: T)
        ensures
            r == self.base(),
    {
        self.kelvin_degrees
    }

    /// Convert this TemperatureDelta to a value in Celsius
    pub fn as_celsius(&self) -> (r: T)
        ensures
            r == self.base(),
    {
        self.kelvin_degrees
    }

    /// Convert this TemperatureDelta to a value in Fahrenheit
    pub fn as_fahrenheit(&self) -> (r: T)
        ensures
            r == self.base().times_spec(fahrenheit_step_spec::<T>()),
    {
        self.kelvin_degrees.times(fahrenheit_step())
    }

    /// Convert this TemperatureDelta to a value in Rankine
    pub fn as_rankine(&self) -> (r: T)
        ensures
            r == self.base().times_spec(fahrenheit_step_spec::<T>()),
    {
        self.kelvin_degrees.times(fahrenheit_step())
    }
}

impl<T: Scalar> Temperature<T> {
    /// Create a new Temperature from a value in Kelvin
    pub fn from_kelvin(degrees_kelvin: T) -> (r: Self)
        ensures
            r == Self::from_base_spec(degrees_kelvin),
    {
        Temperature { degrees_kelvin }
    }

    /// Create a new Temperature from a value in Celsius
    pub fn from_celsius(degrees_celsius: T) -> (r: Self)
        ensures
            r == Self::from_base_spec(kelvin_from_celsius(degrees_celsius)),
    {
        Self::from_kelvin(degrees_celsius.plus(celsius_offset()))
    }

    /// Create a new Temperature from a value in Fahrenheit
    pub fn from_fahrenheit(degrees_fahrenheit: T) -> (r: Self)
        ensures
            r == Self::from_base_spec(kelvin_from_fahrenheit(degrees_fahrenheit)),
    {
        Self::from_kelvin(
            degrees_fahrenheit.minus(fahrenheit_offset()).over(fahrenheit_step()).plus(
                celsius_offset(),
            ),
        )
    }

    /// Create a new Temperature from a value in Rankine
    pub fn from_rankine(degrees_rankine: T) -> (r: Self)
        ensures
            r == Self::from_base_spec(kelvin_from_rankine(degrees_rankine)),
    {
        Self::from_kelvin(
            degrees_rankine.minus(rankine_offset()).over(fahrenheit_step()).plus(celsius_offset()),
        )
    }

    /// Convert this absolute Temperature to a value in Kelvin
    pub fn as_kelvin(&self) -> (r: T)
        ensures
            r == self.base(),
    {
        self.degrees_kelvin
    }

    /// Convert this absolute Temperature to a value in Celsius
    pub fn as_celsius(&self) -> (r: T)
        ensures
            r == celsius_from_kelvin(self.base()),
    {
        self.degrees_kelvin.minus(celsius_offset())
    }

    /// Convert this absolute Temperature to a value in Fahrenheit
    pub fn as_fahrenheit(&self) -> (r: T)
        ensures
            r == fahrenheit_from_kelvin(self.base()),
    {
        self.degrees_kelvin.minus(celsius_offset()).times(fahrenheit_step()).plus(
            fahrenheit_offset(),
        )
    }

    /// Convert this absolute Temperature to a value in Rankine
    pub fn as_rankine(&self) -> (r: T)
        ensures
            r == rankine_from_kelvin(self.base()),
    {
        self.degrees_kelvin.minus(celsius_offset()).times(fahrenheit_step()).plus(rankine_offset())
    }
}

impl<T: Scalar> Measurement<T> for Temperature<T> {
    closed spec fn base(&self) -> T {
        self.degrees_kelvin
    }

    closed spec fn from_base_spec(units: T) -> Self {
        Temperature { degrees_kelvin: units }
    }

    open spec fn units_name_spec() -> Text {
        "K"@
    }

    fn get_base_units_name(&self) -> (r: &'static str) {
        "K"
    }

    fn as_base_units(&self) -> (r: T) {
        self.degrees_kelvin
    }

    fn from_base_units(units: T) -> (r: Self) {
        Temperature { degrees_kelvin: units }
    }
}

impl<T: Scalar> Quantity<T> for Temperature<T> {
    proof fn lemma_base_units(q: Self, units: T) {
    }
}

impl<T: Scalar> Measurement<T> for TemperatureDelta<T> {
    closed spec fn base(&self) -> T {
        self.kelvin_degrees
    }

    closed spec fn from_base_spec(units: T) -> Self {
        TemperatureDelta { kelvin_degrees: units }
    }

    open spec fn units_name_spec() -> Text {
        "K"@
    }

    fn get_base_units_name(&self) -> (r: &'static str) {
        "K"
    }

    fn as_base_units(&self) -> (r: T) {
        self.kelvin_degrees
    }

    fn from_base_units(units: T) -> (r: Self) {
        TemperatureDelta { kelvin_degrees: units }
    }
}

impl<T: Scalar> Quantity<T> for TemperatureDelta<T> {
    proof fn lemma_base_units(q: Self, units: T) {
    }
}

impl<T: Scalar> Default for Temperature<T> {
    /// Zero degrees kelvin.
    fn default() -> (r: Self)
        ensures
            r == Self::from_base_spec(T::ratio_spec(0, 1)),
    {
        Temperature { degrees_kelvin: T::from_ratio(0, 1) }
    }
}

/// An absolute temperature moved up by a difference is an absolute
/// temperature.
impl<T: Scalar> Sum<T, TemperatureDelta<T>> for Temperature<T> {
    type Output = Temperature<T>;
}

/// A difference added to an absolute temperature is an absolute temperature.
impl<T: Scalar> Sum<T, Temperature<T>> for TemperatureDelta<T> {
    type Output = Temperature<T>;
}

/// An absolute temperature moved down by a difference is an absolute
/// temperature.
impl<T: Scalar> Difference<T, TemperatureDelta<T>> for Temperature<T> {
    type Output = Temperature<T>;
}

/// Two absolute temperatures are a difference apart, not a temperature.
impl<T: Scalar> Difference<T, Temperature<T>> for Temperature<T> {
    type Output = TemperatureDelta<T>;
}

impl<T: Scalar> Comparable<T> for Temperature<T> {
}

impl<T: Scalar> Comparable<T> for TemperatureDelta<T> {
}

impl<T: Scalar> Sum<T, TemperatureDelta<T>> for TemperatureDelta<T> {
    type Output = TemperatureDelta<T>;
}

impl<T: Scalar> Difference<T, TemperatureDelta<T>> for TemperatureDelta<T> {
    type Output = TemperatureDelta<T>;
}

/// The ratio of two quantities of this type is a bare number.
impl<T: Scalar> Quotient<T, TemperatureDelta<T>> for TemperatureDelta<T> {
    type Output = T;
}

impl<T: Scalar> Quotient<T, T> for TemperatureDelta<T> {
    type Output = TemperatureDelta<T>;
}

impl<T: Scalar> Product<T, T> for TemperatureDelta<T> {
    type Output = TemperatureDelta<T>;
}

impl<T: Scalar> Product<T, TemperatureDelta<T>> for T {
    type Output = TemperatureDelta<T>;
}

/// The regular expression that splits a temperature into its number, in
/// group 1, and the letter of its scale, in group 3.
pub const TEMPERATURE_PATTERN: &'static str =
    r"\s*([0-9.]*)\s?(deg|\u{00B0}|)?\s?([fckrFCKR]{1})\s*$";

/// The scales that a temperature can be read in.
#[derive(Copy, Clone, Debug, PartialEq, Eq, Structural)]
pub enum Scale {
    Fahrenheit,
    Celsius,
    Kelvin,
    Rankine,
}

/// The scale that the text of a unit names: its first letter, in either case.
pub open spec fn scale_spec(unit: Seq<char>) -> Option<Scale> {
    if unit.len() != 1 {
        None
    } else if is_letter(unit[0], 'f', 'F') {
        Some(Scale::Fahrenheit)
    } else if is_letter(unit[0], 'c', 'C') {
        Some(Scale::Celsius)
    } else if is_letter(unit[0], 'k', 'K') {
        Some(Scale::Kelvin)
    } else if is_letter(unit[0], 'r', 'R') {
        Some(Scale::Rankine)
    } else {
        None
    }
}

/// The kelvin of `degrees` on `scale`.
pub open spec fn kelvin_on<T: Scalar>(scale: Scale, degrees: T) -> T {
    match scale {
        Scale::Fahrenheit => kelvin_from_fahrenheit(degrees),
        Scale::Celsius => kelvin_from_celsius(degrees),
        Scale::Kelvin => degrees,
        Scale::Rankine => kelvin_from_rankine(degrees),
    }
}

/// The temperature that the number `text` is on `scale`, and an error if
/// `text` is not a number.
pub open spec fn read_on<T: Scalar>(scale: Scale, text: Seq<char>) -> Result<
    Temperature<T>,
    ParseError,
> {
    match T::parse_spec(text) {
        Some(degrees) => Ok(Temperature::from_base_spec(kelvin_on(scale, degrees))),
        None => Err(ParseError),
    }
}

/// The temperature that the text `val` denotes, given what
/// [`TEMPERATURE_PATTERN`] found in it. The empty text is zero degrees
/// Celsius. Where the pattern found a number and the letter of a scale, the
/// number is read on that scale. Any other text is read as a whole, as a
/// number of degrees Celsius.
pub open spec fn temperature_spec<T: Scalar>(
    val: Seq<char>,
    found: Option<Seq<Option<Seq<char>>>>,
) -> Result<Temperature<T>, ParseError> {
    if val.len() == 0 {
        Ok(Temperature::from_base_spec(kelvin_from_celsius(T::ratio_spec(0, 1))))
    } else {
        match found {
            Some(groups) => match (group_spec(groups, 1), group_spec(groups, 3)) {
                (Some(number), Some(unit)) => match scale_spec(unit) {
                    Some(scale) => read_on(scale, number),
                    None => read_on(Scale::Celsius, val),
                },
                _ => read_on(Scale::Celsius, val),
            },
            None => read_on(Scale::Celsius, val),
        }
    }
}

/// The scale that the text of a unit names.
fn scale_of(unit: &str) -> (r: Option<Scale>)
    ensures
        r == scale_spec(unit@),
{
    if unit.unicode_len() != 1 {
        return None;
    }
    let c = unit.get_char(0);
    if letter(c, 'f', 'F') {
        Some(Scale::Fahrenheit)
    } else if letter(c, 'c', 'C') {
        Some(Scale::Celsius)
    } else if letter(c, 'k', 'K') {
        Some(Scale::Kelvin)
    } else if letter(c, 'r', 'R') {
        Some(Scale::Rankine)
    } else {
        None
    }
}

impl<T: Scalar> Temperature<T> {
    /// Reads the number `text` as degrees on `scale`.
    fn read(scale: Scale, text: &str) -> (r: Result<Self, ParseError>)
        ensures
            r == read_on::<T>(scale, text@),
    {
        match T::parse(text) {
            Some(degrees) => Ok(
                match scale {
                    Scale::Fahrenheit => Temperature::from_fahrenheit(degrees),
                    Scale::Celsius => Temperature::from_celsius(degrees),
                    Scale::Kelvin => Temperature::from_kelvin(degrees),
                    Scale::Rankine => Temperature::from_rankine(degrees),
                },
            ),
            None => Err(ParseError),
        }
    }

    /// Create a new Temperature from a string and from what
    /// [`TEMPERATURE_PATTERN`] captured in it: the groups of the match, or
    /// `None` if there was no match.
    pub fn from_captures(val: &str, found: Option<Vec<Option<String>>>) -> (r: Result<
        Self,
        ParseError,
    >)
        ensures
            r == temperature_spec::<T>(val@, groups_view(found)),
    {
        if val.is_empty() {
            return Ok(Temperature::from_celsius(T::from_ratio(0, 1)));
        }
        if let Some(groups) = found {
            if let Some(number) = group(&groups, 1) {
                if let Some(unit) = group(&groups, 3) {
                    if let Some(scale) = scale_of(unit) {
                        return Self::read(scale, number);
                    }
                }
            }
        }
        Self::read(Scale::Celsius, val)
    }

    /// Create a new Temperature from a string
    /// Plain numbers in string are considered to be Celsius
    pub fn from_str(val: &str) -> (r: Result<Self, ParseError>)
        ensures
            r == temperature_spec::<T>(val@, regex_captures(TEMPERATURE_PATTERN@, val@)),
    {
        if val.is_empty() {
            return Ok(Temperature::from_celsius(T::from_ratio(0, 1)));
        }
        Self::from_captures(val, captures(TEMPERATURE_PATTERN, val))
    }
}

} // verus!
