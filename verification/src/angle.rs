//! Types and constants for handling angles
use crate::measurement::{Measurement, Quantity};
use crate::operators::{Comparable, Difference, Product, Quotient, Sum};
use crate::parse::{
    captures, group, group_spec, groups_view, is_letter, letter, regex_captures, ParseError,
};
use crate::scalar::{Scalar, Text, Transcendental};
use vstd::prelude::*;
use vstd::string::StrSliceExecFns;

verus! {

/// The ratio of a circle's circumference to its diameter, to the precision
/// of a double: 884279719003555 / 2^48.
pub open spec fn pi_spec<T: Scalar>() -> T {
    T::ratio_spec(884279719003555, 281474976710656)
}

/// The number of degrees in half a turn.
pub open spec fn half_turn_spec<T: Scalar>() -> T {
    T::ratio_spec(180, 1)
}

/// The radians that `degrees` make: `degrees * pi / 180`.
pub open spec fn radians_from_degrees<T: Scalar>(degrees: T) -> T {
    degrees.times_spec(pi_spec::<T>()).over_spec(half_turn_spec::<T>())
}

/// The degrees that `radians` make: `radians * 180 / pi`.
pub open spec fn degrees_from_radians<T: Scalar>(radians: T) -> T {
    radians.times_spec(half_turn_spec::<T>()).over_spec(pi_spec::<T>())
}

fn pi<T: Scalar>() -> (r: T)
    ensures
        r == pi_spec::<T>(),
{
    T::from_ratio(884279719003555, 281474976710656)
}

/// The 'Angle' struct can be used to deal with angles in a common way.
#[derive(Copy, Clone, Debug)]
pub struct Angle<T: Scalar> {
    radians: T,
}

impl<T: Scalar> Angle<T> {
    /// Create a new Angle from a value in degrees
    pub fn from_degrees(degrees: T) -> (r: Self)
        ensures
            r == Self::from_base_spec(radians_from_degrees(degrees)),
    {
        Angle::from_radians(degrees.times(pi()).over(T::from_ratio(180, 1)))
    }

    /// Create a new Angle from a value in radians
    pub fn from_radians(radians: T) -> (r: Self)
        ensures
            r == Self::from_base_spec(radians),
    {
        Angle { radians }
    }

    /// Convert this Angle to a value in degrees
    pub fn as_degrees(&self) -> (r: T)
        ensures
            r == degrees_from_radians(self.base()),
    {
        self.radians.times(T::from_ratio(180, 1)).over(pi())
    }

    /// Convert this Angle to a value in radians
    pub fn as_radians(&self) -> (r: T)
        ensures
            r == self.base(),
    {
        self.radians
    }
}

impl<T: Transcendental> Angle<T> {
    /// Calculate the cosine of this angle
    pub fn cos(&self) -> (r: T)
        ensures
            r == self.base().cos_spec(),
    {
        self.radians.cos()
    }

    /// Calculate the sine of this angle
    pub fn sin(&self) -> (r: T)
        ensures
            r == self.base().sin_spec(),
    {
        self.radians.sin()
    }

    /// Calculate the sine and cosine of this angle
    pub fn sin_cos(&self) -> (r: (T, T))
        ensures
            r == (self.base().sin_spec(), self.base().cos_spec()),
    {
        (self.radians.sin(), self.radians.cos())
    }

    /// Calculate the tangent of this angle
    pub fn tan(&self) -> (r: T)
        ensures
            r == self.base().tan_spec(),
    {
        self.radians.tan()
    }

    /// Calculate the arcsine of a number
    pub fn asin(num: T) -> (r: Self)
        ensures
            r == Self::from_base_spec(num.asin_spec()),
    {
        Angle::from_radians(num.asin())
    }

    /// Calculate the arccosine of a number
    pub fn acos(num: T) -> (r: Self)
        ensures
            r == Self::from_base_spec(num.acos_spec()),
    {
        Angle::from_radians(num.acos())
    }

    /// Calculate the arctangent of a number
    pub fn atan(num: T) -> (r: Self)
        ensures
            r == Self::from_base_spec(num.atan_spec()),
    {
        Angle::from_radians(num.atan())
    }
}

impl<T: Scalar> Measurement<T> for Angle<T> {
    closed spec fn base(&self) -> T {
        self.radians
    }

    closed spec fn from_base_spec(units: T) -> Self {
        Angle { radians: units }
    }

    open spec fn units_name_spec() -> Text {
        "rad"@
    }

    fn get_base_units_name(&self) -> (r: &'static str) {
        "rad"
    }

    fn as_base_units(&self) -> (r: T) {
        self.radians
    }

    fn from_base_units(units: T) -> (r: Self) {
        Angle { radians: units }
    }
}

impl<T: Scalar> Quantity<T> for Angle<T> {
    proof fn lemma_base_units(q: Self, units: T) {
    }
}

impl<T: Scalar> Default for Angle<T> {
    /// Zero radians.
    fn default() -> (r: Self)
        ensures
            r == Self::from_base_spec(T::ratio_spec(0, 1)),
    {
        Angle { radians: T::from_ratio(0, 1) }
    }
}

impl<T: Scalar> Comparable<T> for Angle<T> {
}

impl<T: Scalar> Sum<T, Angle<T>> for Angle<T> {
    type Output = Angle<T>;
}

impl<T: Scalar> Difference<T, Angle<T>> for Angle<T> {
    type Output = Angle<T>;
}

/// The ratio of two quantities of this type is a bare number.
impl<T: Scalar> Quotient<T, Angle<T>> for Angle<T> {
    type Output = T;
}

impl<T: Scalar> Quotient<T, T> for Angle<T> {
    type Output = Angle<T>;
}

impl<T: Scalar> Product<T, T> for Angle<T> {
    type Output = Angle<T>;
}

impl<T: Scalar> Product<T, Angle<T>> for T {
    type Output = Angle<T>;
}

/// The regular expression that splits an angle into its number, in group 1,
/// and its unit, in group 2.
pub const ANGLE_PATTERN: &'static str = r"(?i)\s*([0-9.]*)\s?(deg|\u{00B0}|rad)\s*$";

/// The units that an angle can be read in.
#[derive(Copy, Clone, Debug, PartialEq, Eq, Structural)]
pub enum AngleUnit {
    Degrees,
    Radians,
}

/// The unit that a text names: `deg` or the degree sign, or `rad`, in
/// letters of either case.
pub open spec fn angle_unit_spec(unit: Seq<char>) -> Option<AngleUnit> {
    if unit.len() == 1 && unit[0] == '\u{b0}' {
        Some(AngleUnit::Degrees)
    } else if unit.len() != 3 {
        None
    } else if is_letter(unit[0], 'd', 'D') && is_letter(unit[1], 'e', 'E') && is_letter(
        unit[2],
        'g',
        'G',
    ) {
        Some(AngleUnit::Degrees)
    } else if is_letter(unit[0], 'r', 'R') && is_letter(unit[1], 'a', 'A') && is_letter(
        unit[2],
        'd',
        'D',
    ) {
        Some(AngleUnit::Radians)
    } else {
        None
    }
}

/// The angle that the number `text` is in `unit`, and an error if `text` is
/// not a number.
pub open spec fn read_in<T: Scalar>(unit: AngleUnit, text: Seq<char>) -> Result<
    Angle<T>,
    ParseError,
> {
    match T::parse_spec(text) {
        Some(value) => Ok(
            Angle::from_base_spec(
                match unit {
                    AngleUnit::Degrees => radians_from_degrees(value),
                    AngleUnit::Radians => value,
                },
            ),
        ),
        None => Err(ParseError),
    }
}

/// The angle that the text `val` denotes, given what [`ANGLE_PATTERN`] found
/// in it. The empty text is zero degrees. Where the pattern found a number
/// and a unit, the number is read in that unit. Any other text is read as a
/// whole, as a number of degrees.
pub open spec fn angle_spec<T: Scalar>(
    val: Seq<char>,
    found: Option<Seq<Option<Seq<char>>>>,
) -> Result<Angle<T>, ParseError> {
    if val.len() == 0 {
        Ok(Angle::from_base_spec(radians_from_degrees(T::ratio_spec(0, 1))))
    } else {
        match found {
            Some(groups) => match (group_spec(groups, 1), group_spec(groups, 2)) {
                (Some(number), Some(unit)) => match angle_unit_spec(unit) {
                    Some(unit) => read_in(unit, number),
                    None => read_in(AngleUnit::Degrees, val),
                },
                _ => read_in(AngleUnit::Degrees, val),
            },
            None => read_in(AngleUnit::Degrees, val),
        }
    }
}

/// The unit that a text names.
fn angle_unit_of(unit: &str) -> (r: Option<AngleUnit>)
    ensures
        r == angle_unit_spec(unit@),
{
    let len = unit.unicode_len();
    if len == 1 {
        if unit.get_char(0) == '\u{b0}' {
            Some(AngleUnit::Degrees)
        } else {
            None
        }
    } else if len != 3 {
        None
    } else {
        let first = unit.get_char(0);
        let second = unit.get_char(1);
        let third = unit.get_char(2);
        if letter(first, 'd', 'D') && letter(second, 'e', 'E') && letter(third, 'g', 'G') {
            Some(AngleUnit::Degrees)
        } else if letter(first, 'r', 'R') && letter(second, 'a', 'A') && letter(third, 'd', 'D') {
            Some(AngleUnit::Radians)
        } else {
            None
        }
    }
}

impl<T: Scalar> Angle<T> {
    /// Reads the number `text` as an angle in `unit`.
    fn read(unit: AngleUnit, text: &str) -> (r: Result<Self, ParseError>)
        ensures
            r == read_in::<T>(unit, text@),
    {
        match T::parse(text) {
            Some(value) => Ok(
                match unit {
                    AngleUnit::Degrees => Angle::from_degrees(value),
                    AngleUnit::Radians => Angle::from_radians(value),
                },
            ),
            None => Err(ParseError),
        }
    }

    /// Create a new Angle from a string and from what [`ANGLE_PATTERN`]
    /// captured in it: the groups of the match, or `None` if there was no
    /// match.
    pub fn from_captures(val: &str, found: Option<Vec<Option<String>>>) -> (r: Result<
        Self,
        ParseError,
    >)
        ensures
            r == angle_spec::<T>(val@, groups_view(found)),
    {
        if val.is_empty() {
            return Ok(Angle::from_degrees(T::from_ratio(0, 1)));
        }
        if let Some(groups) = found {
            if let Some(number) = group(&groups, 1) {
                if let Some(unit) = group(&groups, 2) {
                    if let Some(unit) = angle_unit_of(unit) {
                        return Self::read(unit, number);
                    }
                }
            }
        }
        Self::read(AngleUnit::Degrees, val)
    }

    /// Create a new Angle from a string
    /// Plain numbers in string are considered to be plain degrees
    pub fn from_str(val: &str) -> (r: Result<Self, ParseError>)
        ensures
            r == angle_spec::<T>(val@, regex_captures(ANGLE_PATTERN@, val@)),
    {
        if val.is_empty() {
            return Ok(Angle::from_degrees(T::from_ratio(0, 1)));
        }
        Self::from_captures(val, captures(ANGLE_PATTERN, val))
    }
}

} // verus!
