//! What holds of every quantity, stated over the specification functions
//! that the contracts of the operations use.
//!
//! The laws on arithmetic hold for scalars that are [`Exact`]. They ask that
//! the result they speak of be defined: an exact scalar of bounded size has
//! no value for a sum or a product that is too large, nor for a division by
//! zero.
use crate::angle::{degrees_from_radians, radians_from_degrees, Angle};
use crate::energy::Energy;
use crate::force::Force;
use crate::humidity::{hundred_spec, Humidity};
use crate::length::Length;
use crate::length::length_units_spec;
use crate::mass::mass_units_spec;
use crate::measurement::{ascending, Measurement, Quantity};
use crate::operators::{
    difference_spec, ordering_spec, product_spec, quotient_spec, sum_spec,
};
use crate::rational::Rational;
use crate::scalar::{one_spec, zero_spec, Exact, Scalar};
use crate::temperature::{
    celsius_from_kelvin, fahrenheit_from_kelvin, fahrenheit_step_spec, kelvin_from_celsius,
    kelvin_from_fahrenheit, kelvin_from_rankine, rankine_from_kelvin, Temperature,
    TemperatureDelta,
};
use crate::torque::{newton_metre_pound_foot_factor_spec, Torque};
use crate::torque_energy::TorqueEnergy;
use std::cmp::Ordering;
use vstd::prelude::*;
use vstd::std_specs::convert::FromSpec;

verus! {

/// Base-unit consistency: a quantity built from the base units of a quantity
/// is that quantity, and holds the base units it was built from.
pub proof fn law_base_units_round_trip<T: Scalar, Q: Quantity<T>>(v: Q, units: T)
    ensures
        Q::from_base_spec(v.base()) == v,
        Q::from_base_spec(units).base() == units,
{
    Q::lemma_base_units(v, units);
}

/// Base-unit consistency under the comparison of quantities: rebuilt from
/// its base units, a quantity that holds a number compares equal to itself.
pub proof fn law_base_units_round_trip_equal<T: Exact, Q: Quantity<T>>(v: Q)
    requires
        v.base().defined(),
    ensures
        Q::from_base_spec(v.base()).base().equals_spec(v.base()),
{
    Q::lemma_base_units(v, v.base());
    T::lemma_equals_is_identity(v.base(), v.base());
}

/// Two quantities are equal exactly when they hold the same number.
pub proof fn law_equal_is_same_number<T: Exact, Q: Quantity<T>>(a: Q, b: Q)
    ensures
        a.base().equals_spec(b.base()) <==> a.base().defined() && a == b,
{
    T::lemma_equals_is_identity(a.base(), b.base());
    Q::lemma_base_units(a, a.base());
    Q::lemma_base_units(b, b.base());
}

/// The order of quantities is total on those that hold a number, and two
/// quantities are incomparable only if one of them holds none.
pub proof fn law_order_is_total<T: Exact, Q: Measurement<T>>(a: Q, b: Q)
    ensures
        ordering_spec(a.base(), b.base()) is Some <==> a.base().defined() && b.base().defined(),
        ordering_spec(a.base(), b.base()) == Some(Ordering::Equal) <==> a.base().defined()
            && a.base() == b.base(),
        ordering_spec(a.base(), b.base()) == Some(Ordering::Less) <==> ordering_spec(
            b.base(),
            a.base(),
        ) == Some(Ordering::Greater),
{
    T::lemma_order(a.base(), b.base());
    T::lemma_order(b.base(), a.base());
    T::lemma_equals_is_identity(a.base(), b.base());
    T::lemma_equals_is_identity(b.base(), a.base());
}

/// The order of quantities is transitive: if `a < b` and `b < c` then
/// `a < c`.
pub proof fn law_order_is_transitive<T: Exact, Q: Measurement<T>>(a: Q, b: Q, c: Q)
    requires
        ordering_spec(a.base(), b.base()) == Some(Ordering::Less),
        ordering_spec(b.base(), c.base()) == Some(Ordering::Less),
    ensures
        ordering_spec(a.base(), c.base()) == Some(Ordering::Less),
{
    T::lemma_below_transitive(a.base(), b.base(), c.base());
}

/// Adding a quantity and taking it away again gives the first quantity back:
/// `a + b - b == a`.
pub proof fn law_add_then_sub<T: Exact, Q: Quantity<T>>(a: Q, b: Q)
    requires
        sum_spec::<T, Q, Q, Q>(a, b).base().defined(),
    ensures
        difference_spec::<T, Q, Q, Q>(sum_spec::<T, Q, Q, Q>(a, b), b) == a,
{
    let sum = a.base().plus_spec(b.base());
    Q::lemma_base_units(a, sum);
    T::lemma_plus_then_minus(a.base(), b.base());
}

/// Taking a quantity away and adding it again gives the first quantity back:
/// `a - b + b == a`.
pub proof fn law_sub_then_add<T: Exact, Q: Quantity<T>>(a: Q, b: Q)
    requires
        difference_spec::<T, Q, Q, Q>(a, b).base().defined(),
    ensures
        sum_spec::<T, Q, Q, Q>(difference_spec::<T, Q, Q, Q>(a, b), b) == a,
{
    let difference = a.base().minus_spec(b.base());
    Q::lemma_base_units(a, difference);
    T::lemma_minus_then_plus(a.base(), b.base());
}

/// The ratio of a quantity to itself is one, unless the quantity is zero or
/// holds no number: `a / a == 1`.
pub proof fn law_ratio_to_self<T: Exact, Q: Measurement<T>>(a: Q)
    requires
        a.base().defined(),
        a.base() != zero_spec::<T>(),
    ensures
        quotient_spec::<T, Q, Q, T>(a, a) == one_spec::<T>(),
{
    T::lemma_over_self(a.base());
}

/// A product does not depend on the order of its factors: `b * c == c * b`,
/// whatever the types of `b`, `c` and the product.
pub proof fn law_product_commutes<T: Exact, B: Measurement<T>, C: Measurement<T>, A: Measurement<T>>(
    b: B,
    c: C,
)
    ensures
        product_spec::<T, B, C, A>(b, c) == product_spec::<T, C, B, A>(c, b),
{
    T::lemma_times_commutes(b.base(), c.base());
}

/// A sum does not depend on the order of its terms: `a + b == b + a`.
pub proof fn law_sum_commutes<T: Exact, B: Measurement<T>, C: Measurement<T>, A: Measurement<T>>(
    b: B,
    c: C,
)
    ensures
        sum_spec::<T, B, C, A>(b, c) == sum_spec::<T, C, B, A>(c, b),
{
    T::lemma_plus_commutes(b.base(), c.base());
}

/// Dividing a product by its second factor gives the first: `(b * c) / c == b`.
pub proof fn law_product_over_second<T: Exact, B: Quantity<T>, C: Measurement<T>, A: Quantity<T>>(
    b: B,
    c: C,
)
    requires
        product_spec::<T, B, C, A>(b, c).base().defined(),
        c.base() != zero_spec::<T>(),
    ensures
        quotient_spec::<T, A, C, B>(product_spec::<T, B, C, A>(b, c), c) == b,
{
    let product = b.base().times_spec(c.base());
    A::lemma_base_units(A::from_base_spec(product), product);
    B::lemma_base_units(b, product);
    T::lemma_times_then_over(b.base(), c.base());
}

/// Dividing a product by its first factor gives the second: `(b * c) / b == c`.
pub proof fn law_product_over_first<T: Exact, B: Measurement<T>, C: Quantity<T>, A: Quantity<T>>(
    b: B,
    c: C,
)
    requires
        product_spec::<T, B, C, A>(b, c).base().defined(),
        b.base() != zero_spec::<T>(),
    ensures
        quotient_spec::<T, A, B, C>(product_spec::<T, B, C, A>(b, c), b) == c,
{
    let product = b.base().times_spec(c.base());
    A::lemma_base_units(A::from_base_spec(product), product);
    C::lemma_base_units(c, product);
    T::lemma_times_commutes(b.base(), c.base());
    T::lemma_times_then_over(c.base(), b.base());
}

/// Multiplying a quotient by the divisor gives the dividend back:
/// `(a / b) * b == a`.
pub proof fn law_quotient_times_divisor<
    T: Exact,
    A: Quantity<T>,
    B: Measurement<T>,
    C: Quantity<T>,
>(a: A, b: B)
    requires
        quotient_spec::<T, A, B, C>(a, b).base().defined(),
    ensures
        product_spec::<T, C, B, A>(quotient_spec::<T, A, B, C>(a, b), b) == a,
{
    let quotient = a.base().over_spec(b.base());
    C::lemma_base_units(C::from_base_spec(quotient), quotient);
    A::lemma_base_units(a, quotient);
    T::lemma_over_then_times(a.base(), b.base());
}

/// The product of a force and a length, turned into a torque or into an
/// energy, holds the product of their base units: newton metres, which are
/// joules.
pub proof fn law_torque_energy<T: Scalar>(force: Force<T>, length: Length<T>)
    ensures
        Torque::<T>::from_spec(
            product_spec::<T, Force<T>, Length<T>, TorqueEnergy<T>>(force, length),
        ) == Torque::<T>::from_base_spec(force.base().times_spec(length.base())),
        Energy::<T>::from_spec(
            product_spec::<T, Force<T>, Length<T>, TorqueEnergy<T>>(force, length),
        ) == Energy::<T>::from_base_spec(force.base().times_spec(length.base())),
        Torque::<T>::from_spec(
            product_spec::<T, Force<T>, Length<T>, TorqueEnergy<T>>(force, length),
        ).base() == Energy::<T>::from_spec(
            product_spec::<T, Force<T>, Length<T>, TorqueEnergy<T>>(force, length),
        ).base(),
{
    let product = force.base().times_spec(length.base());
    let bridge = TorqueEnergy::<T>::from_base_spec(product);
    TorqueEnergy::<T>::lemma_base_units(bridge, product);
    Torque::<T>::lemma_base_units(Torque::<T>::from_base_spec(product), product);
    Energy::<T>::lemma_base_units(Energy::<T>::from_base_spec(product), product);
}

/// An absolute temperature moved by a difference and moved back is the
/// temperature it was: `t + d - d == t` and `t - d + d == t`.
pub proof fn law_temperature_shift<T: Exact>(t: Temperature<T>, d: TemperatureDelta<T>)
    ensures
        sum_spec::<T, Temperature<T>, TemperatureDelta<T>, Temperature<T>>(t, d).base().defined()
            ==> difference_spec::<T, Temperature<T>, TemperatureDelta<T>, Temperature<T>>(
            sum_spec::<T, Temperature<T>, TemperatureDelta<T>, Temperature<T>>(t, d),
            d,
        ) == t,
        difference_spec::<T, Temperature<T>, TemperatureDelta<T>, Temperature<T>>(
            t,
            d,
        ).base().defined() ==> sum_spec::<
            T,
            Temperature<T>,
            TemperatureDelta<T>,
            Temperature<T>,
        >(difference_spec::<T, Temperature<T>, TemperatureDelta<T>, Temperature<T>>(t, d), d) == t,
{
    let up = t.base().plus_spec(d.base());
    let down = t.base().minus_spec(d.base());
    Temperature::<T>::lemma_base_units(t, up);
    Temperature::<T>::lemma_base_units(t, down);
    if up.defined() {
        T::lemma_plus_then_minus(t.base(), d.base());
    }
    if down.defined() {
        T::lemma_minus_then_plus(t.base(), d.base());
    }
}

/// The difference of two absolute temperatures, added to the lower one,
/// reaches the higher one: `(a - b) + b == a`, where `a - b` is a
/// difference and the sum is a temperature again.
pub proof fn law_temperature_difference<T: Exact>(a: Temperature<T>, b: Temperature<T>)
    requires
        difference_spec::<T, Temperature<T>, Temperature<T>, TemperatureDelta<T>>(
            a,
            b,
        ).base().defined(),
    ensures
        sum_spec::<T, TemperatureDelta<T>, Temperature<T>, Temperature<T>>(
            difference_spec::<T, Temperature<T>, Temperature<T>, TemperatureDelta<T>>(a, b),
            b,
        ) == a,
{
    let apart = a.base().minus_spec(b.base());
    TemperatureDelta::<T>::lemma_base_units(TemperatureDelta::<T>::from_base_spec(apart), apart);
    Temperature::<T>::lemma_base_units(a, apart);
    T::lemma_minus_then_plus(a.base(), b.base());
}

/// Degrees Celsius survive the way to kelvin and back.
pub proof fn law_celsius_round_trip<T: Exact>(celsius: T)
    requires
        kelvin_from_celsius(celsius).defined(),
    ensures
        celsius_from_kelvin(
            Temperature::<T>::from_base_spec(kelvin_from_celsius(celsius)).base(),
        ) == celsius,
{
    let kelvin = kelvin_from_celsius(celsius);
    Temperature::<T>::lemma_base_units(Temperature::<T>::from_base_spec(kelvin), kelvin);
    T::lemma_plus_then_minus(celsius, crate::temperature::celsius_offset_spec::<T>());
}

/// Degrees Fahrenheit survive the way to kelvin and back.
pub proof fn law_fahrenheit_round_trip<T: Exact>(fahrenheit: T)
    requires
        kelvin_from_fahrenheit(fahrenheit).defined(),
    ensures
        fahrenheit_from_kelvin(
            Temperature::<T>::from_base_spec(kelvin_from_fahrenheit(fahrenheit)).base(),
        ) == fahrenheit,
{
    let offset = crate::temperature::fahrenheit_offset_spec::<T>();
    let step = fahrenheit_step_spec::<T>();
    let zero_celsius = crate::temperature::celsius_offset_spec::<T>();
    let above = fahrenheit.minus_spec(offset);
    let celsius = above.over_spec(step);
    let kelvin = kelvin_from_fahrenheit(fahrenheit);
    Temperature::<T>::lemma_base_units(Temperature::<T>::from_base_spec(kelvin), kelvin);
    T::lemma_operands_defined(celsius, zero_celsius);
    T::lemma_operands_defined(above, step);
    T::lemma_plus_then_minus(celsius, zero_celsius);
    T::lemma_over_then_times(above, step);
    T::lemma_minus_then_plus(fahrenheit, offset);
}

/// Degrees Rankine survive the way to kelvin and back.
pub proof fn law_rankine_round_trip<T: Exact>(rankine: T)
    requires
        kelvin_from_rankine(rankine).defined(),
    ensures
        rankine_from_kelvin(
            Temperature::<T>::from_base_spec(kelvin_from_rankine(rankine)).base(),
        ) == rankine,
{
    let offset = crate::temperature::rankine_offset_spec::<T>();
    let step = fahrenheit_step_spec::<T>();
    let zero_celsius = crate::temperature::celsius_offset_spec::<T>();
    let above = rankine.minus_spec(offset);
    let celsius = above.over_spec(step);
    let kelvin = kelvin_from_rankine(rankine);
    Temperature::<T>::lemma_base_units(Temperature::<T>::from_base_spec(kelvin), kelvin);
    T::lemma_operands_defined(celsius, zero_celsius);
    T::lemma_operands_defined(above, step);
    T::lemma_plus_then_minus(celsius, zero_celsius);
    T::lemma_over_then_times(above, step);
    T::lemma_minus_then_plus(rankine, offset);
}

/// A difference in degrees Fahrenheit or Rankine survives the way to kelvin
/// and back.
pub proof fn law_delta_fahrenheit_round_trip<T: Exact>(degrees: T)
    requires
        degrees.over_spec(fahrenheit_step_spec::<T>()).defined(),
    ensures
        TemperatureDelta::<T>::from_base_spec(
            degrees.over_spec(fahrenheit_step_spec::<T>()),
        ).base().times_spec(fahrenheit_step_spec::<T>()) == degrees,
{
    let kelvin = degrees.over_spec(fahrenheit_step_spec::<T>());
    TemperatureDelta::<T>::lemma_base_units(
        TemperatureDelta::<T>::from_base_spec(kelvin),
        kelvin,
    );
    T::lemma_over_then_times(degrees, fahrenheit_step_spec::<T>());
}

/// Pound-foot survive the way to newton metres and back.
pub proof fn law_pound_foot_round_trip<T: Exact>(pound_foot: T)
    requires
        pound_foot.over_spec(newton_metre_pound_foot_factor_spec::<T>()).defined(),
    ensures
        Torque::<T>::from_base_spec(
            pound_foot.over_spec(newton_metre_pound_foot_factor_spec::<T>()),
        ).base().times_spec(newton_metre_pound_foot_factor_spec::<T>()) == pound_foot,
{
    let newton_metres = pound_foot.over_spec(newton_metre_pound_foot_factor_spec::<T>());
    Torque::<T>::lemma_base_units(Torque::<T>::from_base_spec(newton_metres), newton_metres);
    T::lemma_over_then_times(pound_foot, newton_metre_pound_foot_factor_spec::<T>());
}

/// Degrees survive the way to radians and back.
pub proof fn law_degrees_round_trip<T: Exact>(degrees: T)
    requires
        degrees_from_radians(radians_from_degrees(degrees)).defined(),
    ensures
        degrees_from_radians(Angle::<T>::from_base_spec(radians_from_degrees(degrees)).base())
            == degrees,
{
    let pi = crate::angle::pi_spec::<T>();
    let half_turn = crate::angle::half_turn_spec::<T>();
    let radians = radians_from_degrees(degrees);
    let scaled = degrees.times_spec(pi);
    Angle::<T>::lemma_base_units(Angle::<T>::from_base_spec(radians), radians);
    T::lemma_operands_defined(radians.times_spec(half_turn), pi);
    T::lemma_operands_defined(radians, half_turn);
    T::lemma_operands_defined(scaled, half_turn);
    T::lemma_over_then_times(scaled, half_turn);
    T::lemma_times_then_over(degrees, pi);
}

/// A ratio survives the way to a percentage and back.
pub proof fn law_humidity_ratio_round_trip<T: Exact>(ratio: T)
    requires
        ratio.times_spec(hundred_spec::<T>()).over_spec(hundred_spec::<T>()).defined(),
    ensures
        Humidity::<T>::from_base_spec(ratio.times_spec(hundred_spec::<T>())).base().over_spec(
            hundred_spec::<T>(),
        ) == ratio,
{
    let percent = ratio.times_spec(hundred_spec::<T>());
    Humidity::<T>::lemma_base_units(Humidity::<T>::from_base_spec(percent), percent);
    T::lemma_operands_defined(percent, hundred_spec::<T>());
    T::lemma_times_then_over(ratio, hundred_spec::<T>());
}

/// The units that masses and lengths are shown in go from the smallest to
/// the largest, as unit selection expects of a table.
pub proof fn law_unit_tables_ascend()
    ensures
        ascending(mass_units_spec::<Rational>()),
        ascending(length_units_spec::<Rational>()),
{
    Rational::lemma_unit_fraction(1000000);
    Rational::lemma_unit_fraction(1000);
    Rational::lemma_whole_number(1);
    Rational::lemma_whole_number(1000);
    let r = Rational::from_parts(0, 1);
    r.lemma_parts(1, 1000000);
    r.lemma_parts(1, 1000);
    r.lemma_parts(1, 1);
    r.lemma_parts(1000, 1);
}

} // verus!
