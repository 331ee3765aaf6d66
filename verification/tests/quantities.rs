//! The quantities over exact rational numbers, where every expected value
//! is met exactly.
use measurements::operators::partial_cmp;
use measurements::parse::ParseError;
use measurements::scalar::Text;
use measurements::test_utils::{almost_eq, almost_eq_delta};
use measurements::{
    Acceleration, Angle, AngularVelocity, Area, Comparable, Current, Density, Difference,
    Duration, Energy, Force, Humidity, Length, Mass, Measurement, Power, Pressure, Product,
    Quotient, Rational, Resistance, Scalar, Speed, Sum, Temperature, TemperatureDelta, Torque,
    TorqueEnergy, Transcendental, Voltage, Volume,
};
use std::cmp::Ordering;

fn q(num: i64, den: i64) -> Rational {
    Rational::new(num, den)
}

fn n(whole: i64) -> Rational {
    Rational::new(whole, 1)
}

// Round trips: from_<unit>(x).as_<unit>() == x

#[test]
fn round_trip_temperature() {
    for x in [n(0), n(-40), q(2150, 100), n(1_000_000), q(-27315, 100)] {
        assert_eq!(Temperature::from_kelvin(x).as_kelvin(), x);
        assert_eq!(Temperature::from_celsius(x).as_celsius(), x);
        assert_eq!(Temperature::from_fahrenheit(x).as_fahrenheit(), x);
        assert_eq!(Temperature::from_rankine(x).as_rankine(), x);
        assert_eq!(TemperatureDelta::from_kelvin(x).as_kelvin(), x);
        assert_eq!(TemperatureDelta::from_celsius(x).as_celsius(), x);
        assert_eq!(TemperatureDelta::from_fahrenheit(x).as_fahrenheit(), x);
        assert_eq!(TemperatureDelta::from_rankine(x).as_rankine(), x);
    }
}

#[test]
fn round_trip_other_units() {
    for x in [n(0), n(-3), q(5, 4), n(250)] {
        assert_eq!(Torque::from_newton_metres(x).as_newton_metres(), x);
        assert_eq!(Torque::from_newton_meters(x).as_newton_meters(), x);
        assert_eq!(Torque::from_pound_foot(x).as_pound_foot(), x);
        assert_eq!(Angle::from_radians(x).as_radians(), x);
        assert_eq!(Angle::from_degrees(x).as_degrees(), x);
        assert_eq!(Humidity::from_percent(x).as_percent(), x);
        assert_eq!(Humidity::from_ratio(x).as_ratio(), x);
        assert_eq!(Mass::from_grams(x).as_grams(), x);
        assert_eq!(Mass::from_tonnes(x).as_tonnes(), x);
        assert_eq!(Length::from_kilometers(x).as_kilometers(), x);
        assert_eq!(Length::from_millimeters(x).as_millimeters(), x);
        assert_eq!(Pressure::from_kilopascals(x).as_kilopascals(), x);
        assert_eq!(Pressure::from_hectopascals(x).as_hectopascals(), x);
        assert_eq!(Speed::from_kilometers_per_hour(x).as_kilometers_per_hour(), x);
        assert_eq!(
            Acceleration::from_metres_per_second_per_second(x).as_meters_per_second_per_second(),
            x
        );
    }
}

#[test]
fn conversions_have_exact_values() {
    assert_eq!(Temperature::from_celsius(n(100)).as_kelvin(), q(37315, 100));
    assert_eq!(Temperature::from_fahrenheit(n(212)).as_kelvin(), q(37315, 100));
    assert_eq!(Temperature::from_rankine(q(67167, 100)).as_kelvin(), q(37315, 100));
    assert_eq!(Temperature::from_kelvin(n(100)).as_celsius(), q(-17315, 100));
    assert_eq!(Temperature::from_kelvin(n(100)).as_fahrenheit(), q(-27967, 100));
    assert_eq!(Temperature::from_kelvin(n(100)).as_rankine(), n(180));
    assert_eq!(TemperatureDelta::from_fahrenheit(n(9)).as_kelvin(), n(5));
    assert_eq!(TemperatureDelta::from_kelvin(n(5)).as_rankine(), n(9));
    assert_eq!(Humidity::from_ratio(q(1, 10)).as_percent(), n(10));
    assert_eq!(Mass::from_grams(n(1500)).as_kilograms(), q(3, 2));
    assert_eq!(Length::from_kilometers(q(1, 2)).as_meters(), n(500));
    assert_eq!(Speed::from_kilometers_per_hour(n(36)).as_meters_per_second(), n(10));
    assert_eq!(Pressure::from_hectopascals(n(10)).as_pascals(), n(1000));
    assert_eq!(
        Torque::from_pound_foot(q(73756326522588, 100000000000000)).as_newton_metres(),
        n(1)
    );
    assert_eq!(Angle::from_degrees(n(180)).as_radians(), q(884279719003555, 281474976710656));
}

// Base-unit consistency: from_base_units(v.as_base_units()) == v

#[test]
fn base_units_round_trip() {
    let v = Torque::from_pound_foot(n(250));
    let w = Torque::from_base_units(v.as_base_units());
    assert!(w.eq(&v));
    assert_eq!(w.as_base_units(), v.as_base_units());
    let t = Temperature::from_celsius(q(-5, 2));
    assert!(Temperature::from_base_units(t.as_base_units()).eq(&t));
    let bridge: TorqueEnergy<Rational> = TorqueEnergy::from_base_units(n(7));
    assert_eq!(bridge.as_base_units(), n(7));
    assert_eq!(Rational::from_base_units(q(1, 3)).as_base_units(), q(1, 3));
}

#[test]
fn base_unit_names() {
    assert_eq!(Temperature::from_kelvin(n(1)).get_base_units_name(), "K");
    assert_eq!(TemperatureDelta::from_kelvin(n(1)).get_base_units_name(), "K");
    assert_eq!(Torque::from_newton_metres(n(1)).get_base_units_name(), "Nm");
    assert_eq!(TorqueEnergy::<Rational>::from_base_units(n(1)).get_base_units_name(), "Nm||J");
    assert_eq!(Angle::from_radians(n(1)).get_base_units_name(), "rad");
    assert_eq!(Humidity::from_percent(n(1)).get_base_units_name(), "%");
    assert_eq!(
        Acceleration::from_meters_per_second_per_second(n(1)).get_base_units_name(),
        "m/s\u{00B2}"
    );
    assert_eq!(Measurement::<Rational>::get_base_units_name(&Duration::new(1, 0)), "s");
    assert_eq!(n(1).get_base_units_name(), "");
}

#[test]
fn default_is_zero() {
    assert_eq!(Temperature::<Rational>::default().as_kelvin(), n(0));
    assert_eq!(Angle::<Rational>::default().as_radians(), n(0));
    assert_eq!(Torque::<Rational>::default().as_newton_metres(), n(0));
    assert_eq!(Humidity::<Rational>::default().as_percent(), n(0));
}

// The derived operator set

#[test]
fn add_then_sub_is_identity() {
    let a = Length::from_meters(q(7, 3));
    let b = Length::from_meters(q(-11, 5));
    assert!(a.add(b).sub(b).eq(&a));
    assert!(a.sub(b).add(b).eq(&a));
    assert_eq!(a.add(b).as_meters(), q(2, 15));
    assert_eq!(a.sub(b).as_meters(), q(68, 15));
}

#[test]
fn ratio_to_self_is_one() {
    let a = Mass::from_kilograms(q(-7, 3));
    let ratio: Rational = a.div(a);
    assert_eq!(ratio, n(1));
    let zero = Mass::from_kilograms(n(0));
    let undefined: Rational = zero.div(zero);
    assert!(undefined.is_nan());
}

#[test]
fn scaling() {
    let a = Torque::from_newton_metres(q(3, 2));
    let doubled: Torque<Rational> = a.mul(n(2));
    assert_eq!(doubled.as_newton_metres(), n(3));
    let also_doubled: Torque<Rational> = n(2).mul(a);
    assert!(doubled.eq(&also_doubled));
    let halved: Torque<Rational> = doubled.div(n(4));
    assert_eq!(halved.as_newton_metres(), q(3, 4));
    let ratio: Rational = doubled.div(halved);
    assert_eq!(ratio, n(4));
}

#[test]
fn comparison_follows_base_units() {
    let a = Length::from_meters(n(999));
    let b = Length::from_kilometers(n(1));
    assert!(a.lt(&b) && a.le(&b) && a.ne(&b));
    assert!(!a.gt(&b) && !a.ge(&b) && !a.eq(&b));
    assert!(b.gt(&a) && b.ge(&a));
    assert!(b.eq(&Length::from_meters(n(1000))));
    assert!(b.le(&Length::from_meters(n(1000))) && b.ge(&Length::from_meters(n(1000))));
    assert_eq!(partial_cmp(&a, &b), Some(Ordering::Less));
    assert_eq!(partial_cmp(&b, &a), Some(Ordering::Greater));
    assert_eq!(partial_cmp(&b, &b), Some(Ordering::Equal));
    let nan = Length::from_meters(q(1, 0));
    assert_eq!(partial_cmp(&nan, &b), None);
    assert!(!nan.eq(&nan) && nan.ne(&nan));
    assert!(!nan.lt(&b) && !nan.le(&b) && !nan.gt(&b) && !nan.ge(&b));
}

// Relations between quantities

#[test]
fn products_commute() {
    let mass = Mass::from_kilograms(q(3, 2));
    let acceleration = Acceleration::from_meters_per_second_per_second(n(4));
    let force: Force<Rational> = mass.mul(acceleration);
    let same: Force<Rational> = acceleration.mul(mass);
    assert!(force.eq(&same));
    assert_eq!(force.as_newtons(), n(6));

    let pressure = Pressure::from_pascals(n(10));
    let area = Area::from_square_meters(q(1, 4));
    let pushed: Force<Rational> = pressure.mul(area);
    assert!(pushed.eq(&area.mul(pressure)));
    assert_eq!(pushed.as_newtons(), q(5, 2));
}

#[test]
fn quotients_undo_products() {
    let length = Length::from_meters(n(3));
    let area: Area<Rational> = length.mul(Length::from_meters(n(5)));
    assert_eq!(area.as_square_meters(), n(15));
    let side: Length<Rational> = area.div(length);
    assert_eq!(side.as_meters(), n(5));
    let volume: Volume<Rational> = length.mul(area);
    assert!(volume.eq(&area.mul(length)));
    let base: Area<Rational> = volume.div(length);
    assert!(base.eq(&area));
    let height: Length<Rational> = volume.div(area);
    assert!(height.eq(&length));

    let force = Force::from_newtons(n(12));
    let speed = Speed::from_meters_per_second(q(1, 2));
    let power: Power<Rational> = force.mul(speed);
    assert_eq!(power.as_watts(), n(6));
    let back: Force<Rational> = power.div(speed);
    assert!(back.eq(&force));
    let pace: Speed<Rational> = power.div(force);
    assert!(pace.eq(&speed));

    let torque = Torque::from_newton_metres(n(10));
    let turning = AngularVelocity::from_radians_per_second(n(3));
    let shaft: Power<Rational> = torque.mul(turning);
    assert_eq!(shaft.as_watts(), n(30));
    assert!(shaft.eq(&turning.mul(torque)));
    let twist: Torque<Rational> = shaft.div(turning);
    assert!(twist.eq(&torque));

    let voltage = Voltage::from_volts(n(12));
    let current = Current::from_amperes(q(1, 2));
    let electric: Power<Rational> = voltage.mul(current);
    assert_eq!(electric.as_watts(), n(6));
    let resistance: Resistance<Rational> = voltage.div(current);
    assert_eq!(resistance.as_ohms(), n(24));
    let drop: Voltage<Rational> = resistance.mul(current);
    assert!(drop.eq(&voltage));
    let flow: Current<Rational> = voltage.div(resistance);
    assert!(flow.eq(&current));

    let mass: Mass<Rational> =
        Force::from_newtons(n(6)).div(Acceleration::from_meters_per_second_per_second(n(4)));
    assert_eq!(mass.as_kilograms(), q(3, 2));
    let pressure: Pressure<Rational> =
        Force::from_newtons(n(6)).div(Area::from_square_meters(n(4)));
    assert_eq!(pressure.as_pascals(), q(3, 2));
}

#[test]
fn relations_with_time() {
    let five_seconds = Duration::new(5, 0);
    let length: Length<Rational> = Speed::from_meters_per_second(n(10)).mul(five_seconds);
    assert!(length.eq(&Length::from_meters(n(50))));
    let speed: Speed<Rational> = length.div(five_seconds);
    assert_eq!(speed.as_meters_per_second(), n(10));
    let time: Duration = length.div(speed);
    assert_eq!(time, five_seconds);

    let acceleration: Acceleration<Rational> = speed.div(Duration::new(2, 500_000_000));
    assert_eq!(acceleration.as_meters_per_second_per_second(), n(4));
    let gained: Speed<Rational> = acceleration.mul(Duration::new(0, 250_000_000));
    assert_eq!(gained.as_meters_per_second(), n(1));
    let also_gained: Speed<Rational> = Duration::new(0, 250_000_000).mul(acceleration);
    assert!(gained.eq(&also_gained));
    let ramp: Duration = speed.div(acceleration);
    assert_eq!(ramp, Duration::new(2, 500_000_000));

    let energy: Energy<Rational> = Power::from_watts(n(60)).mul(Duration::new(60, 0));
    assert_eq!(energy.as_joules(), n(3600));
    let power: Power<Rational> = energy.div(Duration::new(30, 0));
    assert_eq!(power.as_watts(), n(120));
    let running: Duration = energy.div(Power::from_watts(n(7200)));
    assert_eq!(running, Duration::new(0, 500_000_000));
}

#[test]
fn duration_parts() {
    let d = Duration::new(1, 2_500_000_000);
    assert_eq!((d.as_secs(), d.subsec_nanos()), (3, 500_000_000));
    let longest = Duration::new(u64::MAX, 1_000_000_000);
    assert_eq!((longest.as_secs(), longest.subsec_nanos()), (u64::MAX, 999_999_999));
    let seconds: Rational = Duration::new(2, 500_000_000).as_base_units();
    assert_eq!(seconds, q(5, 2));
    let back: Duration = Measurement::<Rational>::from_base_units(q(7, 4));
    assert_eq!(back, Duration::new(1, 750_000_000));
    let negative: Duration = Measurement::<Rational>::from_base_units(q(-7, 4));
    assert_eq!(negative, Duration::new(0, 0));
    let nothing: Duration = Measurement::<Rational>::from_base_units(q(1, 0));
    assert_eq!(nothing, Duration::new(0, 0));
    let (unit, shown): (&str, Rational) = Duration::new(90, 0).get_appropriate_units();
    assert_eq!((unit, shown), ("s", n(90)));
}

// Force * Length is a torque or an energy

#[test]
fn force_times_length_is_ambiguous() {
    let force = Force::from_newtons(n(10));
    let length = Length::from_meters(n(2));
    let torque: Torque<Rational> = force.mul(length).into();
    let energy: Energy<Rational> = force.mul(length).into();
    assert!(torque.eq(&Torque::from_newton_metres(n(20))));
    assert!(energy.eq(&Energy::from_joules(n(20))));
    assert_eq!(torque.as_base_units(), force.as_base_units().times(length.as_base_units()));
    assert_eq!(energy.as_base_units(), force.as_base_units().times(length.as_base_units()));
    let swapped: Torque<Rational> = Torque::from(length.mul(force));
    assert!(swapped.eq(&torque));

    let arm: Length<Rational> = force.mul(length).div(force);
    assert!(arm.eq(&length));
    let push: Force<Rational> = force.mul(length).div(length);
    assert!(push.eq(&force));
    let from_torque: Force<Rational> = torque.div(length);
    let from_energy: Force<Rational> = energy.div(length);
    assert!(from_torque.eq(&force) && from_energy.eq(&force));
    let torque_arm: Length<Rational> = torque.div(force);
    let energy_path: Length<Rational> = energy.div(force);
    assert!(torque_arm.eq(&length) && energy_path.eq(&length));
}

// Absolute temperatures and differences

#[test]
fn affine_asymmetry() {
    let boiling = Temperature::from_celsius(n(100));
    let freezing = Temperature::from_celsius(n(0));
    let apart: TemperatureDelta<Rational> = boiling.sub(freezing);
    assert!(apart.eq(&TemperatureDelta::from_celsius(n(100))));
    let warmer: Temperature<Rational> = freezing.add(apart);
    assert!(warmer.eq(&boiling));
    let also_warmer: Temperature<Rational> = apart.add(freezing);
    assert!(also_warmer.eq(&boiling));
    let cooler: Temperature<Rational> = boiling.sub(apart);
    assert!(cooler.eq(&freezing));
    let twice: TemperatureDelta<Rational> = apart.add(apart);
    assert_eq!(twice.as_kelvin(), n(200));
}

// Unit selection

#[test]
fn unit_selection_boundary_exact() {
    let table = [("g", q(1, 1000)), ("kg", n(1))];
    let pick = |kilograms: Rational| Mass::from_kilograms(kilograms).pick_appropriate_units(&table);
    assert_eq!(pick(n(1)), ("kg", n(1)));
    assert_eq!(pick(q(999, 1000)), ("g", n(999)));
    assert_eq!(pick(q(1001, 1000)), ("kg", q(1001, 1000)));
    assert_eq!(pick(n(-1)), ("kg", n(-1)));
    assert_eq!(pick(q(-999, 1000)), ("g", n(-999)));
    assert_eq!(pick(q(1, 2000)), ("g", q(1, 2)));
    assert_eq!(pick(n(0)), ("g", n(0)));
    assert_eq!(pick(q(1, 0)).0, "g");
}

#[test]
fn unit_selection_prefers_the_largest_filled_unit() {
    assert_eq!(Mass::from_kilograms(n(2500)).get_appropriate_units(), ("tonnes", q(5, 2)));
    assert_eq!(Mass::from_kilograms(n(999)).get_appropriate_units(), ("kg", n(999)));
    assert_eq!(Mass::from_grams(q(1, 2)).get_appropriate_units(), ("mg", n(500)));
    assert_eq!(Mass::from_grams(q(1, 2_000_000)).get_appropriate_units(), ("mg", q(1, 2000)));
    assert_eq!(Length::from_meters(n(1500)).get_appropriate_units(), ("km", q(3, 2)));
    assert_eq!(Length::from_meters(q(1, 4)).get_appropriate_units(), ("mm", n(250)));
    assert_eq!(Torque::from_newton_metres(q(1, 4)).get_appropriate_units(), ("Nm", q(1, 4)));
    let one_entry = [("stone", q(635029318, 100000000))];
    assert_eq!(
        Mass::from_kilograms(q(635029318, 100000000)).pick_appropriate_units(&one_entry),
        ("stone", n(1))
    );
}

#[test]
fn display() {
    assert_eq!(Mass::from_kilograms(q(999, 1000)).to_string(), "999\u{00A0}g");
    assert_eq!(Temperature::from_celsius(n(0)).to_string(), "5463/20\u{00A0}K");
    assert_eq!(Torque::from_newton_metres(n(-3)).to_string(), "-3\u{00A0}Nm");
    assert_eq!(Length::from_meters(q(1, 0)).to_string(), "NaN\u{00A0}mm");
    assert_eq!(n(7).to_string(), "7\u{00A0}");
}

// Reading from text

#[test]
fn temperature_from_text() {
    let read = |text: &str| Temperature::<Rational>::from_str(text);
    assert!(read("").unwrap().eq(&Temperature::from_celsius(n(0))));
    assert!(read("100C").unwrap().eq(&Temperature::from_celsius(n(100))));
    assert!(read("100 c").unwrap().eq(&Temperature::from_celsius(n(100))));
    assert!(read("100.5").unwrap().eq(&Temperature::from_celsius(q(201, 2))));
    assert!(read("98.6 deg F").unwrap().eq(&Temperature::from_fahrenheit(q(986, 10))));
    assert!(read("100 \u{00B0}R").unwrap().eq(&Temperature::from_rankine(n(100))));
    assert!(read("  300K  ").unwrap().eq(&Temperature::from_kelvin(n(300))));
    assert_eq!(read("abcd").err(), Some(ParseError));
    assert_eq!(read("C").err(), Some(ParseError));
    assert_eq!(read("1.2.3C").err(), Some(ParseError));
    assert_eq!(read("100 X").err(), Some(ParseError));
}

#[test]
fn temperature_from_captures() {
    let groups = |number: &str, unit: &str| {
        Some(vec![None, Some(number.to_string()), None, Some(unit.to_string())])
    };
    let read = |text: &str, found| Temperature::<Rational>::from_captures(text, found);
    assert!(read("x", groups("20", "F")).unwrap().eq(&Temperature::from_fahrenheit(n(20))));
    assert!(read("x", groups("20", "k")).unwrap().eq(&Temperature::from_kelvin(n(20))));
    assert!(read("x", groups("20", "r")).unwrap().eq(&Temperature::from_rankine(n(20))));
    assert!(read("x", groups("20", "C")).unwrap().eq(&Temperature::from_celsius(n(20))));
    // A unit that names no scale, a missing group, or no match: the whole text is the number.
    assert!(read("30", groups("20", "Q")).unwrap().eq(&Temperature::from_celsius(n(30))));
    assert!(read("30", groups("20", "FF")).unwrap().eq(&Temperature::from_celsius(n(30))));
    assert!(read("30", Some(vec![None, Some("20".to_string())])).unwrap().eq(
        &Temperature::from_celsius(n(30))
    ));
    assert!(read("30", Some(vec![None, None, None, Some("F".to_string())])).unwrap().eq(
        &Temperature::from_celsius(n(30))
    ));
    assert!(read("30", None).unwrap().eq(&Temperature::from_celsius(n(30))));
    assert_eq!(read("x", groups("", "F")).err(), Some(ParseError));
    assert_eq!(read("x", None).err(), Some(ParseError));
    assert!(read("", groups("20", "F")).unwrap().eq(&Temperature::from_celsius(n(0))));
}

#[test]
fn angle_from_text() {
    let read = |text: &str| Angle::<Rational>::from_str(text);
    assert!(read("").unwrap().eq(&Angle::from_degrees(n(0))));
    assert!(read("100 deg").unwrap().eq(&Angle::from_degrees(n(100))));
    assert!(read("100\u{00B0}").unwrap().eq(&Angle::from_degrees(n(100))));
    assert!(read("2.5rad").unwrap().eq(&Angle::from_radians(q(5, 2))));
    assert!(read("2.5 RAD").unwrap().eq(&Angle::from_radians(q(5, 2))));
    assert!(read("45").unwrap().eq(&Angle::from_degrees(n(45))));
    assert_eq!(read("abcd").err(), Some(ParseError));
    assert_eq!(read("deg").err(), Some(ParseError));
}

#[test]
fn angle_from_captures() {
    let groups =
        |number: &str, unit: &str| Some(vec![None, Some(number.to_string()), Some(unit.to_string())]);
    let read = |text: &str, found| Angle::<Rational>::from_captures(text, found);
    assert!(read("x", groups("20", "Deg")).unwrap().eq(&Angle::from_degrees(n(20))));
    assert!(read("x", groups("20", "\u{00B0}")).unwrap().eq(&Angle::from_degrees(n(20))));
    assert!(read("x", groups("20", "rAD")).unwrap().eq(&Angle::from_radians(n(20))));
    assert!(read("30", groups("20", "grd")).unwrap().eq(&Angle::from_degrees(n(30))));
    assert!(read("30", groups("20", "d")).unwrap().eq(&Angle::from_degrees(n(30))));
    assert!(read("30", Some(vec![None])).unwrap().eq(&Angle::from_degrees(n(30))));
    assert!(read("30", None).unwrap().eq(&Angle::from_degrees(n(30))));
    assert_eq!(read("x", groups("", "deg")).err(), Some(ParseError));
}

// The elementary functions on exact numbers

#[test]
fn elementary_functions_are_exact_or_undefined() {
    assert_eq!(n(0).exp(), n(1));
    assert_eq!(n(1).ln(), n(0));
    assert_eq!(n(0).sin(), n(0));
    assert_eq!(n(0).cos(), n(1));
    assert_eq!(n(0).tan(), n(0));
    assert_eq!(n(0).asin(), n(0));
    assert_eq!(n(1).acos(), n(0));
    assert_eq!(n(0).atan(), n(0));
    assert!(n(1).exp().is_nan() && n(2).ln().is_nan() && n(1).sin().is_nan());
    assert!(n(1).cos().is_nan() && n(1).tan().is_nan() && n(1).asin().is_nan());
    assert!(n(0).acos().is_nan() && n(1).atan().is_nan() && q(1, 0).exp().is_nan());
    let flat = Angle::from_radians(n(0));
    assert_eq!(flat.sin_cos(), (n(0), n(1)));
    assert_eq!((flat.sin(), flat.cos(), flat.tan()), (n(0), n(1), n(0)));
    assert_eq!(Angle::asin(n(0)).as_radians(), n(0));
    assert_eq!(Angle::acos(n(1)).as_radians(), n(0));
    assert_eq!(Angle::atan(n(0)).as_radians(), n(0));
}

#[test]
fn humidity_formulas_on_exact_numbers() {
    // Saturated air at the freezing point: every logarithm and exponential is at its exact point.
    let saturated = Humidity::from_percent(n(100));
    let freezing = Temperature::from_celsius(n(0));
    assert!(saturated.as_dewpoint(freezing).eq(&freezing));
    assert!(Humidity::from_dewpoint(freezing, freezing).eq(&saturated));
    let pressure = saturated.as_vapor_pressure(freezing);
    assert_eq!(pressure.as_kilopascals(), q(61121, 100000));
    let density: Density<Rational> = saturated.as_absolute_humidity(freezing);
    assert_eq!(
        density.as_kilograms_per_cubic_meter(),
        q(61121, 100).over(q(27315, 100).times(q(4615, 10)))
    );
    // Anywhere else the exact value is irrational.
    let half = Humidity::from_percent(n(50));
    assert!(half.as_dewpoint(freezing).as_kelvin().is_nan());
}

#[test]
fn approximate_equality() {
    assert!(almost_eq(n(1_000_000), n(1_000_001)));
    assert!(!almost_eq(n(1000), n(1001)));
    assert!(almost_eq_delta(n(100), n(109), q(1, 10)));
    assert!(!almost_eq_delta(n(100), n(110), q(1, 10)));
    assert!(almost_eq_delta(n(100), n(91), q(1, 10)));
    assert!(!almost_eq(n(0), n(0)));
}

// A measurement of the user's own

#[derive(Clone, Copy, Debug)]
struct Cubits {
    forearms: Rational,
}

impl Measurement<Rational> for Cubits {
    fn as_base_units(&self) -> Rational {
        self.forearms
    }

    fn from_base_units(units: Rational) -> Self {
        Cubits { forearms: units }
    }

    fn get_base_units_name(&self) -> &'static str {
        "cu"
    }

    // What follows names the results above for the verifier and never runs.

    fn base(&self) -> Rational {
        unreachable!()
    }

    fn from_base_spec(_: Rational) -> Self {
        unreachable!()
    }

    fn units_name_spec() -> Text {
        unreachable!()
    }
}

impl Comparable<Rational> for Cubits {}

impl Sum<Rational, Cubits> for Cubits {
    type Output = Cubits;
}

impl Quotient<Rational, Cubits> for Cubits {
    type Output = Rational;
}

#[test]
fn a_measurement_of_ones_own() {
    let a = Cubits { forearms: q(7, 2) };
    let b = Cubits { forearms: q(1, 2) };
    assert_eq!(a.add(b).forearms, n(4));
    let ratio: Rational = a.div(b);
    assert_eq!(ratio, n(7));
    assert!(b.lt(&a));
    assert_eq!(a.get_appropriate_units(), ("cu", q(7, 2)));
    assert_eq!(a.to_string(), "7/2\u{00A0}cu");
    let table = [("digits", q(1, 24)), ("cubits", n(1)), ("rods", n(6))];
    assert_eq!(a.pick_appropriate_units(&table), ("cubits", q(7, 2)));
    assert_eq!(b.pick_appropriate_units(&table), ("digits", n(12)));
}
