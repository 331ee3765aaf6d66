//! The quantities over double-precision floating point.
use measurements::scalar::Text;
use measurements::test_utils::{almost_eq, almost_eq_delta};
use measurements::{
    Angle, Comparable, Difference, Duration, Energy, Force, Humidity, Length, Mass, Measurement,
    Product, Quotient, Scalar, Speed, Sum, Temperature, TemperatureDelta, Torque, Transcendental,
};

/// A double. Every NaN is the one `f64::NAN`, so that an operation has one
/// result for given operands.
#[derive(Clone, Copy, Debug)]
struct F(f64);

fn number(x: f64) -> F {
    F(if x.is_nan() { f64::NAN } else { x })
}

impl Scalar for F {
    fn plus(self, rhs: F) -> F {
        number(self.0 + rhs.0)
    }

    fn minus(self, rhs: F) -> F {
        number(self.0 - rhs.0)
    }

    fn times(self, rhs: F) -> F {
        number(self.0 * rhs.0)
    }

    fn over(self, rhs: F) -> F {
        number(self.0 / rhs.0)
    }

    fn modulo(self, rhs: F) -> F {
        number(self.0 % rhs.0)
    }

    fn negate(self) -> F {
        number(-self.0)
    }

    fn equals(&self, rhs: &F) -> bool {
        self.0 == rhs.0
    }

    fn below(&self, rhs: &F) -> bool {
        self.0 < rhs.0
    }

    fn from_ratio(num: i64, den: i64) -> F {
        number(num as f64 / den as f64)
    }

    fn from_whole(n: u64) -> F {
        number(n as f64)
    }

    fn trunc(self) -> u64 {
        self.0 as u64
    }

    fn parse(text: &str) -> Option<F> {
        text.parse::<f64>().ok().map(number)
    }

    fn to_text(&self) -> String {
        format!("{}", self.0)
    }

    // What follows names the results above for the verifier and never runs.

    fn plus_spec(self, _: F) -> F {
        unreachable!()
    }

    fn minus_spec(self, _: F) -> F {
        unreachable!()
    }

    fn times_spec(self, _: F) -> F {
        unreachable!()
    }

    fn over_spec(self, _: F) -> F {
        unreachable!()
    }

    fn modulo_spec(self, _: F) -> F {
        unreachable!()
    }

    fn negate_spec(self) -> F {
        unreachable!()
    }

    fn equals_spec(self, _: F) -> bool {
        unreachable!()
    }

    fn below_spec(self, _: F) -> bool {
        unreachable!()
    }

    fn ratio_spec(_: i64, _: i64) -> F {
        unreachable!()
    }

    fn whole_spec(_: u64) -> F {
        unreachable!()
    }

    fn trunc_spec(self) -> u64 {
        unreachable!()
    }

    fn parse_spec(_: Text) -> Option<F> {
        unreachable!()
    }

    fn text_spec(self) -> Text {
        unreachable!()
    }
}

impl Transcendental for F {
    fn ln(self) -> F {
        number(libm::log(self.0))
    }

    fn exp(self) -> F {
        number(libm::exp(self.0))
    }

    fn sin(self) -> F {
        number(libm::sin(self.0))
    }

    fn cos(self) -> F {
        number(libm::cos(self.0))
    }

    fn tan(self) -> F {
        number(libm::tan(self.0))
    }

    fn asin(self) -> F {
        number(libm::asin(self.0))
    }

    fn acos(self) -> F {
        number(libm::acos(self.0))
    }

    fn atan(self) -> F {
        number(libm::atan(self.0))
    }

    fn ln_spec(self) -> F {
        unreachable!()
    }

    fn exp_spec(self) -> F {
        unreachable!()
    }

    fn sin_spec(self) -> F {
        unreachable!()
    }

    fn cos_spec(self) -> F {
        unreachable!()
    }

    fn tan_spec(self) -> F {
        unreachable!()
    }

    fn asin_spec(self) -> F {
        unreachable!()
    }

    fn acos_spec(self) -> F {
        unreachable!()
    }

    fn atan_spec(self) -> F {
        unreachable!()
    }
}

fn assert_almost_eq(a: F, b: f64) {
    assert!(almost_eq(a, F(b)), "assertion failed: {:?} != {:?}", a, b);
}

// Angle

#[test]
fn radians() {
    let i1 = Angle::from_degrees(F(360.0));
    let r1 = i1.as_radians();
    let i2 = Angle::from_radians(F(std::f64::consts::PI));
    let r2 = i2.as_degrees();
    assert_almost_eq(r1, 2.0 * std::f64::consts::PI);
    assert_almost_eq(r2, 180.0);
}

#[test]
fn angle_from_str() {
    let t = Angle::<F>::from_str("100 deg");
    assert!(t.is_ok());

    let o = t.unwrap().as_degrees();
    assert_almost_eq(o, 100.0);
}

#[test]
fn angle_from_degree_str() {
    let t = Angle::<F>::from_str("100°");
    assert!(t.is_ok());

    let o = t.unwrap().as_degrees();
    assert_almost_eq(o, 100.0);
}

#[test]
fn angle_from_degree_sign_after_other_text() {
    // The match begins at the degree sign, and the number before it is empty.
    let t = Angle::<F>::from_str("100\u{00C2}\u{00B0}");
    assert!(t.is_err());
}

#[test]
fn angle_from_radian_str() {
    let t = Angle::<F>::from_str("100rad");
    assert!(t.is_ok());

    let o = t.unwrap().as_radians();
    assert_almost_eq(o, 100.0);
}

#[test]
fn angle_from_upper_case_str() {
    assert_almost_eq(Angle::<F>::from_str("90 DEG").unwrap().as_degrees(), 90.0);
    assert_almost_eq(Angle::<F>::from_str("2Rad").unwrap().as_radians(), 2.0);
}

#[test]
fn default_str() {
    let t = Angle::<F>::from_str("100");
    assert!(t.is_ok());

    let o = t.unwrap().as_degrees();
    assert_almost_eq(o, 100.0);
}

#[test]
fn angle_empty_str() {
    let t = Angle::<F>::from_str("");
    assert!(t.is_ok());
    assert_eq!(t.unwrap().as_degrees().0, 0.0);
}

#[test]
fn angle_invalid_str() {
    let t = Angle::<F>::from_str("abcd");
    assert!(t.is_err());
}

#[test]
fn angle_trigonometry() {
    let right = Angle::from_degrees(F(90.0));
    assert_almost_eq(right.sin(), 1.0);
    assert!(right.cos().0.abs() < 1e-15);
    let (sin, cos) = Angle::from_degrees(F(60.0)).sin_cos();
    assert_almost_eq(sin, 0.75f64.sqrt());
    assert_almost_eq(cos, 0.5);
    assert_almost_eq(Angle::from_degrees(F(45.0)).tan(), 1.0);
    assert_almost_eq(Angle::asin(F(1.0)).as_degrees(), 90.0);
    assert_almost_eq(Angle::acos(F(0.5)).as_degrees(), 60.0);
    assert_almost_eq(Angle::atan(F(1.0)).as_degrees(), 45.0);
}

// Humidity

#[test]
fn percent() {
    let t = Humidity::from_percent(F(50.0));
    let o = t.as_percent();

    assert_almost_eq(o, 50.0);
}

#[test]
fn ratio() {
    let t = Humidity::from_ratio(F(0.1));
    let o = t.as_ratio();
    assert_almost_eq(o, 0.1);
}

#[test]
fn to_dewpoint1() {
    let humidity = Humidity::from_percent(F(85.0));
    let temp = Temperature::from_celsius(F(18.0));
    let dewpoint = humidity.as_dewpoint(temp);
    assert_almost_eq(dewpoint.as_celsius(), 15.44);
}

#[test]
fn to_dewpoint2() {
    let humidity = Humidity::from_percent(F(40.0));
    let temp = Temperature::from_celsius(F(5.0));
    let dewpoint = humidity.as_dewpoint(temp);
    assert_almost_eq(dewpoint.as_celsius(), -7.5);
}

#[test]
fn to_dewpoint3() {
    let humidity = Humidity::from_percent(F(95.0));
    let temp = Temperature::from_celsius(F(30.0));
    let dewpoint = humidity.as_dewpoint(temp);
    assert_almost_eq(dewpoint.as_celsius(), 29.11);
}

#[test]
fn to_dewpoint_value() {
    let humidity = Humidity::from_percent(F(85.0));
    let temp = Temperature::from_kelvin(F(291.15));
    let dewpoint = humidity.as_dewpoint(temp).as_celsius();
    assert!((dewpoint.0 - 15.440051881199963).abs() < 1e-9);
}

#[test]
fn from_dewpoint1() {
    let temp = Temperature::from_celsius(F(18.0));
    let dewpoint = Temperature::from_celsius(F(15.44));
    let rh = Humidity::from_dewpoint(dewpoint, temp);
    assert_almost_eq(rh.as_percent(), 85.0);
}

#[test]
fn vapour_pressure() {
    let humidity = Humidity::from_percent(F(60.0));
    let temp = Temperature::from_celsius(F(25.0));
    let vp = humidity.as_vapor_pressure(temp);
    assert_almost_eq(vp.as_hectopascals(), 19.011);
}

#[test]
// also tests as_vapor_pressure() on the fly
fn absolute_humidity() {
    let humidity = Humidity::from_percent(F(60.0));
    let temp = Temperature::from_celsius(F(25.0));
    let density = humidity.as_absolute_humidity(temp);
    assert_almost_eq(density.as_kilograms_per_cubic_meter(), 0.0138166);
}

#[test]
// round-trip test
fn from_dewpoint2() {
    let humidity = Humidity::from_percent(F(95.0));
    let temp = Temperature::from_celsius(F(30.0));
    let dewpoint = humidity.as_dewpoint(temp);
    let rh = Humidity::from_dewpoint(dewpoint, temp);
    assert_almost_eq(humidity.as_percent(), rh.as_percent().0);
}

#[test]
fn humidity_eq() {
    let a = Humidity::from_percent(F(20.0));
    let b = Humidity::from_percent(F(20.0));
    assert_eq!(a.eq(&b), true);
}

#[test]
fn humidity_neq() {
    let a = Humidity::from_percent(F(20.0));
    let b = Humidity::from_percent(F(19.0));
    assert_eq!(a.eq(&b), false);
}

#[test]
fn humidity_cmp() {
    let a = Humidity::from_percent(F(19.0));
    let b = Humidity::from_percent(F(20.0));
    assert_eq!(a.lt(&b), true);
    assert_eq!(a.le(&b), true);
    assert_eq!(a.gt(&b), false);
    assert_eq!(a.ge(&b), false);
}

// Temperature Units

#[test]
fn kelvin() {
    let t = Temperature::from_kelvin(F(100.0));
    let o = t.as_kelvin();

    assert_almost_eq(o, 100.0);
}

#[test]
fn celsius() {
    let t = Temperature::from_kelvin(F(100.0));
    let o = t.as_celsius();

    assert_almost_eq(o, -173.15);
}

#[test]
fn fahrenheit() {
    let t = Temperature::from_kelvin(F(100.0));
    let o = t.as_fahrenheit();

    assert_almost_eq(o, -279.67);
}

#[test]
fn rankine() {
    let t = Temperature::from_kelvin(F(100.0));
    let o = t.as_rankine();

    assert_almost_eq(o, 180.0);
}

#[test]
fn temperature_conversions_exact_values() {
    let t = Temperature::from_kelvin(F(100.0));
    assert_eq!(t.as_celsius().0, 100.0 - 273.15);
    assert_eq!(t.as_fahrenheit().0, (100.0 - 273.15) * 1.8 + 32.0);
    assert_eq!(t.as_rankine().0, (100.0 - 273.15) * 1.8 + 491.67);
    assert_eq!(Temperature::from_celsius(F(20.0)).as_kelvin().0, 20.0 + 273.15);
    assert_eq!(Temperature::from_fahrenheit(F(68.0)).as_kelvin().0, (68.0 - 32.0) / 1.8 + 273.15);
    assert_eq!(
        Temperature::from_rankine(F(500.0)).as_kelvin().0,
        (500.0 - 491.67) / 1.8 + 273.15
    );
    assert_eq!(TemperatureDelta::from_fahrenheit(F(9.0)).as_kelvin().0, 9.0 / 1.8);
    assert_eq!(TemperatureDelta::from_rankine(F(9.0)).as_celsius().0, 9.0 / 1.8);
    assert_eq!(TemperatureDelta::from_kelvin(F(5.0)).as_fahrenheit().0, 5.0 * 1.8);
    assert_eq!(TemperatureDelta::from_celsius(F(5.0)).as_rankine().0, 5.0 * 1.8);
}

#[test]
fn empty_str() {
    let t = Temperature::<F>::from_str("");
    assert!(t.is_ok());

    let o = t.unwrap().as_celsius();
    assert_eq!(o.0, 0.0);
}

#[test]
fn celsius_str() {
    let t = Temperature::<F>::from_str("100C");
    assert!(t.is_ok());

    let o = t.unwrap().as_celsius();
    assert_almost_eq(o, 100.0);
}

#[test]
fn celsius_space_str() {
    let t = Temperature::<F>::from_str("100 C");
    assert!(t.is_ok());

    let o = t.unwrap().as_celsius();
    assert_almost_eq(o, 100.0);
}

#[test]
fn celsius_degree_str() {
    let t = Temperature::<F>::from_str("100°C");
    assert!(t.is_ok());

    let o = t.unwrap().as_celsius();
    assert_almost_eq(o, 100.0);
}

#[test]
fn fahrenheit_str() {
    let t = Temperature::<F>::from_str("100F");
    assert!(t.is_ok());

    let o = t.unwrap().as_fahrenheit();
    assert_almost_eq(o, 100.0);
}

#[test]
fn fahrenheit_lc_str() {
    let t = Temperature::<F>::from_str("100 f");
    assert!(t.is_ok());

    let o = t.unwrap().as_fahrenheit();
    assert_almost_eq(o, 100.0);
}

#[test]
fn fahrenheit_degree_str() {
    let t = Temperature::<F>::from_str("100 deg f");
    assert!(t.is_ok());

    let o = t.unwrap().as_fahrenheit();
    assert_almost_eq(o, 100.0);
}

#[test]
fn rankine_str() {
    let t = Temperature::<F>::from_str("100R");
    assert!(t.is_ok());

    let o = t.unwrap().as_rankine();
    assert_almost_eq(o, 100.0);
}

#[test]
fn rankine_degree_str() {
    let t = Temperature::<F>::from_str("100 °R");
    assert!(t.is_ok());

    let o = t.unwrap().as_rankine();
    assert_almost_eq(o, 100.0);
}

#[test]
fn kelvin_str() {
    let t = Temperature::<F>::from_str("100 k");
    assert!(t.is_ok());
    assert_eq!(t.unwrap().as_kelvin().0, 100.0);
}

#[test]
fn number_str() {
    let t = Temperature::<F>::from_str("100.5");
    assert!(t.is_ok());

    let o = t.unwrap().as_celsius();
    assert_almost_eq(o, 100.5);
}

#[test]
fn temperature_invalid_str() {
    let t = Temperature::<F>::from_str("abcd");
    assert!(t.is_err());
}

#[test]
fn temperature_unit_without_number_str() {
    assert!(Temperature::<F>::from_str("C").is_err());
    assert!(Temperature::<F>::from_str("1.2.3 F").is_err());
}

// Traits

#[test]
fn add() {
    let a = Temperature::from_kelvin(F(2.0));
    let b = TemperatureDelta::from_kelvin(F(4.0));
    let c = a.add(b);
    let d = b.add(a);
    assert_almost_eq(c.as_kelvin(), 6.0);
    assert!(c.eq(&d));
}

#[test]
fn add2() {
    let a = TemperatureDelta::from_kelvin(F(2.0));
    let b = TemperatureDelta::from_kelvin(F(4.0));
    let c = a.add(b);
    let d = b.add(a);
    assert_almost_eq(c.as_kelvin(), 6.0);
    assert!(c.eq(&d));
}

#[test]
fn sub() {
    let a = Temperature::from_kelvin(F(4.0));
    let b = TemperatureDelta::from_kelvin(F(2.0));
    let c = a.sub(b);
    assert_almost_eq(c.as_kelvin(), 2.0);
}

#[test]
fn sub2() {
    let a = Temperature::from_fahrenheit(F(212.0));
    let b = Temperature::from_celsius(F(75.0));
    let c: TemperatureDelta<F> = a.sub(b);
    assert_almost_eq(c.as_kelvin(), 25.0);
}

#[test]
fn sub3() {
    let a = TemperatureDelta::from_fahrenheit(F(180.0));
    let b = TemperatureDelta::from_celsius(F(75.0));
    let c = a.sub(b);
    assert_almost_eq(c.as_kelvin(), 25.0);
}

#[test]
fn mul() {
    let a = TemperatureDelta::from_celsius(F(5.0));
    let b = a.mul(F(2.0));
    let c = F(2.0).mul(a);
    assert_almost_eq(b.as_celsius(), 10.0);
    assert!(b.eq(&c));
}

#[test]
fn delta_div_and_ratio() {
    let a = TemperatureDelta::from_kelvin(F(9.0));
    let third: TemperatureDelta<F> = a.div(F(3.0));
    assert_eq!(third.as_kelvin().0, 3.0);
    let ratio: F = a.div(third);
    assert_eq!(ratio.0, 3.0);
}

#[test]
fn temperature_eq() {
    let a = Temperature::from_kelvin(F(2.0));
    let b = Temperature::from_kelvin(F(2.0));
    assert_eq!(a.eq(&b), true);
}

#[test]
fn temperature_neq() {
    let a = Temperature::from_kelvin(F(2.0));
    let b = Temperature::from_kelvin(F(4.0));
    assert_eq!(a.eq(&b), false);
    assert_eq!(a.ne(&b), true);
}

#[test]
fn temperature_cmp() {
    let a = Temperature::from_kelvin(F(2.0));
    let b = Temperature::from_kelvin(F(4.0));
    assert_eq!(a.lt(&b), true);
    assert_eq!(a.le(&b), true);
    assert_eq!(a.gt(&b), false);
    assert_eq!(a.ge(&b), false);
}

#[test]
fn not_a_number_is_incomparable() {
    let a = Temperature::from_kelvin(F(f64::NAN));
    let b = Temperature::from_kelvin(F(4.0));
    assert_eq!(measurements::operators::partial_cmp(&a, &b), None);
    assert_eq!(measurements::operators::partial_cmp(&a, &a), None);
    assert_eq!(a.eq(&a), false);
    assert_eq!(
        measurements::operators::partial_cmp(&b, &b),
        Some(std::cmp::Ordering::Equal)
    );
    assert_eq!(
        measurements::operators::partial_cmp(&b, &Temperature::from_kelvin(F(5.0))),
        Some(std::cmp::Ordering::Less)
    );
    assert_eq!(
        measurements::operators::partial_cmp(&b, &Temperature::from_kelvin(F(3.0))),
        Some(std::cmp::Ordering::Greater)
    );
}

// Torque

#[test]
fn lbf_ft() {
    let i1 = Torque::from_pound_foot(F(250.0));
    let r1 = i1.as_newton_metres();
    let i2 = Torque::from_newton_metres(F(300.0));
    let r2 = i2.as_pound_foot();
    assert_almost_eq(r1, 338.954);
    assert_almost_eq(r2, 221.269);
}

// Appropriate units

#[test]
fn appropriate_units_eq_1() {
    let val: f64 = 1e0;
    let mass = Mass::from_kilograms(F(val));
    let (s, v) = mass.get_appropriate_units();
    assert_eq!(s, "kg");
    assert_almost_eq(F(val), v.0);
}

#[test]
fn appropriate_units_neg_1() {
    let val: f64 = -1e0;
    let mass = Mass::from_kilograms(F(val));
    let (s, v) = mass.get_appropriate_units();
    assert_eq!(s, "kg");
    assert_almost_eq(F(val), v.0);
}

#[test]
fn appropriate_units_lt_1() {
    // units will now be in grams
    let val: f64 = 1e0 - 1e-3;
    let mass = Mass::from_kilograms(F(val));
    let (s, v) = mass.get_appropriate_units();
    assert_eq!(s, "g");
    assert_almost_eq(F(val * 1e3), v.0);
}

#[test]
fn appropriate_units_gt_1() {
    let val: f64 = 1e0 + 1e-3;
    let mass = Mass::from_kilograms(F(val));
    let (s, v) = mass.get_appropriate_units();
    assert_eq!(s, "kg");
    assert_almost_eq(F(val), v.0);
}

#[test]
fn appropriate_units_from_grams() {
    let val: f64 = 1e3;
    let mass = Mass::from_grams(F(val));
    let (s, v) = mass.get_appropriate_units();
    assert_eq!(s, "kg");
    assert_almost_eq(F(val), v.0 * 1e3);
}

#[test]
fn appropriate_units_to_grams() {
    let val: f64 = 1e-3;
    let mass = Mass::from_kilograms(F(val));
    let (s, v) = mass.get_appropriate_units();
    assert_eq!(s, "g");
    assert_almost_eq(F(val * 1e3), v.0);
}

#[test]
fn unit_selection_boundary() {
    let table = [("g", F(1e-3)), ("kg", F(1.0))];
    let pick = |kilograms: f64| {
        let (unit, value) = Mass::from_kilograms(F(kilograms)).pick_appropriate_units(&table);
        (unit, value.0)
    };
    assert_eq!(pick(1.0), ("kg", 1.0));
    assert_eq!(pick(0.999), ("g", 0.999 / 1e-3));
    assert_eq!(pick(1.001), ("kg", 1.001));
    assert_eq!(pick(-1.0), ("kg", -1.0));
    assert_eq!(pick(0.0005), ("g", 0.0005 / 1e-3));
    assert_eq!(pick(0.0), ("g", 0.0));
}

#[test]
fn display_is_number_space_unit() {
    assert_eq!(Temperature::from_kelvin(F(2.5)).to_string(), "2.5\u{a0}K");
    assert_eq!(Mass::from_kilograms(F(0.25)).to_string(), "250\u{a0}g");
    assert_eq!(Torque::from_newton_metres(F(3.0)).to_string(), "3\u{a0}Nm");
}

// Relations

#[test]
fn speed_times_duration_is_length() {
    let speed = Speed::from_meters_per_second(F(10.0));
    let length: Length<F> = speed.mul(Duration::new(5, 0));
    assert!(length.eq(&Length::from_meters(F(50.0))));
    let other: Length<F> = Duration::new(5, 0).mul(speed);
    assert!(other.eq(&length));
}

#[test]
fn force_times_length_is_torque_or_energy() {
    let force = Force::from_newtons(F(10.0));
    let length = Length::from_meters(F(2.0));
    let torque: Torque<F> = force.mul(length).into();
    let energy: Energy<F> = length.mul(force).into();
    assert!(torque.eq(&Torque::from_newton_metres(F(20.0))));
    assert!(energy.eq(&Energy::from_joules(F(20.0))));
}

#[test]
fn duration_in_seconds() {
    let seconds: F = Duration::new(2, 500_000_000).as_base_units();
    assert_eq!(seconds.0, 2.5);
    let back: Duration = Measurement::<F>::from_base_units(F(2.5));
    assert_eq!(back, Duration::new(2, 500_000_000));
    let none: Duration = Measurement::<F>::from_base_units(F(-3.0));
    assert_eq!(none, Duration::new(0, 0));
    let time: Duration = Length::from_meters(F(50.0)).div(Speed::from_meters_per_second(F(10.0)));
    assert_eq!(time, Duration::new(5, 0));
}

#[test]
fn almost_equal() {
    assert!(almost_eq(F(1.0), F(1.000001)));
    assert!(!almost_eq(F(1.0), F(1.0001)));
    assert!(almost_eq_delta(F(1.0), F(1.05), F(0.1)));
    assert!(!almost_eq_delta(F(1.0), F(1.2), F(0.1)));
    // The difference is taken as a fraction of the first value, sign and all.
    assert!(almost_eq(F(-1.0), F(5.0)));
    assert!(!almost_eq(F(0.0), F(0.0)));
}
