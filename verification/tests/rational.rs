use measurements::{Rational, Scalar};

fn q(num: i64, den: i64) -> Rational {
    Rational::new(num, den)
}

#[test]
fn rational_is_in_lowest_terms() {
    let half = q(2, 4);
    assert_eq!(half.numer(), 1);
    assert_eq!(half.denom(), 2);
    let minus = q(3, -6);
    assert_eq!(minus.numer(), -1);
    assert_eq!(minus.denom(), 2);
    assert_eq!(q(0, 5), q(0, 1));
    assert!(q(1, 0).is_nan());
}

#[test]
fn rational_arithmetic_is_exact() {
    assert_eq!(q(1, 10).plus(q(2, 10)), q(3, 10));
    assert_eq!(q(1, 3).minus(q(1, 2)), q(-1, 6));
    assert_eq!(q(2, 3).times(q(3, 4)), q(1, 2));
    assert_eq!(q(1, 2).over(q(-1, 4)), q(-2, 1));
    assert_eq!(q(7, 2).modulo(q(1, 1)), q(1, 2));
    assert_eq!(q(-7, 2).modulo(q(1, 1)), q(-1, 2));
    assert_eq!(q(7, 2).negate(), q(-7, 2));
    assert_eq!(q(7, 2).trunc(), 3);
    assert_eq!(q(-7, 2).trunc(), 0);
    assert_eq!(Rational::from_whole(12), q(12, 1));
}

#[test]
fn rational_overflow_is_not_a_number() {
    let big = q(i64::MAX, 1);
    assert!(big.plus(big).is_nan());
    assert!(big.times(q(2, 1)).is_nan());
    assert!(q(1, i64::MAX).times(q(1, 2)).is_nan());
    assert!(q(1, 1).over(q(0, 1)).is_nan());
    assert!(q(1, 1).modulo(q(0, 1)).is_nan());
    assert!(big.plus(big).minus(big).is_nan());
    assert!(q(i64::MIN, 1).is_nan());
}

#[test]
fn rational_comparison() {
    assert!(q(1, 3).below(&q(1, 2)));
    assert!(!q(1, 2).below(&q(1, 2)));
    assert!(q(-1, 2).below(&q(1, 3)));
    assert!(q(2, 4).equals(&q(1, 2)));
    let nan = q(1, 0);
    assert!(!nan.equals(&nan));
    assert!(!nan.below(&q(1, 1)));
    assert!(!q(1, 1).below(&nan));
}

#[test]
fn rational_parse() {
    assert_eq!(Rational::parse("100"), Some(q(100, 1)));
    assert_eq!(Rational::parse("100.5"), Some(q(201, 2)));
    assert_eq!(Rational::parse("-0.25"), Some(q(-1, 4)));
    assert_eq!(Rational::parse("+3."), Some(q(3, 1)));
    assert_eq!(Rational::parse(".5"), Some(q(1, 2)));
    assert_eq!(Rational::parse(""), None);
    assert_eq!(Rational::parse("."), None);
    assert_eq!(Rational::parse("-"), None);
    assert_eq!(Rational::parse("1.2.3"), None);
    assert_eq!(Rational::parse("abcd"), None);
    assert_eq!(Rational::parse("1e5"), None);
    assert_eq!(Rational::parse("123456789012345678"), Some(q(123456789012345678, 1)));
    assert_eq!(Rational::parse("1234567890123456789"), None);
}

#[test]
fn rational_text() {
    assert_eq!(q(999, 1).to_text(), "999");
    assert_eq!(q(-3, 2).to_text(), "-3/2");
    assert_eq!(q(0, 1).to_text(), "0");
    assert_eq!(q(1, 0).to_text(), "NaN");
    assert_eq!(q(i64::MAX, 1).to_text(), "9223372036854775807");
    assert_eq!(q(1200, 7).to_text(), "1200/7");
}
