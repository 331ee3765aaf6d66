//! Utility code for writing tests.
use crate::scalar::{zero_spec, Scalar};
use vstd::prelude::*;

verus! {

/// The fraction of a value that two values may be apart and still count as
/// approximately equal: one in a hundred thousand.
pub open spec fn default_delta_spec<T: Scalar>() -> T {
    T::ratio_spec(1, 100000)
}

/// The magnitude of `x`: `x` if it is above zero, and `-x` if it is not.
pub open spec fn abs_spec<T: Scalar>(x: T) -> T {
    if zero_spec::<T>().below_spec(x) {
        x
    } else {
        x.negate_spec()
    }
}

/// Whether `a` and `b` are less than the fraction `d` of `a` apart:
/// `|a - b| / a < d`.
pub open spec fn almost_eq_delta_spec<T: Scalar>(a: T, b: T, d: T) -> bool {
    abs_spec(a.minus_spec(b)).over_spec(a).below_spec(d)
}

/// Check two values are approximately equal
pub fn almost_eq<T: Scalar>(a: T, b: T) -> (r: bool)
    ensures
        r == almost_eq_delta_spec(a, b, default_delta_spec::<T>()),
{
    almost_eq_delta(a, b, T::from_ratio(1, 100000))
}

/// Check two values are approximately equal using some given delta (a
/// fraction of the inputs)
pub fn almost_eq_delta<T: Scalar>(a: T, b: T, d: T) -> (r: bool)
    ensures
        r == almost_eq_delta_spec(a, b, d),
{
    abs(a.minus(b)).over(a).below(&d)
}

/// The magnitude of a number.
fn abs<T: Scalar>(x: T) -> (r: T)
    ensures
        r == abs_spec(x),
{
    if T::from_ratio(0, 1).below(&x) {
        x
    } else {
        x.negate()
    }
}

} // verus!
