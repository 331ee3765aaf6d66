//! The numeric representation that every quantity is generic over.
//!
//! A quantity stores one number, expressed in its base unit. The framework
//! never looks inside that number: it only adds, subtracts, multiplies,
//! divides and compares through the [`Scalar`] trait. Each operation has a
//! specification function of the same name with the suffix `_spec`, so that a
//! contract can say which number a quantity holds after an operation.
//!
//! [`Exact`] is the refinement for representations whose arithmetic is the
//! arithmetic of a field wherever the result can be represented. The
//! algebraic laws of the library are proved for every `Exact` scalar.
use vstd::prelude::*;

verus! {

/// Text in specifications: a sequence of characters.
pub type Text = Seq<char>;

/// A numeric representation: a set of values with arithmetic, a partial
/// order, literals given as ratios of integers, and a textual form.
///
/// Every operation is total. A representation that cannot hold a result
/// (overflow, division by zero) returns a value of its own choosing for
/// it, as IEEE floating point does with infinities and NaN, and says so in
/// its specification function.
///
/// The operations are deterministic: the same operands give the same
/// result. An implementation over hardware floating point has to return one
/// fixed NaN to meet this.
///
/// An implementation that is not verified gives the specification functions
/// any body: they say to the verifier what the operations return, and are
/// never run.
pub trait Scalar: Sized + Copy {
    /// The sum `self + rhs`.
    spec fn plus_spec(self, rhs: Self) -> Self;

    /// The difference `self - rhs`.
    spec fn minus_spec(self, rhs: Self) -> Self;

    /// The product `self * rhs`.
    spec fn times_spec(self, rhs: Self) -> Self;

    /// The quotient `self / rhs`.
    spec fn over_spec(self, rhs: Self) -> Self;

    /// The remainder of `self / rhs`, with the sign of `self`.
    spec fn modulo_spec(self, rhs: Self) -> Self;

    /// The negation `-self`.
    spec fn negate_spec(self) -> Self;

    /// Whether `self` and `rhs` compare equal. This need not be reflexive:
    /// a value that stands for "not a number" equals nothing.
    spec fn equals_spec(self, rhs: Self) -> bool;

    /// Whether `self` is strictly below `rhs`.
    spec fn below_spec(self, rhs: Self) -> bool;

    /// The value of the literal `num / den`.
    spec fn ratio_spec(num: i64, den: i64) -> Self;

    /// The value of the whole number `n`.
    spec fn whole_spec(n: u64) -> Self;

    /// `self` rounded toward zero and clamped to `0 ..= u64::MAX`.
    spec fn trunc_spec(self) -> u64;

    /// The number that `text` denotes, if it denotes one.
    spec fn parse_spec(text: Text) -> Option<Self>;

    /// The text that `self` is displayed as.
    spec fn text_spec(self) -> Text;

    fn plus(self, rhs: Self) -> (r: Self)
        ensures
            r == self.plus_spec(rhs),
    ;

    fn minus(self, rhs: Self) -> (r: Self)
        ensures
            r == self.minus_spec(rhs),
    ;

    fn times(self, rhs: Self) -> (r: Self)
        ensures
            r == self.times_spec(rhs),
    ;

    fn over(self, rhs: Self) -> (r: Self)
        ensures
            r == self.over_spec(rhs),
    ;

    fn modulo(self, rhs: Self) -> (r: Self)
        ensures
            r == self.modulo_spec(rhs),
    ;

    fn negate(self) -> (r: Self)
        ensures
            r == self.negate_spec(),
    ;

    fn equals(&self, rhs: &Self) -> (r: bool)
        ensures
            r == self.equals_spec(*rhs),
    ;

    fn below(&self, rhs: &Self) -> (r: bool)
        ensures
            r == self.below_spec(*rhs),
    ;

    /// The literal `num / den`, for the constants of unit conversions.
    fn from_ratio(num: i64, den: i64) -> (r: Self)
        ensures
            r == Self::ratio_spec(num, den),
    ;

    /// The whole number `n`.
    fn from_whole(n: u64) -> (r: Self)
        ensures
            r == Self::whole_spec(n),
    ;

    /// Rounds toward zero and clamps to the range of `u64`.
    fn trunc(self) -> (r: u64)
        ensures
            r == self.trunc_spec(),
    ;

    /// Reads a number from its textual form.
    fn parse(text: &str) -> (r: Option<Self>)
        ensures
            r == Self::parse_spec(text@),
    ;

    /// Writes the number in its textual form.
    fn to_text(&self) -> (r: String)
        ensures
            r@ == self.text_spec(),
    ;
}

/// `a <= b`: below or equal.
pub open spec fn le_spec<T: Scalar>(a: T, b: T) -> bool {
    a.below_spec(b) || a.equals_spec(b)
}

/// `a <= b`, from the two comparisons a scalar offers.
pub fn le<T: Scalar>(a: &T, b: &T) -> (r: bool)
    ensures
        r == le_spec(*a, *b),
{
    a.below(b) || a.equals(b)
}

/// `a >= b`: above or equal.
pub open spec fn ge_spec<T: Scalar>(a: T, b: T) -> bool {
    b.below_spec(a) || a.equals_spec(b)
}

/// `a >= b`, from the two comparisons a scalar offers.
pub fn ge<T: Scalar>(a: &T, b: &T) -> (r: bool)
    ensures
        r == ge_spec(*a, *b),
{
    b.below(a) || a.equals(b)
}

/// The number one.
pub open spec fn one_spec<T: Scalar>() -> T {
    T::ratio_spec(1, 1)
}

/// The number zero.
pub open spec fn zero_spec<T: Scalar>() -> T {
    T::ratio_spec(0, 1)
}

/// A scalar whose arithmetic is exact wherever its results are defined.
///
/// `defined` separates the numbers from the values that stand for a failed
/// operation. On numbers, equality is identity, the order is total, addition
/// and multiplication commute, and subtraction and division undo addition
/// and multiplication.
/// The laws ask only that the intermediate result be defined: a
/// representation of bounded size may fail to hold a sum or a product.
pub trait Exact: Scalar {
    /// Whether `self` is a number, as opposed to the outcome of an operation
    /// that had no representable result.
    spec fn defined(self) -> bool;

    /// Zero and one are numbers, and different ones.
    proof fn lemma_literals_defined()
        ensures
            zero_spec::<Self>().defined(),
            one_spec::<Self>().defined(),
            zero_spec::<Self>() != one_spec::<Self>(),
    ;

    /// Two values compare equal exactly when they are one number.
    proof fn lemma_equals_is_identity(a: Self, b: Self)
        ensures
            a.equals_spec(b) <==> a.defined() && b.defined() && a == b,
    ;

    /// Only numbers are below one another, and of two numbers either one is
    /// below the other or they are the same.
    proof fn lemma_order(a: Self, b: Self)
        ensures
            a.below_spec(b) ==> a.defined() && b.defined(),
            !(a.below_spec(b) && b.below_spec(a)),
            !(a.below_spec(b) && a == b),
            a.defined() && b.defined() ==> a.below_spec(b) || a == b || b.below_spec(a),
    ;

    /// What is below a number is below every number above that one.
    proof fn lemma_below_transitive(a: Self, b: Self, c: Self)
        requires
            a.below_spec(b),
            b.below_spec(c),
        ensures
            a.below_spec(c),
    ;

    /// `a + b == b + a`
    proof fn lemma_plus_commutes(a: Self, b: Self)
        ensures
            a.plus_spec(b) == b.plus_spec(a),
    ;

    /// `a * b == b * a`
    proof fn lemma_times_commutes(a: Self, b: Self)
        ensures
            a.times_spec(b) == b.times_spec(a),
    ;

    /// An operation has a number for its result only on numbers, and a
    /// division only by a number other than zero.
    proof fn lemma_operands_defined(a: Self, b: Self)
        ensures
            a.plus_spec(b).defined() ==> a.defined() && b.defined(),
            a.minus_spec(b).defined() ==> a.defined() && b.defined(),
            a.times_spec(b).defined() ==> a.defined() && b.defined(),
            a.over_spec(b).defined() ==> a.defined() && b.defined() && b != zero_spec::<Self>(),
    ;

    /// `(a + b) - b == a`
    proof fn lemma_plus_then_minus(a: Self, b: Self)
        requires
            a.plus_spec(b).defined(),
        ensures
            a.plus_spec(b).minus_spec(b) == a,
    ;

    /// `(a - b) + b == a`
    proof fn lemma_minus_then_plus(a: Self, b: Self)
        requires
            a.minus_spec(b).defined(),
        ensures
            a.minus_spec(b).plus_spec(b) == a,
    ;

    /// `(a * b) / b == a`
    proof fn lemma_times_then_over(a: Self, b: Self)
        requires
            a.times_spec(b).defined(),
            b != zero_spec::<Self>(),
        ensures
            a.times_spec(b).over_spec(b) == a,
    ;

    /// `(a / b) * b == a`
    proof fn lemma_over_then_times(a: Self, b: Self)
        requires
            a.over_spec(b).defined(),
        ensures
            a.over_spec(b).times_spec(b) == a,
    ;

    /// `a / a == 1`
    proof fn lemma_over_self(a: Self)
        requires
            a.defined(),
            a != zero_spec::<Self>(),
        ensures
            a.over_spec(a) == one_spec::<Self>(),
    ;
}

/// A scalar with the elementary functions: logarithm, exponential, and the
/// trigonometric functions of an angle in radians.
pub trait Transcendental: Scalar {
    /// The natural logarithm.
    spec fn ln_spec(self) -> Self;

    /// The exponential function, `e` to the power `self`.
    spec fn exp_spec(self) -> Self;

    /// The sine of `self` radians.
    spec fn sin_spec(self) -> Self;

    /// The cosine of `self` radians.
    spec fn cos_spec(self) -> Self;

    /// The tangent of `self` radians.
    spec fn tan_spec(self) -> Self;

    /// The arcsine in radians.
    spec fn asin_spec(self) -> Self;

    /// The arccosine in radians.
    spec fn acos_spec(self) -> Self;

    /// The arctangent in radians.
    spec fn atan_spec(self) -> Self;

    fn ln(self) -> (r: Self)
        ensures
            r == self.ln_spec(),
    ;

    fn exp(self) -> (r: Self)
        ensures
            r == self.exp_spec(),
    ;

    fn sin(self) -> (r: Self)
        ensures
            r == self.sin_spec(),
    ;

    fn cos(self) -> (r: Self)
        ensures
            r == self.cos_spec(),
    ;

    fn tan(self) -> (r: Self)
        ensures
            r == self.tan_spec(),
    ;

    fn asin(self) -> (r: Self)
        ensures
            r == self.asin_spec(),
    ;

    fn acos(self) -> (r: Self)
        ensures
            r == self.acos_spec(),
    ;

    fn atan(self) -> (r: Self)
        ensures
            r == self.atan_spec(),
    ;
}

} // verus!
