//! Exact rational numbers of bounded size: the scalar whose arithmetic has no
//! rounding.
//!
//! A [`Rational`] is a fraction of two 64-bit integers in lowest terms, or
//! "not a number". The sum, difference, product and quotient of two
//! rationals are exact whenever the result in lowest terms fits; when it does
//! not, and on division by zero, the result is "not a number", which every
//! later operation passes on.
use crate::decimal::{decimal_spec, parse_decimal, push_whole, whole_text};
use crate::number_theory::{
    abs, gcd, greatest_common_divisor, lemma_gcd_positive, lemma_gcd_zero,
    lemma_lowest_terms_unique, lemma_reduced, lemma_reduced_is, lowest_terms, reduced,
};
use crate::scalar::{one_spec, zero_spec, Exact, Scalar, Text, Transcendental};
use vstd::prelude::*;
use vstd::string::StringExecFns;

verus! {

/// The largest numerator and denominator: `2^63 - 1`.
pub const LIMIT: i64 = 0x7fff_ffff_ffff_ffff;

/// A fraction in lowest terms with a positive denominator, both parts at most
/// [`LIMIT`] in magnitude; or "not a number", whose denominator is zero.
#[derive(Copy, Clone, Debug, PartialEq, Eq, Structural)]
pub struct Rational {
    num: i64,
    den: i64,
}

/// Whether `n / d` is a fraction in lowest terms that a [`Rational`] holds.
pub open spec fn representable(n: int, d: int) -> bool {
    lowest_terms(n, d) && -LIMIT <= n <= LIMIT && d <= LIMIT
}

/// The truncated remainder of `x` by `y`: what is left of `x` after taking
/// away as many whole `y` as fit, with the sign of `x`.
pub open spec fn remainder(x: int, y: int) -> int {
    if x < 0 {
        -((abs(x) % abs(y)) as int)
    } else {
        (abs(x) % abs(y)) as int
    }
}

impl Rational {
    #[verifier::type_invariant]
    spec fn well_formed(self) -> bool {
        self.is_number() || self == Self::nan()
    }

    /// The numerator.
    pub closed spec fn num_spec(self) -> int {
        self.num as int
    }

    /// The denominator: positive for a number, zero for "not a number".
    pub closed spec fn den_spec(self) -> int {
        self.den as int
    }

    /// The value with the given numerator and denominator.
    pub closed spec fn from_parts(n: int, d: int) -> Rational {
        Rational { num: n as i64, den: d as i64 }
    }

    /// Not a number: the result of a division by zero and of every operation
    /// whose exact result does not fit.
    pub open spec fn nan() -> Rational {
        Self::from_parts(0, 0)
    }

    /// Whether this is a number: a fraction in lowest terms.
    pub open spec fn is_number(self) -> bool {
        representable(self.num_spec(), self.den_spec())
    }

    /// The number `n / d` for a positive `d`, and "not a number" if its
    /// lowest terms do not fit.
    pub open spec fn fraction(n: int, d: int) -> Rational {
        let (p, q) = reduced(n, d);
        if -LIMIT <= p <= LIMIT && q <= LIMIT {
            Self::from_parts(p, q)
        } else {
            Self::nan()
        }
    }

    /// The number `n / d`, and "not a number" for `d == 0`.
    pub open spec fn signed_fraction(n: int, d: int) -> Rational {
        if d == 0 {
            Self::nan()
        } else if d < 0 {
            Self::fraction(-n, -d)
        } else {
            Self::fraction(n, d)
        }
    }

    /// The sum, over the product of the denominators.
    pub open spec fn sum(self, rhs: Rational) -> Rational {
        if self.is_number() && rhs.is_number() {
            Self::fraction(
                self.num_spec() * rhs.den_spec() + rhs.num_spec() * self.den_spec(),
                self.den_spec() * rhs.den_spec(),
            )
        } else {
            Self::nan()
        }
    }

    /// The difference, over the product of the denominators.
    pub open spec fn difference(self, rhs: Rational) -> Rational {
        if self.is_number() && rhs.is_number() {
            Self::fraction(
                self.num_spec() * rhs.den_spec() - rhs.num_spec() * self.den_spec(),
                self.den_spec() * rhs.den_spec(),
            )
        } else {
            Self::nan()
        }
    }

    /// The product: numerator times numerator over denominator times
    /// denominator.
    pub open spec fn product(self, rhs: Rational) -> Rational {
        if self.is_number() && rhs.is_number() {
            Self::fraction(self.num_spec() * rhs.num_spec(), self.den_spec() * rhs.den_spec())
        } else {
            Self::nan()
        }
    }

    /// The quotient: the product with the divisor turned upside down. The
    /// quotient by zero is "not a number".
    pub open spec fn quotient(self, rhs: Rational) -> Rational {
        if self.is_number() && rhs.is_number() {
            Self::signed_fraction(
                self.num_spec() * rhs.den_spec(),
                self.den_spec() * rhs.num_spec(),
            )
        } else {
            Self::nan()
        }
    }

    /// The remainder of the division that rounds toward zero. Both operands
    /// are brought to the denominator `self.den * rhs.den`, where the
    /// remainder is that of the numerators.
    pub open spec fn rest(self, rhs: Rational) -> Rational {
        if self.is_number() && rhs.is_number() && rhs.num_spec() != 0 {
            Self::fraction(
                remainder(self.num_spec() * rhs.den_spec(), rhs.num_spec() * self.den_spec()),
                self.den_spec() * rhs.den_spec(),
            )
        } else {
            Self::nan()
        }
    }

    /// The number of the opposite sign.
    pub open spec fn negation(self) -> Rational {
        if self.is_number() {
            Self::from_parts(-self.num_spec(), self.den_spec())
        } else {
            Self::nan()
        }
    }

    /// Two numbers are equal when they are the same fraction. "Not a number"
    /// equals nothing.
    pub open spec fn same(self, rhs: Rational) -> bool {
        self.is_number() && rhs.is_number() && self == rhs
    }

    /// The order of two numbers, by cross-multiplication. "Not a number" is
    /// below nothing and nothing is below it.
    pub open spec fn less(self, rhs: Rational) -> bool {
        self.is_number() && rhs.is_number() && self.num_spec() * rhs.den_spec() < rhs.num_spec()
            * self.den_spec()
    }

    /// The whole part of a positive number; zero for any other value.
    pub open spec fn whole_part(self) -> int {
        if self.is_number() && self.num_spec() > 0 {
            self.num_spec() / self.den_spec()
        } else {
            0
        }
    }

    /// A value is its two parts.
    pub proof fn lemma_parts(self, n: int, d: int)
        ensures
            Self::from_parts(self.num_spec(), self.den_spec()) == self,
            -LIMIT <= n <= LIMIT && 0 <= d <= LIMIT ==> Self::from_parts(n, d).num_spec() == n
                && Self::from_parts(n, d).den_spec() == d,
            !Self::nan().is_number(),
    {
    }

    /// A fraction is a number or "not a number".
    pub proof fn lemma_fraction(n: int, d: int)
        requires
            d > 0,
        ensures
            Self::fraction(n, d).is_number() || Self::fraction(n, d) == Self::nan(),
            Self::fraction(n, d).is_number() ==> Self::fraction(n, d).num_spec() * d == n
                * Self::fraction(n, d).den_spec(),
    {
        lemma_reduced(n, d);
    }

    /// A fraction whose value is that of a number is that number.
    pub proof fn lemma_fraction_is(n: int, d: int, r: Rational)
        requires
            d > 0,
            r.is_number(),
            n * r.den_spec() == r.num_spec() * d,
        ensures
            Self::fraction(n, d) == r,
    {
        lemma_reduced_is(n, d, r.num_spec(), r.den_spec());
    }

    /// A whole number within the limit is the fraction of itself over one.
    pub proof fn lemma_whole_number(n: int)
        requires
            -LIMIT <= n <= LIMIT,
        ensures
            Self::fraction(n, 1) == Self::from_parts(n, 1),
            Self::from_parts(n, 1).is_number(),
    {
        assert(abs(n) % 1 == 0);
        assert(gcd(abs(n), 1) == gcd(1, abs(n) % 1));
        lemma_gcd_zero(1);
        Self::lemma_fraction_is(n, 1, Self::from_parts(n, 1));
    }

    /// One over a positive whole number within the limit is in lowest terms.
    pub proof fn lemma_unit_fraction(d: int)
        requires
            0 < d <= LIMIT,
        ensures
            Self::fraction(1, d) == Self::from_parts(1, d),
            Self::from_parts(1, d).is_number(),
    {
        lemma_gcd_zero(1);
        assert(gcd(1, d as nat) == gcd(d as nat, 1nat % (d as nat)));
        if d > 1 {
            vstd::arithmetic::div_mod::lemma_small_mod(1, d as nat);
            assert((d as nat) % 1 == 0);
            assert(gcd(d as nat, 1) == gcd(1, (d as nat) % 1));
        }
        Self::lemma_fraction_is(1, d, Self::from_parts(1, d));
    }

    /// The numerator.
    pub fn numer(&self) -> (r: i64)
        ensures
            r as int == self.num_spec(),
    {
        self.num
    }

    /// The denominator: positive for a number, zero for "not a number".
    pub fn denom(&self) -> (r: i64)
        ensures
            r as int == self.den_spec(),
    {
        self.den
    }

    /// Whether this is "not a number".
    pub fn is_nan(&self) -> (r: bool)
        ensures
            r == !self.is_number(),
            r == (*self == Self::nan()),
    {
        proof {
            use_type_invariant(self);
        }
        self.den == 0
    }

    /// Not a number.
    pub fn not_a_number() -> (r: Rational)
        ensures
            r == Self::nan(),
    {
        Rational { num: 0, den: 0 }
    }

    /// The number `n / d` in lowest terms.
    fn make(n: i128, d: i128) -> (r: Rational)
        requires
            d > 0,
            n > i128::MIN,
        ensures
            r == Self::fraction(n as int, d as int),
    {
        let magnitude: u128 = if n < 0 {
            (-n) as u128
        } else {
            n as u128
        };
        let g: u128 = greatest_common_divisor(magnitude, d as u128);
        proof {
            lemma_gcd_positive(abs(n as int), d as nat);
            lemma_reduced(n as int, d as int);
        }
        let p: u128 = magnitude / g;
        let q: u128 = (d as u128) / g;
        if p > LIMIT as u128 || q > LIMIT as u128 {
            Rational { num: 0, den: 0 }
        } else if n < 0 {
            Rational { num: -(p as i64), den: q as i64 }
        } else {
            Rational { num: p as i64, den: q as i64 }
        }
    }

    /// The number `num / den`, and "not a number" for a zero denominator.
    pub fn new(num: i64, den: i64) -> (r: Rational)
        ensures
            r == Self::signed_fraction(num as int, den as int),
    {
        if den == 0 {
            Rational { num: 0, den: 0 }
        } else if den < 0 {
            Self::make(-(num as i128), -(den as i128))
        } else {
            Self::make(num as i128, den as i128)
        }
    }
}

/// The product of two numbers within [`LIMIT`] fits 128 bits with room to
/// add another such product.
proof fn lemma_product_fits(x: int, y: int)
    by (nonlinear_arith)
    requires
        -LIMIT <= x <= LIMIT,
        -LIMIT <= y <= LIMIT,
    ensures
        -0x3fff_ffff_ffff_ffff_0000_0000_0000_0001 <= x * y
            <= 0x3fff_ffff_ffff_ffff_0000_0000_0000_0001,
        x > 0 && y > 0 ==> x * y > 0,
        x != 0 && y != 0 ==> x * y != 0,
{
}

/// Zero is `0 / 1` and one is `1 / 1`.
proof fn lemma_literals()
    ensures
        zero_spec::<Rational>() == Rational::from_parts(0, 1),
        one_spec::<Rational>() == Rational::from_parts(1, 1),
        Rational::from_parts(0, 1).is_number(),
        Rational::from_parts(1, 1).is_number(),
{
    lemma_gcd_zero(1);
    assert(gcd(1, 1) == gcd(1, 1nat % 1));
    let zero = Rational::from_parts(0, 1);
    let one = Rational::from_parts(1, 1);
    assert(zero.is_number());
    assert(one.is_number());
    Rational::lemma_fraction_is(0, 1, zero);
    Rational::lemma_fraction_is(1, 1, one);
}

/// The only number with the numerator zero is zero.
proof fn lemma_zero(r: Rational)
    requires
        r.is_number(),
    ensures
        r.num_spec() == 0 <==> r == zero_spec::<Rational>(),
{
    lemma_literals();
    if r.num_spec() == 0 {
        lemma_gcd_zero(r.den_spec() as nat);
    }
}

/// If `s` is the sum of `a` and `b` as fractions, then `s - b` has the value
/// of `a`; likewise for the difference and `s + b`.
proof fn lemma_undo(sn: int, sd: int, an: int, ad: int, bn: int, bd: int)
    ensures
        sn * (ad * bd) == (an * bd + bn * ad) * sd ==> (sn * bd - bn * sd) * ad == an * (sd * bd),
        sn * (ad * bd) == (an * bd - bn * ad) * sd ==> (sn * bd + bn * sd) * ad == an * (sd * bd),
{
    assert(sn * (ad * bd) == sn * bd * ad) by (nonlinear_arith);
    assert(an * (sd * bd) == an * bd * sd) by (nonlinear_arith);
    assert(bn * sd * ad == bn * ad * sd) by (nonlinear_arith);
    assert((an * bd + bn * ad) * sd == an * bd * sd + bn * ad * sd) by (nonlinear_arith);
    assert((an * bd - bn * ad) * sd == an * bd * sd - bn * ad * sd) by (nonlinear_arith);
    assert((sn * bd - bn * sd) * ad == sn * bd * ad - bn * sd * ad) by (nonlinear_arith);
    assert((sn * bd + bn * sd) * ad == sn * bd * ad + bn * sd * ad) by (nonlinear_arith);
}

impl Scalar for Rational {
    open spec fn plus_spec(self, rhs: Self) -> Self {
        self.sum(rhs)
    }

    open spec fn minus_spec(self, rhs: Self) -> Self {
        self.difference(rhs)
    }

    open spec fn times_spec(self, rhs: Self) -> Self {
        self.product(rhs)
    }

    open spec fn over_spec(self, rhs: Self) -> Self {
        self.quotient(rhs)
    }

    open spec fn modulo_spec(self, rhs: Self) -> Self {
        self.rest(rhs)
    }

    open spec fn negate_spec(self) -> Self {
        self.negation()
    }

    open spec fn equals_spec(self, rhs: Self) -> bool {
        self.same(rhs)
    }

    open spec fn below_spec(self, rhs: Self) -> bool {
        self.less(rhs)
    }

    open spec fn ratio_spec(num: i64, den: i64) -> Self {
        Self::signed_fraction(num as int, den as int)
    }

    open spec fn whole_spec(n: u64) -> Self {
        Self::fraction(n as int, 1)
    }

    open spec fn trunc_spec(self) -> u64 {
        self.whole_part() as u64
    }

    /// A decimal fraction of at most eighteen digits, read exactly.
    open spec fn parse_spec(text: Text) -> Option<Self> {
        match decimal_spec(text) {
            Some((n, d)) => Some(Self::fraction(n, d)),
            None => None,
        }
    }

    /// `NaN`, a whole number, or numerator and denominator around a stroke.
    open spec fn text_spec(self) -> Text {
        if !self.is_number() {
            seq!['N', 'a', 'N']
        } else if self.den_spec() == 1 {
            whole_text(self.num_spec())
        } else {
            whole_text(self.num_spec()) + seq!['/'] + whole_text(self.den_spec())
        }
    }

    fn plus(self, rhs: Self) -> (r: Self) {
        if self.is_nan() || rhs.is_nan() {
            return Rational::not_a_number();
        }
        let an = self.num as i128;
        let ad = self.den as i128;
        let bn = rhs.num as i128;
        let bd = rhs.den as i128;
        proof {
            lemma_product_fits(an as int, bd as int);
            lemma_product_fits(bn as int, ad as int);
            lemma_product_fits(ad as int, bd as int);
        }
        Rational::make(an * bd + bn * ad, ad * bd)
    }

    fn minus(self, rhs: Self) -> (r: Self) {
        if self.is_nan() || rhs.is_nan() {
            return Rational::not_a_number();
        }
        let an = self.num as i128;
        let ad = self.den as i128;
        let bn = rhs.num as i128;
        let bd = rhs.den as i128;
        proof {
            lemma_product_fits(an as int, bd as int);
            lemma_product_fits(bn as int, ad as int);
            lemma_product_fits(ad as int, bd as int);
        }
        Rational::make(an * bd - bn * ad, ad * bd)
    }

    fn times(self, rhs: Self) -> (r: Self) {
        if self.is_nan() || rhs.is_nan() {
            return Rational::not_a_number();
        }
        let an = self.num as i128;
        let ad = self.den as i128;
        let bn = rhs.num as i128;
        let bd = rhs.den as i128;
        proof {
            lemma_product_fits(an as int, bn as int);
            lemma_product_fits(ad as int, bd as int);
        }
        Rational::make(an * bn, ad * bd)
    }

    fn over(self, rhs: Self) -> (r: Self) {
        if self.is_nan() || rhs.is_nan() || rhs.num == 0 {
            proof {
                if self.is_number() && rhs.is_number() {
                    assert(self.den_spec() * rhs.num_spec() == 0) by (nonlinear_arith)
                        requires
                            rhs.num_spec() == 0,
                    ;
                }
            }
            return Rational::not_a_number();
        }
        let an = self.num as i128;
        let ad = self.den as i128;
        let bn = rhs.num as i128;
        let bd = rhs.den as i128;
        proof {
            lemma_product_fits(an as int, bd as int);
            lemma_product_fits(ad as int, bn as int);
        }
        let n = an * bd;
        let d = ad * bn;
        if d < 0 {
            Rational::make(-n, -d)
        } else {
            Rational::make(n, d)
        }
    }

    fn modulo(self, rhs: Self) -> (r: Self) {
        if self.is_nan() || rhs.is_nan() || rhs.num == 0 {
            return Rational::not_a_number();
        }
        let an = self.num as i128;
        let ad = self.den as i128;
        let bn = rhs.num as i128;
        let bd = rhs.den as i128;
        proof {
            lemma_product_fits(an as int, bd as int);
            lemma_product_fits(bn as int, ad as int);
            lemma_product_fits(ad as int, bd as int);
        }
        let x = an * bd;
        let y = bn * ad;
        let x_magnitude: u128 = if x < 0 {
            (-x) as u128
        } else {
            x as u128
        };
        let y_magnitude: u128 = if y < 0 {
            (-y) as u128
        } else {
            y as u128
        };
        let rest: u128 = x_magnitude % y_magnitude;
        let signed_rest: i128 = if x < 0 {
            -(rest as i128)
        } else {
            rest as i128
        };
        Rational::make(signed_rest, ad * bd)
    }

    fn negate(self) -> (r: Self) {
        if self.is_nan() {
            return Rational::not_a_number();
        }
        proof {
            use_type_invariant(&self);
            assert(abs(-self.num_spec()) == abs(self.num_spec()));
        }
        Rational { num: -self.num, den: self.den }
    }

    fn equals(&self, rhs: &Self) -> (r: bool) {
        !self.is_nan() && !rhs.is_nan() && self.num == rhs.num && self.den == rhs.den
    }

    fn below(&self, rhs: &Self) -> (r: bool) {
        if self.is_nan() || rhs.is_nan() {
            return false;
        }
        let an = self.num as i128;
        let ad = self.den as i128;
        let bn = rhs.num as i128;
        let bd = rhs.den as i128;
        proof {
            lemma_product_fits(an as int, bd as int);
            lemma_product_fits(bn as int, ad as int);
        }
        an * bd < bn * ad
    }

    fn from_ratio(num: i64, den: i64) -> (r: Self) {
        Rational::new(num, den)
    }

    fn from_whole(n: u64) -> (r: Self) {
        Rational::make(n as i128, 1)
    }

    fn trunc(self) -> (r: u64) {
        if self.is_nan() || self.num <= 0 {
            0
        } else {
            (self.num / self.den) as u64
        }
    }

    fn parse(text: &str) -> (r: Option<Self>) {
        match parse_decimal(text) {
            Some((n, d)) => Some(Rational::make(n as i128, d as i128)),
            None => None,
        }
    }

    fn to_text(&self) -> (r: String) {
        let mut out = String::new();
        if self.is_nan() {
            proof {
                reveal_strlit("NaN");
            }
            out.append("NaN");
            assert(out@ =~= seq!['N', 'a', 'N']);
        } else {
            push_whole(&mut out, self.num);
            if self.den != 1 {
                proof {
                    reveal_strlit("/");
                }
                out.append("/");
                push_whole(&mut out, self.den);
            }
            assert(out@ =~= self.text_spec());
        }
        out
    }
}

impl Exact for Rational {
    open spec fn defined(self) -> bool {
        self.is_number()
    }

    proof fn lemma_literals_defined() {
        lemma_literals();
        Rational::from_parts(0, 1).lemma_parts(0, 1);
        Rational::from_parts(0, 1).lemma_parts(1, 1);
    }

    proof fn lemma_equals_is_identity(a: Self, b: Self) {
    }

    proof fn lemma_order(a: Self, b: Self) {
        if a.is_number() && b.is_number() {
            let (an, ad, bn, bd) = (a.num_spec(), a.den_spec(), b.num_spec(), b.den_spec());
            if an * bd == bn * ad {
                lemma_lowest_terms_unique(an, ad, bn, bd);
                a.lemma_parts(0, 0);
                b.lemma_parts(0, 0);
            }
        }
    }

    proof fn lemma_below_transitive(a: Self, b: Self, c: Self) {
        let (an, ad, bn, bd) = (a.num_spec(), a.den_spec(), b.num_spec(), b.den_spec());
        let (cn, cd) = (c.num_spec(), c.den_spec());
        assert(an * bd * cd < bn * ad * cd) by (nonlinear_arith)
            requires
                an * bd < bn * ad,
                cd > 0,
        ;
        assert(bn * cd * ad < cn * bd * ad) by (nonlinear_arith)
            requires
                bn * cd < cn * bd,
                ad > 0,
        ;
        assert(bn * ad * cd == bn * cd * ad) by (nonlinear_arith);
        assert(an * bd * cd == (an * cd) * bd) by (nonlinear_arith);
        assert(cn * bd * ad == (cn * ad) * bd) by (nonlinear_arith);
        assert(an * cd < cn * ad) by (nonlinear_arith)
            requires
                (an * cd) * bd < (cn * ad) * bd,
                bd > 0,
        ;
    }

    proof fn lemma_plus_commutes(a: Self, b: Self) {
        assert(a.den_spec() * b.den_spec() == b.den_spec() * a.den_spec()) by (nonlinear_arith);
    }

    proof fn lemma_times_commutes(a: Self, b: Self) {
        assert(a.den_spec() * b.den_spec() == b.den_spec() * a.den_spec()) by (nonlinear_arith);
        assert(a.num_spec() * b.num_spec() == b.num_spec() * a.num_spec()) by (nonlinear_arith);
    }

    proof fn lemma_operands_defined(a: Self, b: Self) {
        if a.is_number() && b.is_number() {
            lemma_zero(b);
            if b.num_spec() == 0 {
                assert(a.den_spec() * b.num_spec() == 0) by (nonlinear_arith)
                    requires
                        b.num_spec() == 0,
                ;
            }
        }
    }

    proof fn lemma_plus_then_minus(a: Self, b: Self) {
        let s = a.sum(b);
        let (an, ad, bn, bd) = (a.num_spec(), a.den_spec(), b.num_spec(), b.den_spec());
        let (sn, sd) = (s.num_spec(), s.den_spec());
        lemma_product_fits(ad, bd);
        lemma_product_fits(sd, bd);
        Rational::lemma_fraction(an * bd + bn * ad, ad * bd);
        lemma_undo(sn, sd, an, ad, bn, bd);
        Rational::lemma_fraction_is(sn * bd - bn * sd, sd * bd, a);
    }

    proof fn lemma_minus_then_plus(a: Self, b: Self) {
        let s = a.difference(b);
        let (an, ad, bn, bd) = (a.num_spec(), a.den_spec(), b.num_spec(), b.den_spec());
        let (sn, sd) = (s.num_spec(), s.den_spec());
        lemma_product_fits(ad, bd);
        lemma_product_fits(sd, bd);
        Rational::lemma_fraction(an * bd - bn * ad, ad * bd);
        lemma_undo(sn, sd, an, ad, bn, bd);
        Rational::lemma_fraction_is(sn * bd + bn * sd, sd * bd, a);
    }

    proof fn lemma_times_then_over(a: Self, b: Self) {
        let p = a.product(b);
        let (an, ad, bn, bd) = (a.num_spec(), a.den_spec(), b.num_spec(), b.den_spec());
        let (pn, pd) = (p.num_spec(), p.den_spec());
        lemma_zero(b);
        lemma_product_fits(ad, bd);
        lemma_product_fits(pd, bn);
        Rational::lemma_fraction(an * bn, ad * bd);
        assert((pn * bd) * ad == an * (pd * bn)) by (nonlinear_arith)
            requires
                pn * (ad * bd) == (an * bn) * pd,
        ;
        if bn > 0 {
            Rational::lemma_fraction_is(pn * bd, pd * bn, a);
        } else {
            assert((-(pn * bd)) * ad == an * (-(pd * bn))) by (nonlinear_arith)
                requires
                    (pn * bd) * ad == an * (pd * bn),
            ;
            lemma_product_fits(pd, -bn);
            assert(-(pd * bn) == pd * (-bn)) by (nonlinear_arith);
            Rational::lemma_fraction_is(-(pn * bd), -(pd * bn), a);
        }
    }

    proof fn lemma_over_then_times(a: Self, b: Self) {
        let q = a.quotient(b);
        let (an, ad, bn, bd) = (a.num_spec(), a.den_spec(), b.num_spec(), b.den_spec());
        let (qn, qd) = (q.num_spec(), q.den_spec());
        Self::lemma_operands_defined(a, b);
        lemma_zero(b);
        lemma_product_fits(ad, bn);
        lemma_product_fits(ad, -bn);
        lemma_product_fits(qd, bd);
        assert(-(ad * bn) == ad * (-bn)) by (nonlinear_arith);
        if bn > 0 {
            Rational::lemma_fraction(an * bd, ad * bn);
            assert((qn * bn) * ad == an * (qd * bd)) by (nonlinear_arith)
                requires
                    qn * (ad * bn) == (an * bd) * qd,
            ;
        } else {
            Rational::lemma_fraction(-(an * bd), -(ad * bn));
            assert((qn * bn) * ad == an * (qd * bd)) by (nonlinear_arith)
                requires
                    qn * (-(ad * bn)) == (-(an * bd)) * qd,
            ;
        }
        Rational::lemma_fraction_is(qn * bn, qd * bd, a);
    }

    proof fn lemma_over_self(a: Self) {
        let (an, ad) = (a.num_spec(), a.den_spec());
        lemma_zero(a);
        lemma_literals();
        let one = Rational::from_parts(1, 1);
        one.lemma_parts(1, 1);
        lemma_product_fits(ad, an);
        lemma_product_fits(ad, -an);
        assert(an * ad == ad * an) by (nonlinear_arith);
        assert(-(ad * an) == ad * (-an)) by (nonlinear_arith);
        if an > 0 {
            Rational::lemma_fraction_is(an * ad, ad * an, one);
        } else {
            Rational::lemma_fraction_is(-(an * ad), -(ad * an), one);
        }
    }
}

impl Rational {
    /// `to` if `self` is the number `at`, and "not a number" otherwise.
    pub open spec fn only_at(self, at: Rational, to: Rational) -> Rational {
        if self.same(at) {
            to
        } else {
            Self::nan()
        }
    }

    /// `to` if `self` is the number `at`, and "not a number" otherwise.
    fn only(self, at: Rational, to: Rational) -> (r: Rational)
        ensures
            r == self.only_at(at, to),
    {
        if self.equals(&at) {
            to
        } else {
            Rational::not_a_number()
        }
    }

    /// The number zero.
    fn zero() -> (r: Rational)
        ensures
            r == Self::signed_fraction(0, 1),
    {
        Rational::new(0, 1)
    }

    /// The number one.
    fn one() -> (r: Rational)
        ensures
            r == Self::signed_fraction(1, 1),
    {
        Rational::new(1, 1)
    }
}

/// The elementary functions take a rational number to an irrational one,
/// with the exceptions of `ln 1`, `exp 0`, `acos 1` and of the trigonometric
/// functions and their inverses at zero. An exact scalar has a value for
/// those, and "not a number" for every other argument.
impl Transcendental for Rational {
    open spec fn ln_spec(self) -> Self {
        self.only_at(one_spec::<Rational>(), zero_spec::<Rational>())
    }

    open spec fn exp_spec(self) -> Self {
        self.only_at(zero_spec::<Rational>(), one_spec::<Rational>())
    }

    open spec fn sin_spec(self) -> Self {
        self.only_at(zero_spec::<Rational>(), zero_spec::<Rational>())
    }

    open spec fn cos_spec(self) -> Self {
        self.only_at(zero_spec::<Rational>(), one_spec::<Rational>())
    }

    open spec fn tan_spec(self) -> Self {
        self.only_at(zero_spec::<Rational>(), zero_spec::<Rational>())
    }

    open spec fn asin_spec(self) -> Self {
        self.only_at(zero_spec::<Rational>(), zero_spec::<Rational>())
    }

    open spec fn acos_spec(self) -> Self {
        self.only_at(one_spec::<Rational>(), zero_spec::<Rational>())
    }

    open spec fn atan_spec(self) -> Self {
        self.only_at(zero_spec::<Rational>(), zero_spec::<Rational>())
    }

    fn ln(self) -> (r: Self) {
        self.only(Rational::one(), Rational::zero())
    }

    fn exp(self) -> (r: Self) {
        self.only(Rational::zero(), Rational::one())
    }

    fn sin(self) -> (r: Self) {
        self.only(Rational::zero(), Rational::zero())
    }

    fn cos(self) -> (r: Self) {
        self.only(Rational::zero(), Rational::one())
    }

    fn tan(self) -> (r: Self) {
        self.only(Rational::zero(), Rational::zero())
    }

    fn asin(self) -> (r: Self) {
        self.only(Rational::zero(), Rational::zero())
    }

    fn acos(self) -> (r: Self) {
        self.only(Rational::one(), Rational::zero())
    }

    fn atan(self) -> (r: Self) {
        self.only(Rational::zero(), Rational::zero())
    }
}

} // verus!
