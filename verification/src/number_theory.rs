//! Greatest common divisors and fractions in lowest terms.
//!
//! The facts here carry the exact arithmetic of [`crate::rational`]: a
//! fraction has one form in lowest terms, and dividing both parts of a
//! fraction by their greatest common divisor gives it.
use vstd::arithmetic::div_mod::{lemma_div_multiples_vanish, lemma_fundamental_div_mod};
use vstd::prelude::*;

verus! {

/// The greatest common divisor of `a` and `b`, by Euclid's algorithm. It is
/// zero only for `a == b == 0`.
pub open spec fn gcd(a: nat, b: nat) -> nat
    decreases b,
{
    if b == 0 {
        a
    } else {
        gcd(b, a % b)
    }
}

/// The magnitude of `n`.
pub open spec fn abs(n: int) -> nat {
    if n < 0 {
        (-n) as nat
    } else {
        n as nat
    }
}

/// Whether `n / d` is a fraction in lowest terms: the denominator is
/// positive and shares no divisor with the numerator.
pub open spec fn lowest_terms(n: int, d: int) -> bool {
    d > 0 && gcd(abs(n), d as nat) == 1
}

/// The greatest common divisor of a number and zero is the number.
pub proof fn lemma_gcd_zero(d: nat)
    ensures
        gcd(d, 0) == d,
        gcd(0, d) == d,
{
    if d > 0 {
        assert(0nat % d == 0);
        assert(gcd(0, d) == gcd(d, 0nat % d));
    }
}

/// The greatest common divisor is positive unless both numbers are zero.
pub proof fn lemma_gcd_positive(a: nat, b: nat)
    requires
        a > 0 || b > 0,
    ensures
        gcd(a, b) > 0,
    decreases b,
{
    if b != 0 {
        lemma_gcd_positive(b, a % b);
    }
}

/// The greatest common divisor divides both numbers: the result holds the two
/// cofactors.
pub proof fn lemma_gcd_cofactors(a: nat, b: nat) -> (k: (nat, nat))
    ensures
        a == k.0 * gcd(a, b),
        b == k.1 * gcd(a, b),
    decreases b,
{
    if b == 0 {
        (1, 0)
    } else {
        let g = gcd(a, b);
        let (kb, kr) = lemma_gcd_cofactors(b, a % b);
        let q = a / b;
        lemma_fundamental_div_mod(a as int, b as int);
        assert(a == (kb * q + kr) * g) by (nonlinear_arith)
            requires
                a == b * q + a % b,
                b == kb * g,
                a % b == kr * g,
        ;
        assert(kb * q + kr >= 0) by (nonlinear_arith)
            requires
                kb >= 0,
                q >= 0,
                kr >= 0,
        ;
        ((kb * q + kr) as nat, kb)
    }
}

/// Bezout's identity: the greatest common divisor is a combination of the two
/// numbers with whole coefficients, which the result holds.
pub proof fn lemma_bezout(a: nat, b: nat) -> (c: (int, int))
    ensures
        a * c.0 + b * c.1 == gcd(a, b),
    decreases b,
{
    if b == 0 {
        (1, 0)
    } else {
        let g = gcd(a, b) as int;
        let (x, y) = lemma_bezout(b, a % b);
        let q = (a / b) as int;
        let r = (a % b) as int;
        let m = a as int;
        let n = b as int;
        lemma_fundamental_div_mod(m, n);
        assert(m * y + n * (x - q * y) == g) by (nonlinear_arith)
            requires
                m == n * q + r,
                n * x + r * y == g,
        ;
        (y, x - q * y)
    }
}

/// Two numbers with a whole combination equal to one have no common divisor
/// but one.
pub proof fn lemma_combination_one(a: nat, b: nat, x: int, y: int)
    requires
        a * x + b * y == 1,
    ensures
        gcd(a, b) == 1,
{
    let g = gcd(a, b);
    let (ka, kb) = lemma_gcd_cofactors(a, b);
    assert(g * (ka * x + kb * y) == 1) by (nonlinear_arith)
        requires
            a == ka * g,
            b == kb * g,
            a * x + b * y == 1,
    ;
    assert(g == 1) by (nonlinear_arith)
        requires
            g >= 0,
            g * (ka * x + kb * y) == 1,
    ;
}

/// Dividing two numbers by their greatest common divisor leaves numbers
/// without a common divisor.
pub proof fn lemma_cofactors_coprime(a: nat, b: nat, ka: nat, kb: nat)
    requires
        a > 0 || b > 0,
        a == ka * gcd(a, b),
        b == kb * gcd(a, b),
    ensures
        gcd(ka, kb) == 1,
{
    let g = gcd(a, b);
    lemma_gcd_positive(a, b);
    let (x, y) = lemma_bezout(a, b);
    assert(ka * x + kb * y == 1) by (nonlinear_arith)
        requires
            g > 0,
            a == ka * g,
            b == kb * g,
            a * x + b * y == g,
    ;
    lemma_combination_one(ka, kb, x, y);
}

/// A fraction in lowest terms is a whole combination away from one: the
/// result holds coefficients `x`, `y` with `n * x + d * y == 1`.
pub proof fn lemma_lowest_terms_combination(n: int, d: int) -> (c: (int, int))
    requires
        lowest_terms(n, d),
    ensures
        n * c.0 + d * c.1 == 1,
{
    let (x, y) = lemma_bezout(abs(n), d as nat);
    if n < 0 {
        assert(n * (-x) + d * y == 1) by (nonlinear_arith)
            requires
                (-n) * x + d * y == 1,
        ;
        (-x, y)
    } else {
        (x, y)
    }
}

/// A denominator in lowest terms divides the denominator of every fraction
/// of the same value: the result is the cofactor.
proof fn lemma_denominator_divides(n: int, d: int, p: int, q: int) -> (c: int)
    requires
        lowest_terms(n, d),
        q > 0,
        n * q == p * d,
    ensures
        q == d * c,
        c > 0,
{
    let (x, y) = lemma_lowest_terms_combination(n, d);
    let c = p * x + q * y;
    assert(q == d * c) by (nonlinear_arith)
        requires
            n * x + d * y == 1,
            n * q == p * d,
            c == p * x + q * y,
    ;
    assert(c > 0) by (nonlinear_arith)
        requires
            q == d * c,
            q > 0,
            d > 0,
    ;
    c
}

/// A value has one fraction in lowest terms.
pub proof fn lemma_lowest_terms_unique(n: int, d: int, p: int, q: int)
    requires
        lowest_terms(n, d),
        lowest_terms(p, q),
        n * q == p * d,
    ensures
        n == p,
        d == q,
{
    let c1 = lemma_denominator_divides(n, d, p, q);
    let c2 = lemma_denominator_divides(p, q, n, d);
    assert(c1 == 1 && c2 == 1) by (nonlinear_arith)
        requires
            q == d * c1,
            d == q * c2,
            c1 > 0,
            c2 > 0,
            d > 0,
            q > 0,
    ;
    assert(n == p) by (nonlinear_arith)
        requires
            n * q == p * d,
            d == q,
            d > 0,
    ;
}

/// The numerator and the denominator of `n / d` reduced to lowest terms.
pub open spec fn reduced(n: int, d: int) -> (int, int) {
    let g = gcd(abs(n), d as nat) as int;
    if n < 0 {
        (-(abs(n) as int / g), d / g)
    } else {
        (n / g, d / g)
    }
}

/// Reducing keeps the value of a fraction and brings it to lowest terms.
pub proof fn lemma_reduced(n: int, d: int)
    requires
        d > 0,
    ensures
        lowest_terms(reduced(n, d).0, reduced(n, d).1),
        reduced(n, d).0 * d == n * reduced(n, d).1,
        abs(reduced(n, d).0) <= abs(n),
        reduced(n, d).1 <= d,
        n < 0 <==> reduced(n, d).0 < 0,
{
    let a = abs(n);
    let b = d as nat;
    lemma_gcd_positive(a, b);
    let (ka, kb) = lemma_gcd_cofactors(a, b);
    lemma_cofactors_coprime(a, b, ka, kb);
    let g = gcd(a, b) as int;
    let m = a as int;
    let km = ka as int;
    let kd = kb as int;
    lemma_div_multiples_vanish(km, g);
    lemma_div_multiples_vanish(kd, g);
    assert(m / g == km && d / g == kd) by (nonlinear_arith)
        requires
            m == km * g,
            d == kd * g,
            (g * km) / g == km,
            (g * kd) / g == kd,
    ;
    assert(km * d == m * kd) by (nonlinear_arith)
        requires
            m == km * g,
            d == kd * g,
    ;
    assert(km <= m && 0 < kd <= d && (m > 0 ==> km > 0)) by (nonlinear_arith)
        requires
            m == km * g,
            d == kd * g,
            d > 0,
            g > 0,
            km >= 0,
            kd >= 0,
    ;
    if n < 0 {
        assert((-km) * d == n * kd) by (nonlinear_arith)
            requires
                km * d == m * kd,
                m == -n,
        ;
        assert(abs(-km) == ka);
    } else {
        assert(abs(km) == ka);
    }
}

/// Reducing a fraction gives the fraction in lowest terms that has its
/// value, whichever that is.
pub proof fn lemma_reduced_is(n: int, d: int, p: int, q: int)
    requires
        d > 0,
        lowest_terms(p, q),
        n * q == p * d,
    ensures
        reduced(n, d) == (p, q),
{
    lemma_reduced(n, d);
    let (rn, rd) = reduced(n, d);
    assert(rn * q == p * rd) by (nonlinear_arith)
        requires
            rn * d == n * rd,
            n * q == p * d,
            d > 0,
    ;
    lemma_lowest_terms_unique(rn, rd, p, q);
}

/// The greatest common divisor of two numbers.
pub fn greatest_common_divisor(a: u128, b: u128) -> (g: u128)
    ensures
        g == gcd(a as nat, b as nat),
{
    let mut x: u128 = a;
    let mut y: u128 = b;
    while y != 0
        invariant
            gcd(x as nat, y as nat) == gcd(a as nat, b as nat),
        decreases y,
    {
        let t: u128 = x % y;
        x = y;
        y = t;
    }
    x
}

} // verus!
