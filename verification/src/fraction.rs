//! Exact rational scaling factors.
//!
//! A [`Fraction`] is an exact rational number used as the scaling factor of a
//! fixed-point value: the physical quantity a value stands for is its integer
//! magnitude multiplied by its scaling factor.  Fractions are never converted
//! through floating point; products of fractions are reduced by the greatest
//! common divisor so that later magnitude arithmetic overflows as rarely as
//! possible.

use crate::ConversionError;
use vstd::arithmetic::div_mod::{
    lemma_fundamental_div_mod, lemma_mod_multiples_basic, lemma_mod_self_0, lemma_small_mod,
};
use vstd::prelude::*;

verus! {

/// Greatest common divisor, by Euclid's recurrence.
pub open spec fn gcd(a: nat, b: nat) -> nat
    decreases b,
{
    if b == 0 {
        a
    } else {
        gcd(b, a % b)
    }
}

/// The numerator of `n / d` in lowest terms.
pub open spec fn reduced_num(n: int, d: int) -> int {
    n / gcd(n as nat, d as nat) as int
}

/// The denominator of `n / d` in lowest terms.
pub open spec fn reduced_den(n: int, d: int) -> int {
    d / gcd(n as nat, d as nat) as int
}

/// The gcd of two numbers divides both, and is positive when either is.
pub proof fn lemma_gcd_divides(a: nat, b: nat)
    ensures
        a > 0 || b > 0 ==> gcd(a, b) > 0,
        gcd(a, b) > 0 ==> a % gcd(a, b) == 0 && b % gcd(a, b) == 0,
    decreases b,
{
    if b == 0 {
        if a > 0 {
            lemma_mod_self_0(a as int);
        }
    } else {
        let g = gcd(b, a % b);
        lemma_gcd_divides(b, a % b);
        assert(g > 0);
        let q = a as int / b as int;
        let r = a as int % b as int;
        lemma_fundamental_div_mod(a as int, b as int);
        assert(b as int == g * (b as int / g as int)) by {
            lemma_fundamental_div_mod(b as int, g as int);
        };
        assert(r == g * (r / g as int)) by {
            lemma_fundamental_div_mod(r, g as int);
        };
        assert(a as int == ((b as int / g as int) * q + r / g as int) * g) by (nonlinear_arith)
            requires
                a as int == b as int * q + r,
                b as int == g * (b as int / g as int),
                r == g * (r / g as int),
        ;
        lemma_mod_multiples_basic((b as int / g as int) * q + r / g as int, g as int);
    }
}

/// The gcd does not depend on the order of its arguments.
pub proof fn lemma_gcd_symmetric(a: nat, b: nat)
    ensures
        gcd(a, b) == gcd(b, a),
{
    if b == 0 {
        if a > 0 {
            lemma_small_mod(0, a);
        }
    } else if a == 0 {
        lemma_small_mod(0, b);
    } else if a == b {
        lemma_mod_self_0(a as int);
    } else if a < b {
        lemma_small_mod(a, b);
    } else {
        lemma_small_mod(b, a);
    }
}

/// Reducing `n / d` by the gcd keeps both parts nonnegative, keeps the
/// denominator positive, and factors each part exactly.
pub proof fn lemma_reduce(n: int, d: int)
    requires
        0 <= n,
        1 <= d,
    ensures
        1 <= gcd(n as nat, d as nat),
        n == gcd(n as nat, d as nat) * reduced_num(n, d),
        d == gcd(n as nat, d as nat) * reduced_den(n, d),
        0 <= reduced_num(n, d) <= n,
        1 <= reduced_den(n, d) <= d,
{
    let g = gcd(n as nat, d as nat) as int;
    lemma_gcd_divides(n as nat, d as nat);
    lemma_fundamental_div_mod(n, g);
    lemma_fundamental_div_mod(d, g);
    assert(0 <= n / g <= n && 1 <= d / g <= d) by (nonlinear_arith)
        requires
            0 <= n,
            1 <= d,
            1 <= g,
            n == g * (n / g),
            d == g * (d / g),
    ;
}

/// Euclid's recurrence, run on machine words.
fn gcd_exec(a: u64, b: u64) -> (g: u64)
    ensures
        g == gcd(a as nat, b as nat),
{
    let mut x: u64 = a;
    let mut y: u64 = b;
    while y != 0
        invariant
            gcd(x as nat, y as nat) == gcd(a as nat, b as nat),
        decreases y,
    {
        let r = x % y;
        x = y;
        y = r;
    }
    x
}

/// The fraction `n / d`, as a specification-level value.
pub closed spec fn spec_fraction(n: int, d: int) -> Fraction {
    Fraction { numerator: n as u64, denominator: d as u64 }
}

/// Within machine-word range, `spec_fraction` has the parts it was given.
pub proof fn lemma_spec_fraction(n: int, d: int)
    requires
        0 <= n <= u64::MAX,
        0 <= d <= u64::MAX,
    ensures
        spec_fraction(n, d).num() == n,
        spec_fraction(n, d).den() == d,
{
}

/// A fraction is determined by its parts.
pub proof fn lemma_fraction_parts_determine(a: Fraction, b: Fraction)
    ensures
        a.num() == b.num() && a.den() == b.den() ==> a == b,
{
}

/// An exact rational scaling factor: `numerator / denominator`.
///
/// `new` is total; every operation that could produce a zero denominator or
/// needs a nonzero one reports [`ConversionError`] instead of trapping.
/// Derived equality is field-wise, as for the underlying integers.
#[derive(Copy, Clone, Debug, Hash, PartialEq, Eq, Structural)]
pub struct Fraction {
    numerator: u64,
    denominator: u64,
}

impl Fraction {
    /// The numerator, as a mathematical integer.
    pub closed spec fn num(self) -> int {
        self.numerator as int
    }

    /// The denominator, as a mathematical integer.
    pub closed spec fn den(self) -> int {
        self.denominator as int
    }

    /// Both parts are unsigned machine words.
    pub proof fn parts_in_range(self)
        ensures
            0 <= self.num() <= u64::MAX,
            0 <= self.den() <= u64::MAX,
    {
    }

    /// Constructs `numerator / denominator`.  Total: the caller is responsible
    /// for keeping denominators of fractions that are used as scaling factors
    /// nonzero; every consumer validates before dividing.
    pub fn new(numerator: u64, denominator: u64) -> (r: Fraction)
        ensures
            r.num() == numerator,
            r.den() == denominator,
    {
        Fraction { numerator, denominator }
    }

    /// The numerator.
    pub fn numerator(&self) -> (r: u64)
        ensures
            r == self.num(),
    {
        self.numerator
    }

    /// The denominator.
    pub fn denominator(&self) -> (r: u64)
        ensures
            r == self.den(),
    {
        self.denominator
    }

    /// The reciprocal: numerator and denominator swapped.  Fails with
    /// `DivByZero` when the numerator is zero, since the reciprocal of zero
    /// is not a finite fraction.
    pub fn recip(&self) -> (r: Result<Fraction, ConversionError>)
        ensures
            self.num() == 0 ==> r == Err::<Fraction, ConversionError>(ConversionError::DivByZero),
            self.num() != 0 ==> (r matches Ok(f) && f.num() == self.den() && f.den()
                == self.num()),
    {
        if self.numerator == 0 {
            Err(ConversionError::DivByZero)
        } else {
            Ok(Fraction { numerator: self.denominator, denominator: self.numerator })
        }
    }

    /// The product of two fractions, reduced to lowest terms.  Fails with
    /// `Overflow` when the raw numerator or denominator product exceeds the
    /// representation, before any reduction.
    pub fn checked_mul(&self, other: &Fraction) -> (r: Result<Fraction, ConversionError>)
        requires
            self.den() >= 1,
            other.den() >= 1,
        ensures
            self.num() * other.num() > u64::MAX || self.den() * other.den() > u64::MAX ==> r
                == Err::<Fraction, ConversionError>(ConversionError::Overflow),
            self.num() * other.num() <= u64::MAX && self.den() * other.den() <= u64::MAX ==> {
                &&& r matches Ok(f)
                &&& f.num() == reduced_num(self.num() * other.num(), self.den() * other.den())
                &&& f.den() == reduced_den(self.num() * other.num(), self.den() * other.den())
            },
    {
        let pn = match self.numerator.checked_mul(other.numerator) {
            Some(v) => v,
            None => {
                return Err(ConversionError::Overflow);
            },
        };
        let pd = match self.denominator.checked_mul(other.denominator) {
            Some(v) => v,
            None => {
                return Err(ConversionError::Overflow);
            },
        };
        proof {
            assert(pd >= 1) by (nonlinear_arith)
                requires
                    pd == self.den() * other.den(),
                    self.den() >= 1,
                    other.den() >= 1,
            ;
            lemma_reduce(pn as int, pd as int);
        }
        let g = gcd_exec(pn, pd);
        Ok(Fraction { numerator: pn / g, denominator: pd / g })
    }
}

} // verus!
