//! The integer capability contract.
//!
//! [`TimeInt`] declares the arithmetic a fixed-point magnitude representation
//! must support, independently of its width: checked add, subtract, multiply
//! and divide, a range bound, lossless passage through `u128` for
//! intermediate computation, and the two derived scaling operations
//! [`TimeInt::checked_mul_fraction`] and [`TimeInt::checked_div_fraction`].
//! [`Widen`] maps each supported narrow representation to the wider one used
//! for overflow-safe intermediate products.

use crate::fraction::Fraction;
use crate::ConversionError;
use vstd::arithmetic::div_mod::lemma_div_nonincreasing;
use vstd::prelude::*;

verus! {

/// What scaling a magnitude `v` by the fraction `n / d` yields in a
/// representation whose largest value is `t_max`: the product is checked
/// first, then divided, so the result is `v * n / d` truncated toward zero.
/// A fraction part that does not fit the representation, or a product that
/// exceeds it, is `Overflow`; a zero `d` is `DivByZero`.
pub open spec fn frac_scale(v: int, n: int, d: int, t_max: int) -> Result<
    int,
    ConversionError,
> {
    if n > t_max || v * n > t_max || d > t_max {
        Err(ConversionError::Overflow)
    } else if d == 0 {
        Err(ConversionError::DivByZero)
    } else {
        Ok((v * n) / d)
    }
}

/// The arithmetic capabilities the fixed-point engine requires of a
/// magnitude representation.
pub trait TimeInt: Sized + Copy {
    /// The represented value, as a mathematical integer.
    spec fn as_int(self) -> int;

    /// The largest representable value, as a mathematical integer.
    spec fn max_int() -> int;

    /// The representation's value for a mathematical integer; meaningful
    /// only within the representation's range.
    spec fn from_int(v: int) -> Self;

    /// Within the representation's range, `from_int` inverts `as_int`.
    proof fn from_int_prop(v: int)
        requires
            0 <= v <= Self::max_int(),
        ensures
            Self::from_int(v).as_int() == v,
    ;

    /// A representation value is determined by the integer it stands for.
    proof fn as_int_injective(self, other: Self)
        ensures
            self.as_int() == other.as_int() ==> self == other,
    ;

    /// Every representation is unsigned and no wider than 64 bits, so
    /// products of two values fit in `u128`.
    proof fn max_bound()
        ensures
            1 <= Self::max_int() <= u64::MAX,
    ;

    /// Every value lies within the representation's range.
    proof fn in_range(self)
        ensures
            0 <= self.as_int() <= Self::max_int(),
    ;

    /// The value, carried losslessly into `u128` for intermediate work.
    fn to_u128(self) -> (r: u128)
        ensures
            r == self.as_int(),
    ;

    /// The largest representable value, as a `u128`.
    fn max_u128() -> (r: u128)
        ensures
            r == Self::max_int(),
    ;

    /// Narrows an intermediate result back into the representation; `None`
    /// exactly when the value does not fit.
    fn try_from_u128(v: u128) -> (r: Option<Self>)
        ensures
            v <= Self::max_int() ==> (r matches Some(t) && t.as_int() == v),
            v > Self::max_int() ==> r is None,
    ;

    /// Checked addition: `None` exactly on overflow.
    fn checked_add(self, other: Self) -> (r: Option<Self>)
        ensures
            self.as_int() + other.as_int() <= Self::max_int() ==> (r matches Some(s)
                && s.as_int() == self.as_int() + other.as_int()),
            self.as_int() + other.as_int() > Self::max_int() ==> r is None,
    ;

    /// Checked subtraction: `None` exactly on underflow.
    fn checked_sub(self, other: Self) -> (r: Option<Self>)
        ensures
            self.as_int() >= other.as_int() ==> (r matches Some(s) && s.as_int()
                == self.as_int() - other.as_int()),
            self.as_int() < other.as_int() ==> r is None,
    ;

    /// Checked multiplication: `None` exactly on overflow.
    fn checked_mul(self, other: Self) -> (r: Option<Self>)
        ensures
            self.as_int() * other.as_int() <= Self::max_int() ==> (r matches Some(s)
                && s.as_int() == self.as_int() * other.as_int()),
            self.as_int() * other.as_int() > Self::max_int() ==> r is None,
    ;

    /// Checked division, truncating toward zero: `None` exactly on a zero
    /// divisor.
    fn checked_div(self, other: Self) -> (r: Option<Self>)
        ensures
            other.as_int() != 0 ==> (r matches Some(s) && s.as_int() == self.as_int()
                / other.as_int()),
            other.as_int() == 0 ==> r is None,
    ;

    /// Checked `self * fraction`, truncated toward zero: the multiplication
    /// happens first, to preserve precision, and is checked in this
    /// representation.
    fn checked_mul_fraction(&self, fraction: &Fraction) -> (r: Result<Self, ConversionError>)
        ensures
            match (r, frac_scale(self.as_int(), fraction.num(), fraction.den(), Self::max_int())) {
                (Ok(a), Ok(b)) => a.as_int() == b,
                (Err(a), Err(b)) => a == b,
                _ => false,
            },
    ;

    /// Checked `self / fraction`, truncated toward zero: multiplies by the
    /// denominator and divides by the numerator, the dual of
    /// [`TimeInt::checked_mul_fraction`].
    fn checked_div_fraction(&self, fraction: &Fraction) -> (r: Result<Self, ConversionError>)
        ensures
            match (r, frac_scale(self.as_int(), fraction.den(), fraction.num(), Self::max_int())) {
                (Ok(a), Ok(b)) => a.as_int() == b,
                (Err(a), Err(b)) => a == b,
                _ => false,
            },
    ;
}

/// Scales `v` by `n / d`, deciding overflow against the bound `t_max` of the
/// representation the result must live in.  The shared body of every
/// [`TimeInt::checked_mul_fraction`] and [`TimeInt::checked_div_fraction`].
pub(crate) fn frac_scale_exec(v: u128, n: u64, d: u64, t_max: u128) -> (r: Result<
    u128,
    ConversionError,
>)
    requires
        v <= t_max,
        t_max <= u64::MAX,
    ensures
        match (r, frac_scale(v as int, n as int, d as int, t_max as int)) {
            (Ok(a), Ok(b)) => a == b && a <= t_max,
            (Err(a), Err(b)) => a == b,
            _ => false,
        },
{
    if n as u128 > t_max {
        return Err(ConversionError::Overflow);
    }
    proof {
        assert(v * n <= u64::MAX * u64::MAX) by (nonlinear_arith)
            requires
                0 <= v <= u64::MAX,
                0 <= n <= u64::MAX,
        ;
    }
    let p = v * (n as u128);
    if p > t_max {
        return Err(ConversionError::Overflow);
    }
    if d as u128 > t_max {
        return Err(ConversionError::Overflow);
    }
    if d == 0 {
        return Err(ConversionError::DivByZero);
    }
    proof {
        lemma_div_nonincreasing(p as int, d as int);
    }
    Ok(p / (d as u128))
}

impl TimeInt for u32 {
    open spec fn as_int(self) -> int {
        self as int
    }

    open spec fn max_int() -> int {
        u32::MAX as int
    }

    open spec fn from_int(v: int) -> u32 {
        v as u32
    }

    proof fn from_int_prop(v: int) {
    }

    proof fn as_int_injective(self, other: u32) {
    }

    proof fn max_bound() {
    }

    proof fn in_range(self) {
    }

    fn to_u128(self) -> u128 {
        self as u128
    }

    fn max_u128() -> u128 {
        u32::MAX as u128
    }

    fn try_from_u128(v: u128) -> Option<u32> {
        if v <= u32::MAX as u128 {
            Some(v as u32)
        } else {
            None
        }
    }

    fn checked_add(self, other: u32) -> Option<u32> {
        u32::checked_add(self, other)
    }

    fn checked_sub(self, other: u32) -> Option<u32> {
        u32::checked_sub(self, other)
    }

    fn checked_mul(self, other: u32) -> Option<u32> {
        u32::checked_mul(self, other)
    }

    fn checked_div(self, other: u32) -> Option<u32> {
        u32::checked_div(self, other)
    }

    fn checked_mul_fraction(&self, fraction: &Fraction) -> Result<u32, ConversionError> {
        match frac_scale_exec(
            *self as u128,
            fraction.numerator(),
            fraction.denominator(),
            u32::MAX as u128,
        ) {
            Ok(q) => Ok(q as u32),
            Err(e) => Err(e),
        }
    }

    fn checked_div_fraction(&self, fraction: &Fraction) -> Result<u32, ConversionError> {
        match frac_scale_exec(
            *self as u128,
            fraction.denominator(),
            fraction.numerator(),
            u32::MAX as u128,
        ) {
            Ok(q) => Ok(q as u32),
            Err(e) => Err(e),
        }
    }
}

impl TimeInt for u64 {
    open spec fn as_int(self) -> int {
        self as int
    }

    open spec fn max_int() -> int {
        u64::MAX as int
    }

    open spec fn from_int(v: int) -> u64 {
        v as u64
    }

    proof fn from_int_prop(v: int) {
    }

    proof fn as_int_injective(self, other: u64) {
    }

    proof fn max_bound() {
    }

    proof fn in_range(self) {
    }

    fn to_u128(self) -> u128 {
        self as u128
    }

    fn max_u128() -> u128 {
        u64::MAX as u128
    }

    fn try_from_u128(v: u128) -> Option<u64> {
        if v <= u64::MAX as u128 {
            Some(v as u64)
        } else {
            None
        }
    }

    fn checked_add(self, other: u64) -> Option<u64> {
        u64::checked_add(self, other)
    }

    fn checked_sub(self, other: u64) -> Option<u64> {
        u64::checked_sub(self, other)
    }

    fn checked_mul(self, other: u64) -> Option<u64> {
        u64::checked_mul(self, other)
    }

    fn checked_div(self, other: u64) -> Option<u64> {
        u64::checked_div(self, other)
    }

    fn checked_mul_fraction(&self, fraction: &Fraction) -> Result<u64, ConversionError> {
        match frac_scale_exec(
            *self as u128,
            fraction.numerator(),
            fraction.denominator(),
            u64::MAX as u128,
        ) {
            Ok(q) => Ok(q as u64),
            Err(e) => Err(e),
        }
    }

    fn checked_div_fraction(&self, fraction: &Fraction) -> Result<u64, ConversionError> {
        match frac_scale_exec(
            *self as u128,
            fraction.denominator(),
            fraction.numerator(),
            u64::MAX as u128,
        ) {
            Ok(q) => Ok(q as u64),
            Err(e) => Err(e),
        }
    }
}

/// The widening capability: maps a narrow representation to the wider one
/// used for intermediate products that must not spuriously overflow.
pub trait Widen: Sized + Copy {
    /// The wider representation.
    type Output;

    /// The widened value, which represents the same integer.
    spec fn widen_spec(&self) -> Self::Output;

    /// Carries the value losslessly into the wider representation.
    fn widen(&self) -> (r: Self::Output)
        ensures
            r == self.widen_spec(),
    ;
}

impl Widen for u32 {
    type Output = u64;

    open spec fn widen_spec(&self) -> u64 {
        *self as u64
    }

    fn widen(&self) -> u64 {
        *self as u64
    }
}

impl Widen for u64 {
    type Output = u128;

    open spec fn widen_spec(&self) -> u128 {
        *self as u128
    }

    fn widen(&self) -> u128 {
        *self as u128
    }
}

} // verus!
