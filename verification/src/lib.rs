//! Fixed-point representation of physical quantities: an integer magnitude
//! paired with a rational scaling factor, with checked conversions between
//! differently scaled representations.
//!
//! The crate has no heap allocation and no floating point: every quantity is
//! an unsigned integer magnitude whose meaning in base units is fixed by a
//! [`Fraction`] scaling factor.  Conversions truncate toward zero and report
//! overflow, narrowing failure and division by zero as explicit errors.

use vstd::prelude::*;

pub mod duration;
pub mod fixed_point;
pub mod fraction;
pub mod rate;
pub mod time_int;

pub use duration::Duration;
pub use fixed_point::FixedPoint;
pub use fraction::Fraction;
pub use rate::Rate;
pub use time_int::TimeInt;
pub use time_int::Widen;

verus! {

/// Everything fallible in this crate fails with one of these.
#[derive(Copy, Clone, Debug, PartialEq, Eq, Structural)]
pub enum ConversionError {
    /// An intermediate or final scaling-factor arithmetic step exceeded the
    /// chosen integer representation's range.
    Overflow,
    /// The mathematically correct result does not fit in the destination
    /// integer representation.
    ConversionFailure,
    /// A reciprocal or rate conversion needs a finite reciprocal of zero.
    DivByZero,
}

} // verus!
