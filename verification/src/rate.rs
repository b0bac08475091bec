//! Rate types and units.
//!
//! A rate is the reciprocal interpretation of a duration: a frequency whose
//! scaling factor counts events per base-unit of time.  Conversion between
//! the two families goes through the reciprocal of the combined scaling
//! factor, so a duration of zero magnitude has no corresponding finite rate.

use crate::fixed_point::{
    fp_cmp, fp_eq, reciprocal_convert, spec_fp_cmp, spec_fp_eq, spec_reciprocal_converted,
    FixedPoint,
};
use crate::fraction::Fraction;
use crate::time_int::TimeInt;
use crate::ConversionError;
use vstd::prelude::*;

verus! {

/// An unsigned, fixed-point rate: a marker over [`FixedPoint`] for types
/// whose quantity is a frequency.
pub trait Rate: FixedPoint {
    /// Converts to a named duration: the rate is interpreted as the
    /// reciprocal of the resulting duration.  Fails with `DivByZero` for a
    /// zero-magnitude rate, whose reciprocal duration would be infinite.
    fn to_duration<D: FixedPoint>(&self) -> (r: Result<D, ConversionError>)
        ensures
            match (r, spec_reciprocal_converted::<Self, D>(*self)) {
                (Ok(d), Ok(q)) => d.ticks() == q,
                (Err(a), Err(b)) => a == b,
                _ => false,
            },
    {
        reciprocal_convert::<Self, D>(self)
    }
}

/// An events-per-second rate unit.
#[derive(Copy, Clone, Debug, Hash, Default)]
pub struct Hertz<T: TimeInt = u32>(pub T);

impl<T: TimeInt> Hertz<T> {
    /// Wraps a magnitude expressed in this unit.
    pub fn new(value: T) -> (r: Self)
        ensures
            r.ticks() == value.as_int(),
    {
        Self(value)
    }
}

impl<T: TimeInt> FixedPoint for Hertz<T> {
    type T = T;

    open spec fn ticks(self) -> int {
        self.0.as_int()
    }

    open spec fn scale_num() -> int {
        1
    }

    open spec fn scale_den() -> int {
        1
    }

    proof fn ticks_in_range(self) {
        self.0.in_range();
    }

    proof fn scale_positive() {
    }

    fn scaling_factor() -> Fraction {
        Fraction::new(1, 1)
    }

    fn new(value: T) -> Self {
        Self(value)
    }

    fn integer(&self) -> &T {
        &self.0
    }
}

impl<T: TimeInt> Rate for Hertz<T> {

}

impl<T: TimeInt, Rhs: Rate> PartialEq<Rhs> for Hertz<T> {
    fn eq(&self, other: &Rhs) -> bool {
        fp_eq::<Hertz<T>, Rhs>(self, other)
    }
}

impl<T: TimeInt, Rhs: Rate> vstd::std_specs::cmp::PartialEqSpecImpl<Rhs> for Hertz<T> {
    open spec fn obeys_eq_spec() -> bool {
        true
    }

    open spec fn eq_spec(&self, other: &Rhs) -> bool {
        spec_fp_eq::<Hertz<T>, Rhs>(*self, *other)
    }
}

impl<T: TimeInt, Rhs: Rate> PartialOrd<Rhs> for Hertz<T> {
    fn partial_cmp(&self, other: &Rhs) -> Option<core::cmp::Ordering> {
        Some(fp_cmp::<Hertz<T>, Rhs>(self, other))
    }
}

impl<T: TimeInt, Rhs: Rate> vstd::std_specs::cmp::PartialOrdSpecImpl<Rhs> for Hertz<T> {
    open spec fn obeys_partial_cmp_spec() -> bool {
        true
    }

    open spec fn partial_cmp_spec(&self, other: &Rhs) -> Option<core::cmp::Ordering> {
        Some(spec_fp_cmp::<Hertz<T>, Rhs>(*self, *other))
    }
}

/// A thousand-events-per-second rate unit.
#[derive(Copy, Clone, Debug, Hash, Default)]
pub struct Kilohertz<T: TimeInt = u32>(pub T);

impl<T: TimeInt> Kilohertz<T> {
    /// Wraps a magnitude expressed in this unit.
    pub fn new(value: T) -> (r: Self)
        ensures
            r.ticks() == value.as_int(),
    {
        Self(value)
    }
}

impl<T: TimeInt> FixedPoint for Kilohertz<T> {
    type T = T;

    open spec fn ticks(self) -> int {
        self.0.as_int()
    }

    open spec fn scale_num() -> int {
        1_000
    }

    open spec fn scale_den() -> int {
        1
    }

    proof fn ticks_in_range(self) {
        self.0.in_range();
    }

    proof fn scale_positive() {
    }

    fn scaling_factor() -> Fraction {
        Fraction::new(1_000, 1)
    }

    fn new(value: T) -> Self {
        Self(value)
    }

    fn integer(&self) -> &T {
        &self.0
    }
}

impl<T: TimeInt> Rate for Kilohertz<T> {

}

impl<T: TimeInt, Rhs: Rate> PartialEq<Rhs> for Kilohertz<T> {
    fn eq(&self, other: &Rhs) -> bool {
        fp_eq::<Kilohertz<T>, Rhs>(self, other)
    }
}

impl<T: TimeInt, Rhs: Rate> vstd::std_specs::cmp::PartialEqSpecImpl<Rhs> for Kilohertz<T> {
    open spec fn obeys_eq_spec() -> bool {
        true
    }

    open spec fn eq_spec(&self, other: &Rhs) -> bool {
        spec_fp_eq::<Kilohertz<T>, Rhs>(*self, *other)
    }
}

impl<T: TimeInt, Rhs: Rate> PartialOrd<Rhs> for Kilohertz<T> {
    fn partial_cmp(&self, other: &Rhs) -> Option<core::cmp::Ordering> {
        Some(fp_cmp::<Kilohertz<T>, Rhs>(self, other))
    }
}

impl<T: TimeInt, Rhs: Rate> vstd::std_specs::cmp::PartialOrdSpecImpl<Rhs> for Kilohertz<T> {
    open spec fn obeys_partial_cmp_spec() -> bool {
        true
    }

    open spec fn partial_cmp_spec(&self, other: &Rhs) -> Option<core::cmp::Ordering> {
        Some(spec_fp_cmp::<Kilohertz<T>, Rhs>(*self, *other))
    }
}

/// A million-events-per-second rate unit.
#[derive(Copy, Clone, Debug, Hash, Default)]
pub struct Megahertz<T: TimeInt = u32>(pub T);

impl<T: TimeInt> Megahertz<T> {
    /// Wraps a magnitude expressed in this unit.
    pub fn new(value: T) -> (r: Self)
        ensures
            r.ticks() == value.as_int(),
    {
        Self(value)
    }
}

impl<T: TimeInt> FixedPoint for Megahertz<T> {
    type T = T;

    open spec fn ticks(self) -> int {
        self.0.as_int()
    }

    open spec fn scale_num() -> int {
        1_000_000
    }

    open spec fn scale_den() -> int {
        1
    }

    proof fn ticks_in_range(self) {
        self.0.in_range();
    }

    proof fn scale_positive() {
    }

    fn scaling_factor() -> Fraction {
        Fraction::new(1_000_000, 1)
    }

    fn new(value: T) -> Self {
        Self(value)
    }

    fn integer(&self) -> &T {
        &self.0
    }
}

impl<T: TimeInt> Rate for Megahertz<T> {

}

impl<T: TimeInt, Rhs: Rate> PartialEq<Rhs> for Megahertz<T> {
    fn eq(&self, other: &Rhs) -> bool {
        fp_eq::<Megahertz<T>, Rhs>(self, other)
    }
}

impl<T: TimeInt, Rhs: Rate> vstd::std_specs::cmp::PartialEqSpecImpl<Rhs> for Megahertz<T> {
    open spec fn obeys_eq_spec() -> bool {
        true
    }

    open spec fn eq_spec(&self, other: &Rhs) -> bool {
        spec_fp_eq::<Megahertz<T>, Rhs>(*self, *other)
    }
}

impl<T: TimeInt, Rhs: Rate> PartialOrd<Rhs> for Megahertz<T> {
    fn partial_cmp(&self, other: &Rhs) -> Option<core::cmp::Ordering> {
        Some(fp_cmp::<Megahertz<T>, Rhs>(self, other))
    }
}

impl<T: TimeInt, Rhs: Rate> vstd::std_specs::cmp::PartialOrdSpecImpl<Rhs> for Megahertz<T> {
    open spec fn obeys_partial_cmp_spec() -> bool {
        true
    }

    open spec fn partial_cmp_spec(&self, other: &Rhs) -> Option<core::cmp::Ordering> {
        Some(spec_fp_cmp::<Megahertz<T>, Rhs>(*self, *other))
    }
}

} // verus!
