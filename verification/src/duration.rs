//! Duration types and units.
//!
//! Each named unit ([`Seconds`], [`Milliseconds`], …) wraps an integer
//! magnitude; its scaling factor in seconds is a constant of the type.
//! Values of different units and integer widths convert into one another,
//! compare, add, subtract and take remainders through the fixed-point
//! engine, and convert to and from [`core::time::Duration`] and from the
//! runtime-scaled [`Generic`] container.  All fallible conversions report
//! [`ConversionError`] rather than silently losing magnitude; the arithmetic
//! operators mirror native integer arithmetic and are for call sites that
//! have already bounded their operands.

use crate::fixed_point::{
    fp_add, fp_cmp, fp_eq, fp_rem, fp_sub, from_ticks, into_ticks, reciprocal_convert,
    spec_convert, spec_converted, spec_fp_add_ok, spec_fp_cmp, spec_fp_eq, spec_fp_rem,
    spec_fp_sub_ok, spec_from_generic, spec_reciprocal_converted, try_convert_from, wider_max,
    FixedPoint,
};
use crate::fraction::{lemma_fraction_parts_determine, lemma_spec_fraction, spec_fraction, Fraction};
use crate::time_int::TimeInt;
use crate::ConversionError;
use core::convert::TryFrom;
use vstd::prelude::*;

verus! {

/// An unsigned, fixed-point duration: a marker over [`FixedPoint`] for types
/// whose quantity is an elapsed time.
pub trait Duration: FixedPoint {
    /// Re-expresses the duration as a [`Generic`] duration with the given
    /// runtime scaling factor, in the representation `DestInt`.
    fn to_generic<DestInt: TimeInt>(self, scaling_factor: Fraction) -> (r: Result<
        Generic<DestInt>,
        ConversionError,
    >)
        ensures
            match (r, spec_convert(
                self.ticks(),
                Self::scale_num(),
                Self::scale_den(),
                scaling_factor.num(),
                scaling_factor.den(),
                wider_max(<Self::T as TimeInt>::max_int(), DestInt::max_int()),
                DestInt::max_int(),
            )) {
                (Ok(g), Ok(q)) => g.ticks() == q && g.factor() == scaling_factor,
                (Err(a), Err(b)) => a == b,
                _ => false,
            },
    {
        match into_ticks::<Self, DestInt>(self, scaling_factor) {
            Ok(t) => Ok(Generic::new(t, scaling_factor)),
            Err(e) => Err(e),
        }
    }

    /// Converts to a named [`Rate`](crate::rate::Rate): the duration is
    /// interpreted as the reciprocal of the resulting rate.  Fails with
    /// `DivByZero` for a zero-magnitude duration, which corresponds to no
    /// finite rate.
    fn to_rate<R: crate::rate::Rate>(&self) -> (r: Result<R, ConversionError>)
        ensures
            match (r, spec_reciprocal_converted::<Self, R>(*self)) {
                (Ok(v), Ok(q)) => v.ticks() == q,
                (Err(a), Err(b)) => a == b,
                _ => false,
            },
    {
        reciprocal_convert::<Self, R>(self)
    }
}

/// A duration whose scaling factor is runtime data rather than a constant of
/// the type: the interchange form when the scaling factor is not known at
/// compile time.
#[derive(Copy, Clone, Debug, Hash, PartialEq, Eq, Structural)]
pub struct Generic<T> {
    integer: T,
    scaling_factor: Fraction,
}

impl<T: TimeInt> Generic<T> {
    /// The magnitude, as a mathematical integer.
    pub closed spec fn ticks(self) -> int {
        self.integer.as_int()
    }

    /// The runtime scaling factor.
    pub closed spec fn factor(self) -> Fraction {
        self.scaling_factor
    }

    /// Constructs a fixed-point duration from a magnitude and a runtime
    /// scaling factor.
    pub fn new(integer: T, scaling_factor: Fraction) -> (r: Self)
        ensures
            r.ticks() == integer.as_int(),
            r.factor() == scaling_factor,
    {
        Self { integer, scaling_factor }
    }

    /// The magnitude.
    pub fn integer(&self) -> (r: &T)
        ensures
            r.as_int() == self.ticks(),
    {
        &self.integer
    }

    /// The scaling factor.
    pub fn scaling_factor(&self) -> (r: &Fraction)
        ensures
            *r == self.factor(),
    {
        &self.scaling_factor
    }
}

/// The generic duration with the given magnitude and scaling factor, as a
/// specification-level value.
pub closed spec fn spec_generic<T: TimeInt>(integer: T, f: Fraction) -> Generic<T> {
    Generic { integer, scaling_factor: f }
}

/// `spec_generic` carries the magnitude and factor it was given.
pub proof fn lemma_spec_generic<T: TimeInt>(integer: T, f: Fraction)
    ensures
        spec_generic(integer, f).ticks() == integer.as_int(),
        spec_generic(integer, f).factor() == f,
{
}

/// A generic duration is determined by its magnitude and scaling factor.
pub proof fn lemma_generic_parts_determine<T: TimeInt>(a: Generic<T>, b: Generic<T>)
    ensures
        a.ticks() == b.ticks() && a.factor() == b.factor() ==> a == b,
{
    a.integer.as_int_injective(b.integer);
}

/// A whole-seconds duration unit.
#[derive(Copy, Clone, Debug, Hash, Default)]
pub struct Seconds<T: TimeInt = u32>(pub T);

impl<T: TimeInt> Seconds<T> {
    /// Wraps a magnitude expressed in this unit.
    pub fn new(value: T) -> (r: Self)
        ensures
            r.ticks() == value.as_int(),
    {
        Self(value)
    }
}

impl<T: TimeInt> FixedPoint for Seconds<T> {
    type T = T;

    open spec fn ticks(self) -> int {
        self.0.as_int()
    }

    open spec fn scale_num() -> int {
        1
    }

    open spec fn scale_den() -> int {
        1
    }

    proof fn ticks_in_range(self) {
        self.0.in_range();
    }

    proof fn scale_positive() {
    }

    fn scaling_factor() -> Fraction {
        Fraction::new(1, 1)
    }

    fn new(value: T) -> Self {
        Self(value)
    }

    fn integer(&self) -> &T {
        &self.0
    }
}

impl<T: TimeInt> Duration for Seconds<T> {

}

impl<T: TimeInt, Rhs: Duration> PartialEq<Rhs> for Seconds<T> {
    fn eq(&self, other: &Rhs) -> bool {
        fp_eq::<Seconds<T>, Rhs>(self, other)
    }
}

impl<T: TimeInt, Rhs: Duration> vstd::std_specs::cmp::PartialEqSpecImpl<Rhs> for Seconds<T> {
    open spec fn obeys_eq_spec() -> bool {
        true
    }

    open spec fn eq_spec(&self, other: &Rhs) -> bool {
        spec_fp_eq::<Seconds<T>, Rhs>(*self, *other)
    }
}


impl<T: TimeInt, Rhs: Duration> PartialOrd<Rhs> for Seconds<T> {
    fn partial_cmp(&self, other: &Rhs) -> Option<core::cmp::Ordering> {
        Some(fp_cmp::<Seconds<T>, Rhs>(self, other))
    }
}

impl<T: TimeInt, Rhs: Duration> vstd::std_specs::cmp::PartialOrdSpecImpl<Rhs> for Seconds<T> {
    open spec fn obeys_partial_cmp_spec() -> bool {
        true
    }

    open spec fn partial_cmp_spec(&self, other: &Rhs) -> Option<core::cmp::Ordering> {
        Some(spec_fp_cmp::<Seconds<T>, Rhs>(*self, *other))
    }
}

impl<T: TimeInt, Rhs: Duration> core::ops::Add<Rhs> for Seconds<T> {
    type Output = Seconds<T>;

    fn add(self, rhs: Rhs) -> Seconds<T> {
        let r = fp_add::<Seconds<T>, Rhs>(self, rhs);
        proof {
            r.0.in_range();
            T::from_int_prop(r.0.as_int());
            r.0.as_int_injective(T::from_int(r.0.as_int()));
        }
        r
    }
}

impl<T: TimeInt, Rhs: Duration> vstd::std_specs::ops::AddSpecImpl<Rhs> for Seconds<T> {
    open spec fn obeys_add_spec() -> bool {
        true
    }

    open spec fn add_req(self, rhs: Rhs) -> bool {
        spec_fp_add_ok::<Seconds<T>, Rhs>(self, rhs)
    }

    open spec fn add_spec(self, rhs: Rhs) -> Seconds<T> {
        Seconds(T::from_int(self.ticks() + spec_converted::<Rhs, Seconds<T>>(rhs)->Ok_0))
    }
}

impl<T: TimeInt, Rhs: Duration> core::ops::Sub<Rhs> for Seconds<T> {
    type Output = Seconds<T>;

    fn sub(self, rhs: Rhs) -> Seconds<T> {
        let r = fp_sub::<Seconds<T>, Rhs>(self, rhs);
        proof {
            r.0.in_range();
            T::from_int_prop(r.0.as_int());
            r.0.as_int_injective(T::from_int(r.0.as_int()));
        }
        r
    }
}

impl<T: TimeInt, Rhs: Duration> vstd::std_specs::ops::SubSpecImpl<Rhs> for Seconds<T> {
    open spec fn obeys_sub_spec() -> bool {
        true
    }

    open spec fn sub_req(self, rhs: Rhs) -> bool {
        spec_fp_sub_ok::<Seconds<T>, Rhs>(self, rhs)
    }

    open spec fn sub_spec(self, rhs: Rhs) -> Seconds<T> {
        Seconds(T::from_int(self.ticks() - spec_converted::<Rhs, Seconds<T>>(rhs)->Ok_0))
    }
}

impl<T: TimeInt, Rhs: Duration> core::ops::Rem<Rhs> for Seconds<T> {
    type Output = Seconds<T>;

    fn rem(self, rhs: Rhs) -> Seconds<T> {
        let r = fp_rem::<Seconds<T>, Rhs>(self, rhs);
        proof {
            r.0.in_range();
            T::from_int_prop(r.0.as_int());
            r.0.as_int_injective(T::from_int(r.0.as_int()));
        }
        r
    }
}

impl<T: TimeInt, Rhs: Duration> vstd::std_specs::ops::RemSpecImpl<Rhs> for Seconds<T> {
    open spec fn obeys_rem_spec() -> bool {
        true
    }

    open spec fn rem_req(self, rhs: Rhs) -> bool {
        true
    }

    open spec fn rem_spec(self, rhs: Rhs) -> Seconds<T> {
        Seconds(T::from_int(spec_fp_rem::<Seconds<T>, Rhs>(self, rhs)))
    }
}

impl<S: TimeInt, T: TimeInt> TryFrom<Generic<S>> for Seconds<T> {
    type Error = ConversionError;

    fn try_from(generic_duration: Generic<S>) -> Result<Seconds<T>, ConversionError> {
        let r = from_ticks::<S, Seconds<T>>(
            *generic_duration.integer(),
            *generic_duration.scaling_factor(),
        );
        proof {
            if let Ok(d) = r {
                d.0.in_range();
                T::from_int_prop(d.0.as_int());
                d.0.as_int_injective(T::from_int(d.0.as_int()));
            }
        }
        r
    }
}

impl<S: TimeInt, T: TimeInt> vstd::std_specs::convert::TryFromSpecImpl<Generic<S>> for Seconds<T> {
    open spec fn obeys_try_from_spec() -> bool {
        true
    }

    open spec fn try_from_spec(v: Generic<S>) -> Result<Seconds<T>, ConversionError> {
        match spec_from_generic::<S, Seconds<T>>(v.ticks(), v.factor()) {
            Ok(q) => Ok(Seconds(T::from_int(q))),
            Err(e) => Err(e),
        }
    }
}

impl<T: TimeInt> From<Seconds<T>> for Generic<T> {
    fn from(duration: Seconds<T>) -> Generic<T> {
        let f = <Seconds<T> as FixedPoint>::scaling_factor();
        let r = Generic::new(duration.0, f);
        proof {
            let sn = <Seconds<T> as FixedPoint>::scale_num();
            let sd = <Seconds<T> as FixedPoint>::scale_den();
            <Seconds<T> as FixedPoint>::scale_positive();
            lemma_spec_fraction(sn, sd);
            lemma_fraction_parts_determine(f, spec_fraction(sn, sd));
            lemma_spec_generic(duration.0, spec_fraction(sn, sd));
            lemma_generic_parts_determine(r, spec_generic(duration.0, spec_fraction(sn, sd)));
        }
        r
    }
}

impl<T: TimeInt> vstd::std_specs::convert::FromSpecImpl<Seconds<T>> for Generic<T> {
    open spec fn obeys_from_spec() -> bool {
        true
    }

    open spec fn from_spec(v: Seconds<T>) -> Generic<T> {
        spec_generic(
            v.0,
            spec_fraction(
                <Seconds<T> as FixedPoint>::scale_num(),
                <Seconds<T> as FixedPoint>::scale_den(),
            ),
        )
    }
}

/// A whole-hours duration unit.
#[derive(Copy, Clone, Debug, Hash, Default)]
pub struct Hours<T: TimeInt = u32>(pub T);

impl<T: TimeInt> Hours<T> {
    /// Wraps a magnitude expressed in this unit.
    pub fn new(value: T) -> (r: Self)
        ensures
            r.ticks() == value.as_int(),
    {
        Self(value)
    }
}

impl<T: TimeInt> FixedPoint for Hours<T> {
    type T = T;

    open spec fn ticks(self) -> int {
        self.0.as_int()
    }

    open spec fn scale_num() -> int {
        3600
    }

    open spec fn scale_den() -> int {
        1
    }

    proof fn ticks_in_range(self) {
        self.0.in_range();
    }

    proof fn scale_positive() {
    }

    fn scaling_factor() -> Fraction {
        Fraction::new(3600, 1)
    }

    fn new(value: T) -> Self {
        Self(value)
    }

    fn integer(&self) -> &T {
        &self.0
    }
}

impl<T: TimeInt> Duration for Hours<T> {

}

impl<T: TimeInt, Rhs: Duration> PartialEq<Rhs> for Hours<T> {
    fn eq(&self, other: &Rhs) -> bool {
        fp_eq::<Hours<T>, Rhs>(self, other)
    }
}

impl<T: TimeInt, Rhs: Duration> vstd::std_specs::cmp::PartialEqSpecImpl<Rhs> for Hours<T> {
    open spec fn obeys_eq_spec() -> bool {
        true
    }

    open spec fn eq_spec(&self, other: &Rhs) -> bool {
        spec_fp_eq::<Hours<T>, Rhs>(*self, *other)
    }
}


impl<T: TimeInt, Rhs: Duration> PartialOrd<Rhs> for Hours<T> {
    fn partial_cmp(&self, other: &Rhs) -> Option<core::cmp::Ordering> {
        Some(fp_cmp::<Hours<T>, Rhs>(self, other))
    }
}

impl<T: TimeInt, Rhs: Duration> vstd::std_specs::cmp::PartialOrdSpecImpl<Rhs> for Hours<T> {
    open spec fn obeys_partial_cmp_spec() -> bool {
        true
    }

    open spec fn partial_cmp_spec(&self, other: &Rhs) -> Option<core::cmp::Ordering> {
        Some(spec_fp_cmp::<Hours<T>, Rhs>(*self, *other))
    }
}

impl<T: TimeInt, Rhs: Duration> core::ops::Add<Rhs> for Hours<T> {
    type Output = Hours<T>;

    fn add(self, rhs: Rhs) -> Hours<T> {
        let r = fp_add::<Hours<T>, Rhs>(self, rhs);
        proof {
            r.0.in_range();
            T::from_int_prop(r.0.as_int());
            r.0.as_int_injective(T::from_int(r.0.as_int()));
        }
        r
    }
}

impl<T: TimeInt, Rhs: Duration> vstd::std_specs::ops::AddSpecImpl<Rhs> for Hours<T> {
    open spec fn obeys_add_spec() -> bool {
        true
    }

    open spec fn add_req(self, rhs: Rhs) -> bool {
        spec_fp_add_ok::<Hours<T>, Rhs>(self, rhs)
    }

    open spec fn add_spec(self, rhs: Rhs) -> Hours<T> {
        Hours(T::from_int(self.ticks() + spec_converted::<Rhs, Hours<T>>(rhs)->Ok_0))
    }
}

impl<T: TimeInt, Rhs: Duration> core::ops::Sub<Rhs> for Hours<T> {
    type Output = Hours<T>;

    fn sub(self, rhs: Rhs) -> Hours<T> {
        let r = fp_sub::<Hours<T>, Rhs>(self, rhs);
        proof {
            r.0.in_range();
            T::from_int_prop(r.0.as_int());
            r.0.as_int_injective(T::from_int(r.0.as_int()));
        }
        r
    }
}

impl<T: TimeInt, Rhs: Duration> vstd::std_specs::ops::SubSpecImpl<Rhs> for Hours<T> {
    open spec fn obeys_sub_spec() -> bool {
        true
    }

    open spec fn sub_req(self, rhs: Rhs) -> bool {
        spec_fp_sub_ok::<Hours<T>, Rhs>(self, rhs)
    }

    open spec fn sub_spec(self, rhs: Rhs) -> Hours<T> {
        Hours(T::from_int(self.ticks() - spec_converted::<Rhs, Hours<T>>(rhs)->Ok_0))
    }
}

impl<T: TimeInt, Rhs: Duration> core::ops::Rem<Rhs> for Hours<T> {
    type Output = Hours<T>;

    fn rem(self, rhs: Rhs) -> Hours<T> {
        let r = fp_rem::<Hours<T>, Rhs>(self, rhs);
        proof {
            r.0.in_range();
            T::from_int_prop(r.0.as_int());
            r.0.as_int_injective(T::from_int(r.0.as_int()));
        }
        r
    }
}

impl<T: TimeInt, Rhs: Duration> vstd::std_specs::ops::RemSpecImpl<Rhs> for Hours<T> {
    open spec fn obeys_rem_spec() -> bool {
        true
    }

    open spec fn rem_req(self, rhs: Rhs) -> bool {
        true
    }

    open spec fn rem_spec(self, rhs: Rhs) -> Hours<T> {
        Hours(T::from_int(spec_fp_rem::<Hours<T>, Rhs>(self, rhs)))
    }
}

impl<S: TimeInt, T: TimeInt> TryFrom<Generic<S>> for Hours<T> {
    type Error = ConversionError;

    fn try_from(generic_duration: Generic<S>) -> Result<Hours<T>, ConversionError> {
        let r = from_ticks::<S, Hours<T>>(
            *generic_duration.integer(),
            *generic_duration.scaling_factor(),
        );
        proof {
            if let Ok(d) = r {
                d.0.in_range();
                T::from_int_prop(d.0.as_int());
                d.0.as_int_injective(T::from_int(d.0.as_int()));
            }
        }
        r
    }
}

impl<S: TimeInt, T: TimeInt> vstd::std_specs::convert::TryFromSpecImpl<Generic<S>> for Hours<T> {
    open spec fn obeys_try_from_spec() -> bool {
        true
    }

    open spec fn try_from_spec(v: Generic<S>) -> Result<Hours<T>, ConversionError> {
        match spec_from_generic::<S, Hours<T>>(v.ticks(), v.factor()) {
            Ok(q) => Ok(Hours(T::from_int(q))),
            Err(e) => Err(e),
        }
    }
}

impl<T: TimeInt> From<Hours<T>> for Generic<T> {
    fn from(duration: Hours<T>) -> Generic<T> {
        let f = <Hours<T> as FixedPoint>::scaling_factor();
        let r = Generic::new(duration.0, f);
        proof {
            let sn = <Hours<T> as FixedPoint>::scale_num();
            let sd = <Hours<T> as FixedPoint>::scale_den();
            <Hours<T> as FixedPoint>::scale_positive();
            lemma_spec_fraction(sn, sd);
            lemma_fraction_parts_determine(f, spec_fraction(sn, sd));
            lemma_spec_generic(duration.0, spec_fraction(sn, sd));
            lemma_generic_parts_determine(r, spec_generic(duration.0, spec_fraction(sn, sd)));
        }
        r
    }
}

impl<T: TimeInt> vstd::std_specs::convert::FromSpecImpl<Hours<T>> for Generic<T> {
    open spec fn obeys_from_spec() -> bool {
        true
    }

    open spec fn from_spec(v: Hours<T>) -> Generic<T> {
        spec_generic(
            v.0,
            spec_fraction(
                <Hours<T> as FixedPoint>::scale_num(),
                <Hours<T> as FixedPoint>::scale_den(),
            ),
        )
    }
}

/// A whole-minutes duration unit.
#[derive(Copy, Clone, Debug, Hash, Default)]
pub struct Minutes<T: TimeInt = u32>(pub T);

impl<T: TimeInt> Minutes<T> {
    /// Wraps a magnitude expressed in this unit.
    pub fn new(value: T) -> (r: Self)
        ensures
            r.ticks() == value.as_int(),
    {
        Self(value)
    }
}

impl<T: TimeInt> FixedPoint for Minutes<T> {
    type T = T;

    open spec fn ticks(self) -> int {
        self.0.as_int()
    }

    open spec fn scale_num() -> int {
        60
    }

    open spec fn scale_den() -> int {
        1
    }

    proof fn ticks_in_range(self) {
        self.0.in_range();
    }

    proof fn scale_positive() {
    }

    fn scaling_factor() -> Fraction {
        Fraction::new(60, 1)
    }

    fn new(value: T) -> Self {
        Self(value)
    }

    fn integer(&self) -> &T {
        &self.0
    }
}

impl<T: TimeInt> Duration for Minutes<T> {

}

impl<T: TimeInt, Rhs: Duration> PartialEq<Rhs> for Minutes<T> {
    fn eq(&self, other: &Rhs) -> bool {
        fp_eq::<Minutes<T>, Rhs>(self, other)
    }
}

impl<T: TimeInt, Rhs: Duration> vstd::std_specs::cmp::PartialEqSpecImpl<Rhs> for Minutes<T> {
    open spec fn obeys_eq_spec() -> bool {
        true
    }

    open spec fn eq_spec(&self, other: &Rhs) -> bool {
        spec_fp_eq::<Minutes<T>, Rhs>(*self, *other)
    }
}


impl<T: TimeInt, Rhs: Duration> PartialOrd<Rhs> for Minutes<T> {
    fn partial_cmp(&self, other: &Rhs) -> Option<core::cmp::Ordering> {
        Some(fp_cmp::<Minutes<T>, Rhs>(self, other))
    }
}

impl<T: TimeInt, Rhs: Duration> vstd::std_specs::cmp::PartialOrdSpecImpl<Rhs> for Minutes<T> {
    open spec fn obeys_partial_cmp_spec() -> bool {
        true
    }

    open spec fn partial_cmp_spec(&self, other: &Rhs) -> Option<core::cmp::Ordering> {
        Some(spec_fp_cmp::<Minutes<T>, Rhs>(*self, *other))
    }
}

impl<T: TimeInt, Rhs: Duration> core::ops::Add<Rhs> for Minutes<T> {
    type Output = Minutes<T>;

    fn add(self, rhs: Rhs) -> Minutes<T> {
        let r = fp_add::<Minutes<T>, Rhs>(self, rhs);
        proof {
            r.0.in_range();
            T::from_int_prop(r.0.as_int());
            r.0.as_int_injective(T::from_int(r.0.as_int()));
        }
        r
    }
}

impl<T: TimeInt, Rhs: Duration> vstd::std_specs::ops::AddSpecImpl<Rhs> for Minutes<T> {
    open spec fn obeys_add_spec() -> bool {
        true
    }

    open spec fn add_req(self, rhs: Rhs) -> bool {
        spec_fp_add_ok::<Minutes<T>, Rhs>(self, rhs)
    }

    open spec fn add_spec(self, rhs: Rhs) -> Minutes<T> {
        Minutes(T::from_int(self.ticks() + spec_converted::<Rhs, Minutes<T>>(rhs)->Ok_0))
    }
}

impl<T: TimeInt, Rhs: Duration> core::ops::Sub<Rhs> for Minutes<T> {
    type Output = Minutes<T>;

    fn sub(self, rhs: Rhs) -> Minutes<T> {
        let r = fp_sub::<Minutes<T>, Rhs>(self, rhs);
        proof {
            r.0.in_range();
            T::from_int_prop(r.0.as_int());
            r.0.as_int_injective(T::from_int(r.0.as_int()));
        }
        r
    }
}

impl<T: TimeInt, Rhs: Duration> vstd::std_specs::ops::SubSpecImpl<Rhs> for Minutes<T> {
    open spec fn obeys_sub_spec() -> bool {
        true
    }

    open spec fn sub_req(self, rhs: Rhs) -> bool {
        spec_fp_sub_ok::<Minutes<T>, Rhs>(self, rhs)
    }

    open spec fn sub_spec(self, rhs: Rhs) -> Minutes<T> {
        Minutes(T::from_int(self.ticks() - spec_converted::<Rhs, Minutes<T>>(rhs)->Ok_0))
    }
}

impl<T: TimeInt, Rhs: Duration> core::ops::Rem<Rhs> for Minutes<T> {
    type Output = Minutes<T>;

    fn rem(self, rhs: Rhs) -> Minutes<T> {
        let r = fp_rem::<Minutes<T>, Rhs>(self, rhs);
        proof {
            r.0.in_range();
            T::from_int_prop(r.0.as_int());
            r.0.as_int_injective(T::from_int(r.0.as_int()));
        }
        r
    }
}

impl<T: TimeInt, Rhs: Duration> vstd::std_specs::ops::RemSpecImpl<Rhs> for Minutes<T> {
    open spec fn obeys_rem_spec() -> bool {
        true
    }

    open spec fn rem_req(self, rhs: Rhs) -> bool {
        true
    }

    open spec fn rem_spec(self, rhs: Rhs) -> Minutes<T> {
        Minutes(T::from_int(spec_fp_rem::<Minutes<T>, Rhs>(self, rhs)))
    }
}

impl<S: TimeInt, T: TimeInt> TryFrom<Generic<S>> for Minutes<T> {
    type Error = ConversionError;

    fn try_from(generic_duration: Generic<S>) -> Result<Minutes<T>, ConversionError> {
        let r = from_ticks::<S, Minutes<T>>(
            *generic_duration.integer(),
            *generic_duration.scaling_factor(),
        );
        proof {
            if let Ok(d) = r {
                d.0.in_range();
                T::from_int_prop(d.0.as_int());
                d.0.as_int_injective(T::from_int(d.0.as_int()));
            }
        }
        r
    }
}

impl<S: TimeInt, T: TimeInt> vstd::std_specs::convert::TryFromSpecImpl<Generic<S>> for Minutes<T> {
    open spec fn obeys_try_from_spec() -> bool {
        true
    }

    open spec fn try_from_spec(v: Generic<S>) -> Result<Minutes<T>, ConversionError> {
        match spec_from_generic::<S, Minutes<T>>(v.ticks(), v.factor()) {
            Ok(q) => Ok(Minutes(T::from_int(q))),
            Err(e) => Err(e),
        }
    }
}

impl<T: TimeInt> From<Minutes<T>> for Generic<T> {
    fn from(duration: Minutes<T>) -> Generic<T> {
        let f = <Minutes<T> as FixedPoint>::scaling_factor();
        let r = Generic::new(duration.0, f);
        proof {
            let sn = <Minutes<T> as FixedPoint>::scale_num();
            let sd = <Minutes<T> as FixedPoint>::scale_den();
            <Minutes<T> as FixedPoint>::scale_positive();
            lemma_spec_fraction(sn, sd);
            lemma_fraction_parts_determine(f, spec_fraction(sn, sd));
            lemma_spec_generic(duration.0, spec_fraction(sn, sd));
            lemma_generic_parts_determine(r, spec_generic(duration.0, spec_fraction(sn, sd)));
        }
        r
    }
}

impl<T: TimeInt> vstd::std_specs::convert::FromSpecImpl<Minutes<T>> for Generic<T> {
    open spec fn obeys_from_spec() -> bool {
        true
    }

    open spec fn from_spec(v: Minutes<T>) -> Generic<T> {
        spec_generic(
            v.0,
            spec_fraction(
                <Minutes<T> as FixedPoint>::scale_num(),
                <Minutes<T> as FixedPoint>::scale_den(),
            ),
        )
    }
}

/// A milliseconds duration unit.
#[derive(Copy, Clone, Debug, Hash, Default)]
pub struct Milliseconds<T: TimeInt = u32>(pub T);

impl<T: TimeInt> Milliseconds<T> {
    /// Wraps a magnitude expressed in this unit.
    pub fn new(value: T) -> (r: Self)
        ensures
            r.ticks() == value.as_int(),
    {
        Self(value)
    }
}

impl<T: TimeInt> FixedPoint for Milliseconds<T> {
    type T = T;

    open spec fn ticks(self) -> int {
        self.0.as_int()
    }

    open spec fn scale_num() -> int {
        1
    }

    open spec fn scale_den() -> int {
        1_000
    }

    proof fn ticks_in_range(self) {
        self.0.in_range();
    }

    proof fn scale_positive() {
    }

    fn scaling_factor() -> Fraction {
        Fraction::new(1, 1_000)
    }

    fn new(value: T) -> Self {
        Self(value)
    }

    fn integer(&self) -> &T {
        &self.0
    }
}

impl<T: TimeInt> Duration for Milliseconds<T> {

}

impl<T: TimeInt, Rhs: Duration> PartialEq<Rhs> for Milliseconds<T> {
    fn eq(&self, other: &Rhs) -> bool {
        fp_eq::<Milliseconds<T>, Rhs>(self, other)
    }
}

impl<T: TimeInt, Rhs: Duration> vstd::std_specs::cmp::PartialEqSpecImpl<Rhs> for Milliseconds<T> {
    open spec fn obeys_eq_spec() -> bool {
        true
    }

    open spec fn eq_spec(&self, other: &Rhs) -> bool {
        spec_fp_eq::<Milliseconds<T>, Rhs>(*self, *other)
    }
}


impl<T: TimeInt, Rhs: Duration> PartialOrd<Rhs> for Milliseconds<T> {
    fn partial_cmp(&self, other: &Rhs) -> Option<core::cmp::Ordering> {
        Some(fp_cmp::<Milliseconds<T>, Rhs>(self, other))
    }
}

impl<T: TimeInt, Rhs: Duration> vstd::std_specs::cmp::PartialOrdSpecImpl<Rhs> for Milliseconds<T> {
    open spec fn obeys_partial_cmp_spec() -> bool {
        true
    }

    open spec fn partial_cmp_spec(&self, other: &Rhs) -> Option<core::cmp::Ordering> {
        Some(spec_fp_cmp::<Milliseconds<T>, Rhs>(*self, *other))
    }
}

impl<T: TimeInt, Rhs: Duration> core::ops::Add<Rhs> for Milliseconds<T> {
    type Output = Milliseconds<T>;

    fn add(self, rhs: Rhs) -> Milliseconds<T> {
        let r = fp_add::<Milliseconds<T>, Rhs>(self, rhs);
        proof {
            r.0.in_range();
            T::from_int_prop(r.0.as_int());
            r.0.as_int_injective(T::from_int(r.0.as_int()));
        }
        r
    }
}

impl<T: TimeInt, Rhs: Duration> vstd::std_specs::ops::AddSpecImpl<Rhs> for Milliseconds<T> {
    open spec fn obeys_add_spec() -> bool {
        true
    }

    open spec fn add_req(self, rhs: Rhs) -> bool {
        spec_fp_add_ok::<Milliseconds<T>, Rhs>(self, rhs)
    }

    open spec fn add_spec(self, rhs: Rhs) -> Milliseconds<T> {
        Milliseconds(T::from_int(self.ticks() + spec_converted::<Rhs, Milliseconds<T>>(rhs)->Ok_0))
    }
}

impl<T: TimeInt, Rhs: Duration> core::ops::Sub<Rhs> for Milliseconds<T> {
    type Output = Milliseconds<T>;

    fn sub(self, rhs: Rhs) -> Milliseconds<T> {
        let r = fp_sub::<Milliseconds<T>, Rhs>(self, rhs);
        proof {
            r.0.in_range();
            T::from_int_prop(r.0.as_int());
            r.0.as_int_injective(T::from_int(r.0.as_int()));
        }
        r
    }
}

impl<T: TimeInt, Rhs: Duration> vstd::std_specs::ops::SubSpecImpl<Rhs> for Milliseconds<T> {
    open spec fn obeys_sub_spec() -> bool {
        true
    }

    open spec fn sub_req(self, rhs: Rhs) -> bool {
        spec_fp_sub_ok::<Milliseconds<T>, Rhs>(self, rhs)
    }

    open spec fn sub_spec(self, rhs: Rhs) -> Milliseconds<T> {
        Milliseconds(T::from_int(self.ticks() - spec_converted::<Rhs, Milliseconds<T>>(rhs)->Ok_0))
    }
}

impl<T: TimeInt, Rhs: Duration> core::ops::Rem<Rhs> for Milliseconds<T> {
    type Output = Milliseconds<T>;

    fn rem(self, rhs: Rhs) -> Milliseconds<T> {
        let r = fp_rem::<Milliseconds<T>, Rhs>(self, rhs);
        proof {
            r.0.in_range();
            T::from_int_prop(r.0.as_int());
            r.0.as_int_injective(T::from_int(r.0.as_int()));
        }
        r
    }
}

impl<T: TimeInt, Rhs: Duration> vstd::std_specs::ops::RemSpecImpl<Rhs> for Milliseconds<T> {
    open spec fn obeys_rem_spec() -> bool {
        true
    }

    open spec fn rem_req(self, rhs: Rhs) -> bool {
        true
    }

    open spec fn rem_spec(self, rhs: Rhs) -> Milliseconds<T> {
        Milliseconds(T::from_int(spec_fp_rem::<Milliseconds<T>, Rhs>(self, rhs)))
    }
}

impl<S: TimeInt, T: TimeInt> TryFrom<Generic<S>> for Milliseconds<T> {
    type Error = ConversionError;

    fn try_from(generic_duration: Generic<S>) -> Result<Milliseconds<T>, ConversionError> {
        let r = from_ticks::<S, Milliseconds<T>>(
            *generic_duration.integer(),
            *generic_duration.scaling_factor(),
        );
        proof {
            if let Ok(d) = r {
                d.0.in_range();
                T::from_int_prop(d.0.as_int());
                d.0.as_int_injective(T::from_int(d.0.as_int()));
            }
        }
        r
    }
}

impl<S: TimeInt, T: TimeInt> vstd::std_specs::convert::TryFromSpecImpl<Generic<S>> for Milliseconds<T> {
    open spec fn obeys_try_from_spec() -> bool {
        true
    }

    open spec fn try_from_spec(v: Generic<S>) -> Result<Milliseconds<T>, ConversionError> {
        match spec_from_generic::<S, Milliseconds<T>>(v.ticks(), v.factor()) {
            Ok(q) => Ok(Milliseconds(T::from_int(q))),
            Err(e) => Err(e),
        }
    }
}

impl<T: TimeInt> From<Milliseconds<T>> for Generic<T> {
    fn from(duration: Milliseconds<T>) -> Generic<T> {
        let f = <Milliseconds<T> as FixedPoint>::scaling_factor();
        let r = Generic::new(duration.0, f);
        proof {
            let sn = <Milliseconds<T> as FixedPoint>::scale_num();
            let sd = <Milliseconds<T> as FixedPoint>::scale_den();
            <Milliseconds<T> as FixedPoint>::scale_positive();
            lemma_spec_fraction(sn, sd);
            lemma_fraction_parts_determine(f, spec_fraction(sn, sd));
            lemma_spec_generic(duration.0, spec_fraction(sn, sd));
            lemma_generic_parts_determine(r, spec_generic(duration.0, spec_fraction(sn, sd)));
        }
        r
    }
}

impl<T: TimeInt> vstd::std_specs::convert::FromSpecImpl<Milliseconds<T>> for Generic<T> {
    open spec fn obeys_from_spec() -> bool {
        true
    }

    open spec fn from_spec(v: Milliseconds<T>) -> Generic<T> {
        spec_generic(
            v.0,
            spec_fraction(
                <Milliseconds<T> as FixedPoint>::scale_num(),
                <Milliseconds<T> as FixedPoint>::scale_den(),
            ),
        )
    }
}

/// A microseconds duration unit.
#[derive(Copy, Clone, Debug, Hash, Default)]
pub struct Microseconds<T: TimeInt = u32>(pub T);

impl<T: TimeInt> Microseconds<T> {
    /// Wraps a magnitude expressed in this unit.
    pub fn new(value: T) -> (r: Self)
        ensures
            r.ticks() == value.as_int(),
    {
        Self(value)
    }
}

impl<T: TimeInt> FixedPoint for Microseconds<T> {
    type T = T;

    open spec fn ticks(self) -> int {
        self.0.as_int()
    }

    open spec fn scale_num() -> int {
        1
    }

    open spec fn scale_den() -> int {
        1_000_000
    }

    proof fn ticks_in_range(self) {
        self.0.in_range();
    }

    proof fn scale_positive() {
    }

    fn scaling_factor() -> Fraction {
        Fraction::new(1, 1_000_000)
    }

    fn new(value: T) -> Self {
        Self(value)
    }

    fn integer(&self) -> &T {
        &self.0
    }
}

impl<T: TimeInt> Duration for Microseconds<T> {

}

impl<T: TimeInt, Rhs: Duration> PartialEq<Rhs> for Microseconds<T> {
    fn eq(&self, other: &Rhs) -> bool {
        fp_eq::<Microseconds<T>, Rhs>(self, other)
    }
}

impl<T: TimeInt, Rhs: Duration> vstd::std_specs::cmp::PartialEqSpecImpl<Rhs> for Microseconds<T> {
    open spec fn obeys_eq_spec() -> bool {
        true
    }

    open spec fn eq_spec(&self, other: &Rhs) -> bool {
        spec_fp_eq::<Microseconds<T>, Rhs>(*self, *other)
    }
}


impl<T: TimeInt, Rhs: Duration> PartialOrd<Rhs> for Microseconds<T> {
    fn partial_cmp(&self, other: &Rhs) -> Option<core::cmp::Ordering> {
        Some(fp_cmp::<Microseconds<T>, Rhs>(self, other))
    }
}

impl<T: TimeInt, Rhs: Duration> vstd::std_specs::cmp::PartialOrdSpecImpl<Rhs> for Microseconds<T> {
    open spec fn obeys_partial_cmp_spec() -> bool {
        true
    }

    open spec fn partial_cmp_spec(&self, other: &Rhs) -> Option<core::cmp::Ordering> {
        Some(spec_fp_cmp::<Microseconds<T>, Rhs>(*self, *other))
    }
}

impl<T: TimeInt, Rhs: Duration> core::ops::Add<Rhs> for Microseconds<T> {
    type Output = Microseconds<T>;

    fn add(self, rhs: Rhs) -> Microseconds<T> {
        let r = fp_add::<Microseconds<T>, Rhs>(self, rhs);
        proof {
            r.0.in_range();
            T::from_int_prop(r.0.as_int());
            r.0.as_int_injective(T::from_int(r.0.as_int()));
        }
        r
    }
}

impl<T: TimeInt, Rhs: Duration> vstd::std_specs::ops::AddSpecImpl<Rhs> for Microseconds<T> {
    open spec fn obeys_add_spec() -> bool {
        true
    }

    open spec fn add_req(self, rhs: Rhs) -> bool {
        spec_fp_add_ok::<Microseconds<T>, Rhs>(self, rhs)
    }

    open spec fn add_spec(self, rhs: Rhs) -> Microseconds<T> {
        Microseconds(T::from_int(self.ticks() + spec_converted::<Rhs, Microseconds<T>>(rhs)->Ok_0))
    }
}

impl<T: TimeInt, Rhs: Duration> core::ops::Sub<Rhs> for Microseconds<T> {
    type Output = Microseconds<T>;

    fn sub(self, rhs: Rhs) -> Microseconds<T> {
        let r = fp_sub::<Microseconds<T>, Rhs>(self, rhs);
        proof {
            r.0.in_range();
            T::from_int_prop(r.0.as_int());
            r.0.as_int_injective(T::from_int(r.0.as_int()));
        }
        r
    }
}

impl<T: TimeInt, Rhs: Duration> vstd::std_specs::ops::SubSpecImpl<Rhs> for Microseconds<T> {
    open spec fn obeys_sub_spec() -> bool {
        true
    }

    open spec fn sub_req(self, rhs: Rhs) -> bool {
        spec_fp_sub_ok::<Microseconds<T>, Rhs>(self, rhs)
    }

    open spec fn sub_spec(self, rhs: Rhs) -> Microseconds<T> {
        Microseconds(T::from_int(self.ticks() - spec_converted::<Rhs, Microseconds<T>>(rhs)->Ok_0))
    }
}

impl<T: TimeInt, Rhs: Duration> core::ops::Rem<Rhs> for Microseconds<T> {
    type Output = Microseconds<T>;

    fn rem(self, rhs: Rhs) -> Microseconds<T> {
        let r = fp_rem::<Microseconds<T>, Rhs>(self, rhs);
        proof {
            r.0.in_range();
            T::from_int_prop(r.0.as_int());
            r.0.as_int_injective(T::from_int(r.0.as_int()));
        }
        r
    }
}

impl<T: TimeInt, Rhs: Duration> vstd::std_specs::ops::RemSpecImpl<Rhs> for Microseconds<T> {
    open spec fn obeys_rem_spec() -> bool {
        true
    }

    open spec fn rem_req(self, rhs: Rhs) -> bool {
        true
    }

    open spec fn rem_spec(self, rhs: Rhs) -> Microseconds<T> {
        Microseconds(T::from_int(spec_fp_rem::<Microseconds<T>, Rhs>(self, rhs)))
    }
}

impl<S: TimeInt, T: TimeInt> TryFrom<Generic<S>> for Microseconds<T> {
    type Error = ConversionError;

    fn try_from(generic_duration: Generic<S>) -> Result<Microseconds<T>, ConversionError> {
        let r = from_ticks::<S, Microseconds<T>>(
            *generic_duration.integer(),
            *generic_duration.scaling_factor(),
        );
        proof {
            if let Ok(d) = r {
                d.0.in_range();
                T::from_int_prop(d.0.as_int());
                d.0.as_int_injective(T::from_int(d.0.as_int()));
            }
        }
        r
    }
}

impl<S: TimeInt, T: TimeInt> vstd::std_specs::convert::TryFromSpecImpl<Generic<S>> for Microseconds<T> {
    open spec fn obeys_try_from_spec() -> bool {
        true
    }

    open spec fn try_from_spec(v: Generic<S>) -> Result<Microseconds<T>, ConversionError> {
        match spec_from_generic::<S, Microseconds<T>>(v.ticks(), v.factor()) {
            Ok(q) => Ok(Microseconds(T::from_int(q))),
            Err(e) => Err(e),
        }
    }
}

impl<T: TimeInt> From<Microseconds<T>> for Generic<T> {
    fn from(duration: Microseconds<T>) -> Generic<T> {
        let f = <Microseconds<T> as FixedPoint>::scaling_factor();
        let r = Generic::new(duration.0, f);
        proof {
            let sn = <Microseconds<T> as FixedPoint>::scale_num();
            let sd = <Microseconds<T> as FixedPoint>::scale_den();
            <Microseconds<T> as FixedPoint>::scale_positive();
            lemma_spec_fraction(sn, sd);
            lemma_fraction_parts_determine(f, spec_fraction(sn, sd));
            lemma_spec_generic(duration.0, spec_fraction(sn, sd));
            lemma_generic_parts_determine(r, spec_generic(duration.0, spec_fraction(sn, sd)));
        }
        r
    }
}

impl<T: TimeInt> vstd::std_specs::convert::FromSpecImpl<Microseconds<T>> for Generic<T> {
    open spec fn obeys_from_spec() -> bool {
        true
    }

    open spec fn from_spec(v: Microseconds<T>) -> Generic<T> {
        spec_generic(
            v.0,
            spec_fraction(
                <Microseconds<T> as FixedPoint>::scale_num(),
                <Microseconds<T> as FixedPoint>::scale_den(),
            ),
        )
    }
}

/// A nanoseconds duration unit.
#[derive(Copy, Clone, Debug, Hash, Default)]
pub struct Nanoseconds<T: TimeInt = u32>(pub T);

impl<T: TimeInt> Nanoseconds<T> {
    /// Wraps a magnitude expressed in this unit.
    pub fn new(value: T) -> (r: Self)
        ensures
            r.ticks() == value.as_int(),
    {
        Self(value)
    }
}

impl<T: TimeInt> FixedPoint for Nanoseconds<T> {
    type T = T;

    open spec fn ticks(self) -> int {
        self.0.as_int()
    }

    open spec fn scale_num() -> int {
        1
    }

    open spec fn scale_den() -> int {
        1_000_000_000
    }

    proof fn ticks_in_range(self) {
        self.0.in_range();
    }

    proof fn scale_positive() {
    }

    fn scaling_factor() -> Fraction {
        Fraction::new(1, 1_000_000_000)
    }

    fn new(value: T) -> Self {
        Self(value)
    }

    fn integer(&self) -> &T {
        &self.0
    }
}

impl<T: TimeInt> Duration for Nanoseconds<T> {

}

impl<T: TimeInt, Rhs: Duration> PartialEq<Rhs> for Nanoseconds<T> {
    fn eq(&self, other: &Rhs) -> bool {
        fp_eq::<Nanoseconds<T>, Rhs>(self, other)
    }
}

impl<T: TimeInt, Rhs: Duration> vstd::std_specs::cmp::PartialEqSpecImpl<Rhs> for Nanoseconds<T> {
    open spec fn obeys_eq_spec() -> bool {
        true
    }

    open spec fn eq_spec(&self, other: &Rhs) -> bool {
        spec_fp_eq::<Nanoseconds<T>, Rhs>(*self, *other)
    }
}


impl<T: TimeInt, Rhs: Duration> PartialOrd<Rhs> for Nanoseconds<T> {
    fn partial_cmp(&self, other: &Rhs) -> Option<core::cmp::Ordering> {
        Some(fp_cmp::<Nanoseconds<T>, Rhs>(self, other))
    }
}

impl<T: TimeInt, Rhs: Duration> vstd::std_specs::cmp::PartialOrdSpecImpl<Rhs> for Nanoseconds<T> {
    open spec fn obeys_partial_cmp_spec() -> bool {
        true
    }

    open spec fn partial_cmp_spec(&self, other: &Rhs) -> Option<core::cmp::Ordering> {
        Some(spec_fp_cmp::<Nanoseconds<T>, Rhs>(*self, *other))
    }
}

impl<T: TimeInt, Rhs: Duration> core::ops::Add<Rhs> for Nanoseconds<T> {
    type Output = Nanoseconds<T>;

    fn add(self, rhs: Rhs) -> Nanoseconds<T> {
        let r = fp_add::<Nanoseconds<T>, Rhs>(self, rhs);
        proof {
            r.0.in_range();
            T::from_int_prop(r.0.as_int());
            r.0.as_int_injective(T::from_int(r.0.as_int()));
        }
        r
    }
}

impl<T: TimeInt, Rhs: Duration> vstd::std_specs::ops::AddSpecImpl<Rhs> for Nanoseconds<T> {
    open spec fn obeys_add_spec() -> bool {
        true
    }

    open spec fn add_req(self, rhs: Rhs) -> bool {
        spec_fp_add_ok::<Nanoseconds<T>, Rhs>(self, rhs)
    }

    open spec fn add_spec(self, rhs: Rhs) -> Nanoseconds<T> {
        Nanoseconds(T::from_int(self.ticks() + spec_converted::<Rhs, Nanoseconds<T>>(rhs)->Ok_0))
    }
}

impl<T: TimeInt, Rhs: Duration> core::ops::Sub<Rhs> for Nanoseconds<T> {
    type Output = Nanoseconds<T>;

    fn sub(self, rhs: Rhs) -> Nanoseconds<T> {
        let r = fp_sub::<Nanoseconds<T>, Rhs>(self, rhs);
        proof {
            r.0.in_range();
            T::from_int_prop(r.0.as_int());
            r.0.as_int_injective(T::from_int(r.0.as_int()));
        }
        r
    }
}

impl<T: TimeInt, Rhs: Duration> vstd::std_specs::ops::SubSpecImpl<Rhs> for Nanoseconds<T> {
    open spec fn obeys_sub_spec() -> bool {
        true
    }

    open spec fn sub_req(self, rhs: Rhs) -> bool {
        spec_fp_sub_ok::<Nanoseconds<T>, Rhs>(self, rhs)
    }

    open spec fn sub_spec(self, rhs: Rhs) -> Nanoseconds<T> {
        Nanoseconds(T::from_int(self.ticks() - spec_converted::<Rhs, Nanoseconds<T>>(rhs)->Ok_0))
    }
}

impl<T: TimeInt, Rhs: Duration> core::ops::Rem<Rhs> for Nanoseconds<T> {
    type Output = Nanoseconds<T>;

    fn rem(self, rhs: Rhs) -> Nanoseconds<T> {
        let r = fp_rem::<Nanoseconds<T>, Rhs>(self, rhs);
        proof {
            r.0.in_range();
            T::from_int_prop(r.0.as_int());
            r.0.as_int_injective(T::from_int(r.0.as_int()));
        }
        r
    }
}

impl<T: TimeInt, Rhs: Duration> vstd::std_specs::ops::RemSpecImpl<Rhs> for Nanoseconds<T> {
    open spec fn obeys_rem_spec() -> bool {
        true
    }

    open spec fn rem_req(self, rhs: Rhs) -> bool {
        true
    }

    open spec fn rem_spec(self, rhs: Rhs) -> Nanoseconds<T> {
        Nanoseconds(T::from_int(spec_fp_rem::<Nanoseconds<T>, Rhs>(self, rhs)))
    }
}

impl<S: TimeInt, T: TimeInt> TryFrom<Generic<S>> for Nanoseconds<T> {
    type Error = ConversionError;

    fn try_from(generic_duration: Generic<S>) -> Result<Nanoseconds<T>, ConversionError> {
        let r = from_ticks::<S, Nanoseconds<T>>(
            *generic_duration.integer(),
            *generic_duration.scaling_factor(),
        );
        proof {
            if let Ok(d) = r {
                d.0.in_range();
                T::from_int_prop(d.0.as_int());
                d.0.as_int_injective(T::from_int(d.0.as_int()));
            }
        }
        r
    }
}

impl<S: TimeInt, T: TimeInt> vstd::std_specs::convert::TryFromSpecImpl<Generic<S>> for Nanoseconds<T> {
    open spec fn obeys_try_from_spec() -> bool {
        true
    }

    open spec fn try_from_spec(v: Generic<S>) -> Result<Nanoseconds<T>, ConversionError> {
        match spec_from_generic::<S, Nanoseconds<T>>(v.ticks(), v.factor()) {
            Ok(q) => Ok(Nanoseconds(T::from_int(q))),
            Err(e) => Err(e),
        }
    }
}

impl<T: TimeInt> From<Nanoseconds<T>> for Generic<T> {
    fn from(duration: Nanoseconds<T>) -> Generic<T> {
        let f = <Nanoseconds<T> as FixedPoint>::scaling_factor();
        let r = Generic::new(duration.0, f);
        proof {
            let sn = <Nanoseconds<T> as FixedPoint>::scale_num();
            let sd = <Nanoseconds<T> as FixedPoint>::scale_den();
            <Nanoseconds<T> as FixedPoint>::scale_positive();
            lemma_spec_fraction(sn, sd);
            lemma_fraction_parts_determine(f, spec_fraction(sn, sd));
            lemma_spec_generic(duration.0, spec_fraction(sn, sd));
            lemma_generic_parts_determine(r, spec_generic(duration.0, spec_fraction(sn, sd)));
        }
        r
    }
}

impl<T: TimeInt> vstd::std_specs::convert::FromSpecImpl<Nanoseconds<T>> for Generic<T> {
    open spec fn obeys_from_spec() -> bool {
        true
    }

    open spec fn from_spec(v: Nanoseconds<T>) -> Generic<T> {
        spec_generic(
            v.0,
            spec_fraction(
                <Nanoseconds<T> as FixedPoint>::scale_num(),
                <Nanoseconds<T> as FixedPoint>::scale_den(),
            ),
        )
    }
}

/// Construction of duration values directly from integer literals of a
/// magnitude representation: `5u32.seconds()` is `Seconds(5u32)`.
pub trait Extensions: TimeInt {
    /// A duration of `self` nanoseconds.
    fn nanoseconds(self) -> (r: Nanoseconds<Self>)
        ensures
            r.ticks() == self.as_int(),
    {
        Nanoseconds(self)
    }

    /// A duration of `self` microseconds.
    fn microseconds(self) -> (r: Microseconds<Self>)
        ensures
            r.ticks() == self.as_int(),
    {
        Microseconds(self)
    }

    /// A duration of `self` milliseconds.
    fn milliseconds(self) -> (r: Milliseconds<Self>)
        ensures
            r.ticks() == self.as_int(),
    {
        Milliseconds(self)
    }

    /// A duration of `self` seconds.
    fn seconds(self) -> (r: Seconds<Self>)
        ensures
            r.ticks() == self.as_int(),
    {
        Seconds(self)
    }

    /// A duration of `self` minutes.
    fn minutes(self) -> (r: Minutes<Self>)
        ensures
            r.ticks() == self.as_int(),
    {
        Minutes(self)
    }

    /// A duration of `self` hours.
    fn hours(self) -> (r: Hours<Self>)
        ensures
            r.ticks() == self.as_int(),
    {
        Hours(self)
    }
}

impl Extensions for u32 {

}

impl Extensions for u64 {

}

/// The total length of a native coarse duration, in nanoseconds.  A
/// `core::time::Duration` is opaque here, so its content is named rather
/// than defined; the trusted accessor specifications below all speak of
/// this one quantity.
pub uninterp spec fn core_duration_nanos(d: core::time::Duration) -> int;

/// Relies on `core::time::Duration::from_secs`: exactly the given count of
/// whole seconds, with no sub-second part.
pub assume_specification[ core::time::Duration::from_secs ](secs: u64) -> (r:
    core::time::Duration)
    ensures
        core_duration_nanos(r) == secs * 1_000_000_000,
;

/// Relies on `core::time::Duration::from_millis`: exactly the given count
/// of milliseconds.
pub assume_specification[ core::time::Duration::from_millis ](millis: u64) -> (r:
    core::time::Duration)
    ensures
        core_duration_nanos(r) == millis * 1_000_000,
;

/// Relies on `core::time::Duration::from_micros`: exactly the given count
/// of microseconds.
pub assume_specification[ core::time::Duration::from_micros ](micros: u64) -> (r:
    core::time::Duration)
    ensures
        core_duration_nanos(r) == micros * 1_000,
;

/// Relies on `core::time::Duration::from_nanos`: exactly the given count of
/// nanoseconds.
pub assume_specification[ core::time::Duration::from_nanos ](nanos: u64) -> (r:
    core::time::Duration)
    ensures
        core_duration_nanos(r) == nanos,
;

/// Relies on `core::time::Duration::as_secs`: the whole-seconds part,
/// sub-second remainder truncated away.
pub assume_specification[ core::time::Duration::as_secs ](d: &core::time::Duration) -> (r: u64)
    ensures
        r == core_duration_nanos(*d) / 1_000_000_000,
;

/// Relies on `core::time::Duration::as_millis`: the total whole
/// milliseconds.
pub assume_specification[ core::time::Duration::as_millis ](d: &core::time::Duration) -> (r:
    u128)
    ensures
        r == core_duration_nanos(*d) / 1_000_000,
;

/// Relies on `core::time::Duration::as_micros`: the total whole
/// microseconds.
pub assume_specification[ core::time::Duration::as_micros ](d: &core::time::Duration) -> (r:
    u128)
    ensures
        r == core_duration_nanos(*d) / 1_000,
;

/// Relies on `core::time::Duration::as_nanos`: the total nanoseconds.
pub assume_specification[ core::time::Duration::as_nanos ](d: &core::time::Duration) -> (r:
    u128)
    ensures
        r == core_duration_nanos(*d),
;

impl<T: TimeInt> TryFrom<core::time::Duration> for Nanoseconds<T> {
    type Error = ConversionError;

    fn try_from(core_duration: core::time::Duration) -> Result<Nanoseconds<T>, ConversionError> {
        let n = core_duration.as_nanos();
        match T::try_from_u128(n) {
            Some(t) => {
                proof {
                    t.in_range();
                    T::from_int_prop(t.as_int());
                    t.as_int_injective(T::from_int(t.as_int()));
                }
                Ok(Nanoseconds(t))
            },
            None => Err(ConversionError::ConversionFailure),
        }
    }
}

impl<T: TimeInt> vstd::std_specs::convert::TryFromSpecImpl<core::time::Duration> for Nanoseconds<T> {
    open spec fn obeys_try_from_spec() -> bool {
        true
    }

    open spec fn try_from_spec(v: core::time::Duration) -> Result<Nanoseconds<T>, ConversionError> {
        if core_duration_nanos(v) <= T::max_int() {
            Ok(Nanoseconds(T::from_int(core_duration_nanos(v))))
        } else {
            Err(ConversionError::ConversionFailure)
        }
    }
}

impl<T: TimeInt> TryFrom<Nanoseconds<T>> for core::time::Duration {
    type Error = ConversionError;

    fn try_from(duration: Nanoseconds<T>) -> (r: Result<core::time::Duration, ConversionError>)
        ensures
            r matches Ok(cd) && core_duration_nanos(cd) == duration.ticks(),
    {
        proof {
            duration.0.in_range();
            <T as TimeInt>::max_bound();
        }
        let v = duration.0.to_u128();
        Ok(core::time::Duration::from_nanos(v as u64))
    }
}

impl<T: TimeInt> vstd::std_specs::convert::TryFromSpecImpl<Nanoseconds<T>> for core::time::Duration {
    open spec fn obeys_try_from_spec() -> bool {
        false
    }

    open spec fn try_from_spec(v: Nanoseconds<T>) -> Result<core::time::Duration, ConversionError> {
        arbitrary()
    }
}


impl<T: TimeInt> TryFrom<core::time::Duration> for Hours<T> {
    type Error = ConversionError;

    fn try_from(core_duration: core::time::Duration) -> Result<Hours<T>, ConversionError> {
        let secs = core_duration.as_secs();
        let s = Seconds::<u64>(secs);
        let r = try_convert_from::<Seconds<u64>, Hours<T>>(s);
        proof {
            <u64 as TimeInt>::from_int_prop(secs as int);
            secs.as_int_injective(<u64 as TimeInt>::from_int(secs as int));
            if let Ok(d) = r {
                d.0.in_range();
                T::from_int_prop(d.0.as_int());
                d.0.as_int_injective(T::from_int(d.0.as_int()));
            }
        }
        r
    }
}

impl<T: TimeInt> vstd::std_specs::convert::TryFromSpecImpl<core::time::Duration> for Hours<T> {
    open spec fn obeys_try_from_spec() -> bool {
        true
    }

    open spec fn try_from_spec(v: core::time::Duration) -> Result<Hours<T>, ConversionError> {
        match spec_converted::<Seconds<u64>, Hours<T>>(
            Seconds(<u64 as TimeInt>::from_int(core_duration_nanos(v) / 1_000_000_000)),
        ) {
            Ok(q) => Ok(Hours(T::from_int(q))),
            Err(e) => Err(e),
        }
    }
}

impl<T: TimeInt> TryFrom<Hours<T>> for core::time::Duration {
    type Error = ConversionError;

    fn try_from(duration: Hours<T>) -> (r: Result<core::time::Duration, ConversionError>)
        ensures
            match (r, spec_converted::<Hours<T>, Seconds<u64>>(duration)) {
                (Ok(cd), Ok(secs)) => core_duration_nanos(cd) == secs * 1_000_000_000,
                (Err(a), Err(b)) => a == b,
                _ => false,
            },
    {
        match try_convert_from::<Hours<T>, Seconds<u64>>(duration) {
            Ok(seconds) => Ok(core::time::Duration::from_secs(seconds.0)),
            Err(e) => Err(e),
        }
    }
}

impl<T: TimeInt> vstd::std_specs::convert::TryFromSpecImpl<Hours<T>> for core::time::Duration {
    open spec fn obeys_try_from_spec() -> bool {
        false
    }

    open spec fn try_from_spec(v: Hours<T>) -> Result<core::time::Duration, ConversionError> {
        arbitrary()
    }
}

impl<T: TimeInt> TryFrom<core::time::Duration> for Minutes<T> {
    type Error = ConversionError;

    fn try_from(core_duration: core::time::Duration) -> Result<Minutes<T>, ConversionError> {
        let secs = core_duration.as_secs();
        let s = Seconds::<u64>(secs);
        let r = try_convert_from::<Seconds<u64>, Minutes<T>>(s);
        proof {
            <u64 as TimeInt>::from_int_prop(secs as int);
            secs.as_int_injective(<u64 as TimeInt>::from_int(secs as int));
            if let Ok(d) = r {
                d.0.in_range();
                T::from_int_prop(d.0.as_int());
                d.0.as_int_injective(T::from_int(d.0.as_int()));
            }
        }
        r
    }
}

impl<T: TimeInt> vstd::std_specs::convert::TryFromSpecImpl<core::time::Duration> for Minutes<T> {
    open spec fn obeys_try_from_spec() -> bool {
        true
    }

    open spec fn try_from_spec(v: core::time::Duration) -> Result<Minutes<T>, ConversionError> {
        match spec_converted::<Seconds<u64>, Minutes<T>>(
            Seconds(<u64 as TimeInt>::from_int(core_duration_nanos(v) / 1_000_000_000)),
        ) {
            Ok(q) => Ok(Minutes(T::from_int(q))),
            Err(e) => Err(e),
        }
    }
}

impl<T: TimeInt> TryFrom<Minutes<T>> for core::time::Duration {
    type Error = ConversionError;

    fn try_from(duration: Minutes<T>) -> (r: Result<core::time::Duration, ConversionError>)
        ensures
            match (r, spec_converted::<Minutes<T>, Seconds<u64>>(duration)) {
                (Ok(cd), Ok(secs)) => core_duration_nanos(cd) == secs * 1_000_000_000,
                (Err(a), Err(b)) => a == b,
                _ => false,
            },
    {
        match try_convert_from::<Minutes<T>, Seconds<u64>>(duration) {
            Ok(seconds) => Ok(core::time::Duration::from_secs(seconds.0)),
            Err(e) => Err(e),
        }
    }
}

impl<T: TimeInt> vstd::std_specs::convert::TryFromSpecImpl<Minutes<T>> for core::time::Duration {
    open spec fn obeys_try_from_spec() -> bool {
        false
    }

    open spec fn try_from_spec(v: Minutes<T>) -> Result<core::time::Duration, ConversionError> {
        arbitrary()
    }
}

impl<T: TimeInt> TryFrom<core::time::Duration> for Seconds<T> {
    type Error = ConversionError;

    fn try_from(core_duration: core::time::Duration) -> Result<Seconds<T>, ConversionError> {
        let secs = core_duration.as_secs();
        let s = Seconds::<u64>(secs);
        let r = try_convert_from::<Seconds<u64>, Seconds<T>>(s);
        proof {
            <u64 as TimeInt>::from_int_prop(secs as int);
            secs.as_int_injective(<u64 as TimeInt>::from_int(secs as int));
            if let Ok(d) = r {
                d.0.in_range();
                T::from_int_prop(d.0.as_int());
                d.0.as_int_injective(T::from_int(d.0.as_int()));
            }
        }
        r
    }
}

impl<T: TimeInt> vstd::std_specs::convert::TryFromSpecImpl<core::time::Duration> for Seconds<T> {
    open spec fn obeys_try_from_spec() -> bool {
        true
    }

    open spec fn try_from_spec(v: core::time::Duration) -> Result<Seconds<T>, ConversionError> {
        match spec_converted::<Seconds<u64>, Seconds<T>>(
            Seconds(<u64 as TimeInt>::from_int(core_duration_nanos(v) / 1_000_000_000)),
        ) {
            Ok(q) => Ok(Seconds(T::from_int(q))),
            Err(e) => Err(e),
        }
    }
}

impl<T: TimeInt> TryFrom<Seconds<T>> for core::time::Duration {
    type Error = ConversionError;

    fn try_from(duration: Seconds<T>) -> (r: Result<core::time::Duration, ConversionError>)
        ensures
            match (r, spec_converted::<Seconds<T>, Seconds<u64>>(duration)) {
                (Ok(cd), Ok(secs)) => core_duration_nanos(cd) == secs * 1_000_000_000,
                (Err(a), Err(b)) => a == b,
                _ => false,
            },
    {
        match try_convert_from::<Seconds<T>, Seconds<u64>>(duration) {
            Ok(seconds) => Ok(core::time::Duration::from_secs(seconds.0)),
            Err(e) => Err(e),
        }
    }
}

impl<T: TimeInt> vstd::std_specs::convert::TryFromSpecImpl<Seconds<T>> for core::time::Duration {
    open spec fn obeys_try_from_spec() -> bool {
        false
    }

    open spec fn try_from_spec(v: Seconds<T>) -> Result<core::time::Duration, ConversionError> {
        arbitrary()
    }
}

impl<T: TimeInt> TryFrom<core::time::Duration> for Milliseconds<T> {
    type Error = ConversionError;

    fn try_from(core_duration: core::time::Duration) -> Result<Milliseconds<T>, ConversionError> {
        let n = core_duration.as_millis();
        match T::try_from_u128(n) {
            Some(t) => {
                proof {
                    t.in_range();
                    T::from_int_prop(t.as_int());
                    t.as_int_injective(T::from_int(t.as_int()));
                }
                Ok(Milliseconds(t))
            },
            None => Err(ConversionError::ConversionFailure),
        }
    }
}

impl<T: TimeInt> vstd::std_specs::convert::TryFromSpecImpl<core::time::Duration> for Milliseconds<T> {
    open spec fn obeys_try_from_spec() -> bool {
        true
    }

    open spec fn try_from_spec(v: core::time::Duration) -> Result<Milliseconds<T>, ConversionError> {
        if core_duration_nanos(v) / 1_000_000 <= T::max_int() {
            Ok(Milliseconds(T::from_int(core_duration_nanos(v) / 1_000_000)))
        } else {
            Err(ConversionError::ConversionFailure)
        }
    }
}

impl<T: TimeInt> TryFrom<Milliseconds<T>> for core::time::Duration {
    type Error = ConversionError;

    fn try_from(duration: Milliseconds<T>) -> (r: Result<core::time::Duration, ConversionError>)
        ensures
            r matches Ok(cd) && core_duration_nanos(cd) == duration.ticks() * 1_000_000,
    {
        proof {
            duration.0.in_range();
            <T as TimeInt>::max_bound();
        }
        let v = duration.0.to_u128();
        Ok(core::time::Duration::from_millis(v as u64))
    }
}

impl<T: TimeInt> vstd::std_specs::convert::TryFromSpecImpl<Milliseconds<T>> for core::time::Duration {
    open spec fn obeys_try_from_spec() -> bool {
        false
    }

    open spec fn try_from_spec(v: Milliseconds<T>) -> Result<core::time::Duration, ConversionError> {
        arbitrary()
    }
}

impl<T: TimeInt> TryFrom<core::time::Duration> for Microseconds<T> {
    type Error = ConversionError;

    fn try_from(core_duration: core::time::Duration) -> Result<Microseconds<T>, ConversionError> {
        let n = core_duration.as_micros();
        match T::try_from_u128(n) {
            Some(t) => {
                proof {
                    t.in_range();
                    T::from_int_prop(t.as_int());
                    t.as_int_injective(T::from_int(t.as_int()));
                }
                Ok(Microseconds(t))
            },
            None => Err(ConversionError::ConversionFailure),
        }
    }
}

impl<T: TimeInt> vstd::std_specs::convert::TryFromSpecImpl<core::time::Duration> for Microseconds<T> {
    open spec fn obeys_try_from_spec() -> bool {
        true
    }

    open spec fn try_from_spec(v: core::time::Duration) -> Result<Microseconds<T>, ConversionError> {
        if core_duration_nanos(v) / 1_000 <= T::max_int() {
            Ok(Microseconds(T::from_int(core_duration_nanos(v) / 1_000)))
        } else {
            Err(ConversionError::ConversionFailure)
        }
    }
}

impl<T: TimeInt> TryFrom<Microseconds<T>> for core::time::Duration {
    type Error = ConversionError;

    fn try_from(duration: Microseconds<T>) -> (r: Result<core::time::Duration, ConversionError>)
        ensures
            r matches Ok(cd) && core_duration_nanos(cd) == duration.ticks() * 1_000,
    {
        proof {
            duration.0.in_range();
            <T as TimeInt>::max_bound();
        }
        let v = duration.0.to_u128();
        Ok(core::time::Duration::from_micros(v as u64))
    }
}

impl<T: TimeInt> vstd::std_specs::convert::TryFromSpecImpl<Microseconds<T>> for core::time::Duration {
    open spec fn obeys_try_from_spec() -> bool {
        false
    }

    open spec fn try_from_spec(v: Microseconds<T>) -> Result<core::time::Duration, ConversionError> {
        arbitrary()
    }
}

} // verus!
