//! The fixed-point engine: tick conversion between scaling factors.
//!
//! A [`FixedPoint`] value owns an integer magnitude (its *ticks*); its
//! scaling factor is a rational constant fixed by its type.  The engine
//! converts a magnitude expressed under one scaling factor into the
//! equivalent magnitude under another, possibly in a different integer
//! representation, without silently losing magnitude: the combined
//! conversion fraction is formed once by a checked, reduced multiplication,
//! the scaled product is checked in the wider of the source and destination
//! representations, and the final narrowing failure is reported separately
//! from arithmetic overflow.

use crate::fraction::{gcd, lemma_gcd_symmetric, lemma_reduce, reduced_den, reduced_num, Fraction};
use crate::time_int::{frac_scale, frac_scale_exec, TimeInt};
use crate::ConversionError;
use vstd::arithmetic::div_mod::{
    lemma_div_basics, lemma_div_by_self, lemma_div_multiples_vanish, lemma_div_nonincreasing,
    lemma_div_pos_is_pos, lemma_fundamental_div_mod, lemma_mod_multiples_basic,
};
use vstd::arithmetic::mul::lemma_mul_is_commutative;
use vstd::prelude::*;

verus! {

/// A value with a fixed-point representation: an integer magnitude whose
/// scaling factor is a rational constant of the type.
pub trait FixedPoint: Sized + Copy {
    /// The magnitude representation.
    type T: TimeInt;

    /// The magnitude, as a mathematical integer.
    spec fn ticks(self) -> int;

    /// The numerator of the type's scaling factor.
    spec fn scale_num() -> int;

    /// The denominator of the type's scaling factor.
    spec fn scale_den() -> int;

    /// The magnitude lies within the representation's range.
    proof fn ticks_in_range(self)
        ensures
            0 <= self.ticks() <= <Self::T as TimeInt>::max_int(),
    ;

    /// A scaling factor is a positive rational with machine-word parts.
    proof fn scale_positive()
        ensures
            1 <= Self::scale_num() <= u64::MAX,
            1 <= Self::scale_den() <= u64::MAX,
    ;

    /// The type's scaling factor, as a [`Fraction`] value.
    fn scaling_factor() -> (f: Fraction)
        ensures
            f.num() == Self::scale_num(),
            f.den() == Self::scale_den(),
    ;

    /// Wraps a raw magnitude.
    fn new(value: Self::T) -> (r: Self)
        ensures
            r.ticks() == value.as_int(),
    ;

    /// The raw magnitude.
    fn integer(&self) -> (r: &Self::T)
        ensures
            r.as_int() == self.ticks(),
    ;
}

/// The larger of two representation bounds: intermediate scaling is checked
/// against the wider of the source and destination representations.
pub open spec fn wider_max(a: int, b: int) -> int {
    if a >= b {
        a
    } else {
        b
    }
}

/// What converting the magnitude `v` from scaling factor `sn / sd` to
/// scaling factor `dn / dd` yields: `v * (sn * dd) / (sd * dn)` truncated
/// toward zero, computed through the combined conversion fraction
/// `(sn / sd) * (dd / dn)` reduced to lowest terms, with the product checked
/// against the wider representation bound `w_max` and the result narrowed
/// against the destination bound `d_max`.
///
/// A zero denominator on either side, or a zero destination numerator (whose
/// reciprocal the combined fraction needs), is `DivByZero`.  A combined
/// fraction whose raw parts exceed the fraction representation, or a checked
/// product that exceeds `w_max`, is `Overflow`.  A result that exceeds
/// `d_max` is `ConversionFailure`: the scaling arithmetic itself fit, but
/// the destination representation cannot hold the value.
pub open spec fn spec_convert(
    v: int,
    sn: int,
    sd: int,
    dn: int,
    dd: int,
    w_max: int,
    d_max: int,
) -> Result<int, ConversionError> {
    if sd == 0 || dd == 0 {
        Err(ConversionError::DivByZero)
    } else if dn == 0 {
        Err(ConversionError::DivByZero)
    } else if sn * dd > u64::MAX || sd * dn > u64::MAX {
        Err(ConversionError::Overflow)
    } else {
        match frac_scale(v, reduced_num(sn * dd, sd * dn), reduced_den(sn * dd, sd * dn), w_max) {
            Ok(q) => if q > d_max {
                Err(ConversionError::ConversionFailure)
            } else {
                Ok(q)
            },
            Err(e) => Err(e),
        }
    }
}

/// What converting the fixed-point value `s` into the fixed-point type `Dst`
/// yields.
pub open spec fn spec_converted<Src: FixedPoint, Dst: FixedPoint>(s: Src) -> Result<
    int,
    ConversionError,
> {
    spec_convert(
        s.ticks(),
        Src::scale_num(),
        Src::scale_den(),
        Dst::scale_num(),
        Dst::scale_den(),
        wider_max(<Src::T as TimeInt>::max_int(), <Dst::T as TimeInt>::max_int()),
        <Dst::T as TimeInt>::max_int(),
    )
}

/// What building a fixed-point value of type `Dst` from the magnitude
/// `ticks` (of representation `S`) under the runtime scaling factor `f`
/// yields.
pub open spec fn spec_from_generic<S: TimeInt, Dst: FixedPoint>(ticks: int, f: Fraction) -> Result<
    int,
    ConversionError,
> {
    spec_convert(
        ticks,
        f.num(),
        f.den(),
        Dst::scale_num(),
        Dst::scale_den(),
        wider_max(S::max_int(), <Dst::T as TimeInt>::max_int()),
        <Dst::T as TimeInt>::max_int(),
    )
}

/// Builds a fixed-point value of type `Dst` from a magnitude expressed under
/// the runtime scaling factor `scaling_factor`.
pub fn from_ticks<SrcT: TimeInt, Dst: FixedPoint>(ticks: SrcT, scaling_factor: Fraction) -> (r:
    Result<Dst, ConversionError>)
    ensures
        match (r, spec_convert(
            ticks.as_int(),
            scaling_factor.num(),
            scaling_factor.den(),
            Dst::scale_num(),
            Dst::scale_den(),
            wider_max(SrcT::max_int(), <Dst::T as TimeInt>::max_int()),
            <Dst::T as TimeInt>::max_int(),
        )) {
            (Ok(d), Ok(q)) => d.ticks() == q,
            (Err(a), Err(b)) => a == b,
            _ => false,
        },
{
    proof {
        Dst::scale_positive();
        SrcT::max_bound();
        <Dst::T as TimeInt>::max_bound();
        ticks.in_range();
        scaling_factor.parts_in_range();
    }
    if scaling_factor.denominator() == 0 {
        return Err(ConversionError::DivByZero);
    }
    let dst_factor = Dst::scaling_factor();
    let recip = match dst_factor.recip() {
        Ok(f) => f,
        Err(e) => {
            return Err(e);
        },
    };
    let c = match scaling_factor.checked_mul(&recip) {
        Ok(c) => c,
        Err(e) => {
            return Err(e);
        },
    };
    let a = SrcT::max_u128();
    let b = <Dst::T as TimeInt>::max_u128();
    let w_max = if a >= b {
        a
    } else {
        b
    };
    let q = match frac_scale_exec(ticks.to_u128(), c.numerator(), c.denominator(), w_max) {
        Ok(q) => q,
        Err(e) => {
            return Err(e);
        },
    };
    match <Dst::T as TimeInt>::try_from_u128(q) {
        Some(t) => Ok(Dst::new(t)),
        None => Err(ConversionError::ConversionFailure),
    }
}

/// Expresses the fixed-point value `source` as a raw magnitude under the
/// runtime scaling factor `scaling_factor`, in the representation `DstT`.
pub fn into_ticks<Src: FixedPoint, DstT: TimeInt>(source: Src, scaling_factor: Fraction) -> (r:
    Result<DstT, ConversionError>)
    ensures
        match (r, spec_convert(
            source.ticks(),
            Src::scale_num(),
            Src::scale_den(),
            scaling_factor.num(),
            scaling_factor.den(),
            wider_max(<Src::T as TimeInt>::max_int(), DstT::max_int()),
            DstT::max_int(),
        )) {
            (Ok(t), Ok(q)) => t.as_int() == q,
            (Err(a), Err(b)) => a == b,
            _ => false,
        },
{
    proof {
        Src::scale_positive();
        <Src::T as TimeInt>::max_bound();
        DstT::max_bound();
        source.ticks_in_range();
        scaling_factor.parts_in_range();
    }
    if scaling_factor.denominator() == 0 {
        return Err(ConversionError::DivByZero);
    }
    let recip = match scaling_factor.recip() {
        Ok(f) => f,
        Err(e) => {
            return Err(e);
        },
    };
    let c = match Src::scaling_factor().checked_mul(&recip) {
        Ok(c) => c,
        Err(e) => {
            return Err(e);
        },
    };
    let a = <Src::T as TimeInt>::max_u128();
    let b = DstT::max_u128();
    let w_max = if a >= b {
        a
    } else {
        b
    };
    let v = source.integer().to_u128();
    let q = match frac_scale_exec(v, c.numerator(), c.denominator(), w_max) {
        Ok(q) => q,
        Err(e) => {
            return Err(e);
        },
    };
    match DstT::try_from_u128(q) {
        Some(t) => Ok(t),
        None => Err(ConversionError::ConversionFailure),
    }
}

/// Converts one fixed-point value into another fixed-point type, through the
/// combined conversion fraction of the two types' scaling factors.
pub fn try_convert_from<Src: FixedPoint, Dst: FixedPoint>(source: Src) -> (r: Result<
    Dst,
    ConversionError,
>)
    ensures
        match (r, spec_converted::<Src, Dst>(source)) {
            (Ok(d), Ok(q)) => d.ticks() == q,
            (Err(a), Err(b)) => a == b,
            _ => false,
        },
{
    from_ticks::<Src::T, Dst>(*source.integer(), Src::scaling_factor())
}

/// The round-trip law: a tick conversion that succeeds and loses no
/// magnitude to truncation is inverted exactly by the reverse conversion.
/// If converting the magnitude `v` from scaling factor `sn / sd` to
/// `dn / dd` succeeds within the same representation bounds, and the scaled
/// product divides exactly by the combined conversion fraction's
/// denominator, then converting the result back under the reversed scaling
/// factors yields `v` again.
pub proof fn lemma_convert_round_trip(
    v: int,
    sn: int,
    sd: int,
    dn: int,
    dd: int,
    w_max: int,
    s_max: int,
    d_max: int,
)
    requires
        1 <= sn,
        1 <= sd,
        1 <= dn,
        1 <= dd,
        0 <= v <= s_max,
        spec_convert(v, sn, sd, dn, dd, w_max, d_max) is Ok,
        (v * reduced_num(sn * dd, sd * dn)) % reduced_den(sn * dd, sd * dn) == 0,
    ensures
        spec_convert(
            spec_convert(v, sn, sd, dn, dd, w_max, d_max)->Ok_0,
            dn,
            dd,
            sn,
            sd,
            w_max,
            s_max,
        ) == Ok::<int, ConversionError>(v),
{
    broadcast use lemma_mul_is_commutative;

    let pn = sn * dd;
    let pd = sd * dn;
    let g = gcd(pn as nat, pd as nat) as int;
    let cn = reduced_num(pn, pd);
    let cd = reduced_den(pn, pd);
    let q = (v * cn) / cd;
    assert(pn >= 1 && pd >= 1) by (nonlinear_arith)
        requires
            1 <= sn,
            1 <= sd,
            1 <= dn,
            1 <= dd,
            pn == sn * dd,
            pd == sd * dn,
    ;
    lemma_reduce(pn, pd);
    assert(cn >= 1) by (nonlinear_arith)
        requires
            pn >= 1,
            pn == g * cn,
            cn >= 0,
    ;
    lemma_fundamental_div_mod(v * cn, cd);
    assert(v * cn == cd * q);
    lemma_gcd_symmetric(pd as nat, pn as nat);
    assert(reduced_num(pd, pn) == cd && reduced_den(pd, pn) == cn);
    lemma_div_multiples_vanish(v, cn);
    assert((q * cd) / cn == v);
}

/// The round-trip law over unit types: whenever `a` converts to `b` without
/// truncation loss, `b` converts back to exactly `a`'s magnitude.
pub proof fn lemma_unit_round_trip<A: FixedPoint, B: FixedPoint>(a: A, b: B)
    requires
        spec_converted::<A, B>(a) == Ok::<int, ConversionError>(b.ticks()),
        (a.ticks() * reduced_num(
            A::scale_num() * B::scale_den(),
            A::scale_den() * B::scale_num(),
        )) % reduced_den(A::scale_num() * B::scale_den(), A::scale_den() * B::scale_num()) == 0,
    ensures
        spec_converted::<B, A>(b) == Ok::<int, ConversionError>(a.ticks()),
{
    broadcast use lemma_mul_is_commutative;

    A::scale_positive();
    B::scale_positive();
    a.ticks_in_range();
    lemma_convert_round_trip(
        a.ticks(),
        A::scale_num(),
        A::scale_den(),
        B::scale_num(),
        B::scale_den(),
        wider_max(<A::T as TimeInt>::max_int(), <B::T as TimeInt>::max_int()),
        <A::T as TimeInt>::max_int(),
        <B::T as TimeInt>::max_int(),
    );
}

/// Whether two fixed-point values of possibly different scaling factors and
/// representations stand for the same quantity: the operand with the coarser
/// scaling factor is converted into the finer one's type, so no magnitude is
/// truncated away, and the raw magnitudes are compared.  A conversion that
/// does not fit the finer representation decides the comparison as unequal.
pub open spec fn spec_fp_eq<A: FixedPoint, B: FixedPoint>(a: A, b: B) -> bool {
    if A::scale_num() * B::scale_den() < B::scale_num() * A::scale_den() {
        match spec_converted::<B, A>(b) {
            Ok(q) => a.ticks() == q,
            Err(_) => false,
        }
    } else {
        match spec_converted::<A, B>(a) {
            Ok(q) => q == b.ticks(),
            Err(_) => false,
        }
    }
}

/// Equality across scaling factors and representations.
pub fn fp_eq<A: FixedPoint, B: FixedPoint>(a: &A, b: &B) -> (r: bool)
    ensures
        r == spec_fp_eq(*a, *b),
{
    let fa = A::scaling_factor();
    let fb = B::scaling_factor();
    proof {
        A::scale_positive();
        B::scale_positive();
        assert(fa.num() * fb.den() <= u64::MAX * u64::MAX && fb.num() * fa.den() <= u64::MAX
            * u64::MAX) by (nonlinear_arith)
            requires
                0 <= fa.num() <= u64::MAX,
                0 <= fa.den() <= u64::MAX,
                0 <= fb.num() <= u64::MAX,
                0 <= fb.den() <= u64::MAX,
        ;
    }
    let left = (fa.numerator() as u128) * (fb.denominator() as u128);
    let right = (fb.numerator() as u128) * (fa.denominator() as u128);
    if left < right {
        match try_convert_from::<B, A>(*b) {
            Ok(v) => v.integer().to_u128() == a.integer().to_u128(),
            Err(_) => false,
        }
    } else {
        match try_convert_from::<A, B>(*a) {
            Ok(v) => v.integer().to_u128() == b.integer().to_u128(),
            Err(_) => false,
        }
    }
}

/// Converting to a unit whose scaling factor divides the source's exactly
/// `k` times multiplies the magnitude by `k`: a value of N whole units is
/// exactly N×k sub-units, provided the rescaled magnitude fits the
/// destination representation.
pub proof fn lemma_convert_integral_scale<A: FixedPoint, B: FixedPoint>(a: A, k: int)
    requires
        1 <= k <= <B::T as TimeInt>::max_int(),
        A::scale_num() * B::scale_den() == k * (B::scale_num() * A::scale_den()),
        A::scale_num() * B::scale_den() <= u64::MAX,
        B::scale_num() * A::scale_den() <= u64::MAX,
        a.ticks() * k <= <B::T as TimeInt>::max_int(),
    ensures
        spec_converted::<A, B>(a) == Ok::<int, ConversionError>(a.ticks() * k),
{
    broadcast use lemma_mul_is_commutative;

    A::scale_positive();
    B::scale_positive();
    a.ticks_in_range();
    <A::T as TimeInt>::max_bound();
    <B::T as TimeInt>::max_bound();
    let v = a.ticks();
    let m = B::scale_num() * A::scale_den();
    let pn = A::scale_num() * B::scale_den();
    assert(m >= 1) by (nonlinear_arith)
        requires
            m == B::scale_num() * A::scale_den(),
            B::scale_num() >= 1,
            A::scale_den() >= 1,
    ;
    lemma_mod_multiples_basic(k, m);
    assert(pn as nat % (m as nat) == 0);
    assert(gcd(m as nat, 0) == m as nat);
    assert(gcd(pn as nat, m as nat) == m as nat);
    lemma_div_multiples_vanish(k, m);
    assert(reduced_num(pn, m) == k);
    lemma_div_by_self(m);
    assert(reduced_den(pn, m) == 1);
    assert(0 <= v * k) by (nonlinear_arith)
        requires
            0 <= v,
            1 <= k,
    ;
    lemma_div_basics(v * k);
}

/// Cross-unit equality is consistent with scaling: when the scaling factor
/// of `A` is exactly `k` times that of `B`, and the rescaled magnitude fits
/// `B`'s representation, a magnitude of `A` equals a magnitude of `B`
/// exactly when the latter is `k` times the former — so any off-by-one
/// difference in sub-units makes the values unequal.
pub proof fn lemma_eq_consistent_with_scaling<A: FixedPoint, B: FixedPoint>(a: A, b: B, k: int)
    requires
        1 <= k <= <B::T as TimeInt>::max_int(),
        A::scale_num() * B::scale_den() == k * (B::scale_num() * A::scale_den()),
        A::scale_num() * B::scale_den() <= u64::MAX,
        B::scale_num() * A::scale_den() <= u64::MAX,
        a.ticks() * k <= <B::T as TimeInt>::max_int(),
    ensures
        spec_fp_eq(a, b) <==> b.ticks() == k * a.ticks(),
{
    broadcast use lemma_mul_is_commutative;

    A::scale_positive();
    B::scale_positive();
    b.ticks_in_range();
    let m = B::scale_num() * A::scale_den();
    let pn = A::scale_num() * B::scale_den();
    assert(m >= 1) by (nonlinear_arith)
        requires
            m == B::scale_num() * A::scale_den(),
            B::scale_num() >= 1,
            A::scale_den() >= 1,
    ;
    assert(pn >= m) by (nonlinear_arith)
        requires
            pn == k * m,
            k >= 1,
            m >= 1,
    ;
    lemma_convert_integral_scale::<A, B>(a, k);
}

/// Remainder by a coarser unit gives the sub-period remainder: when the
/// scaling factor of `B` is exactly `k` times that of `A`, and the rescaled
/// right-hand magnitude fits `A`'s representation, the remainder of `a` by
/// `b` is `a`'s magnitude modulo `k` times `b`'s; a right-hand side that
/// rescales to zero leaves a zero remainder.
pub proof fn lemma_rem_subperiod<A: FixedPoint, B: FixedPoint>(a: A, b: B, k: int)
    requires
        1 <= k <= <A::T as TimeInt>::max_int(),
        B::scale_num() * A::scale_den() == k * (A::scale_num() * B::scale_den()),
        B::scale_num() * A::scale_den() <= u64::MAX,
        A::scale_num() * B::scale_den() <= u64::MAX,
        b.ticks() * k <= <A::T as TimeInt>::max_int(),
    ensures
        b.ticks() * k > 0 ==> spec_fp_rem(a, b) == a.ticks() % (b.ticks() * k),
        b.ticks() * k == 0 ==> spec_fp_rem(a, b) == 0,
{
    lemma_convert_integral_scale::<B, A>(b, k);
}

/// How two fixed-point values of possibly different scaling factors and
/// representations are ordered: the operand with the coarser scaling factor
/// is converted into the finer one's type and the raw magnitudes are
/// compared.  A conversion that does not fit the finer representation
/// decides the ordering: the operand that could not be represented is the
/// larger one.
pub open spec fn spec_fp_cmp<A: FixedPoint, B: FixedPoint>(a: A, b: B) -> core::cmp::Ordering {
    if A::scale_num() * B::scale_den() < B::scale_num() * A::scale_den() {
        match spec_converted::<B, A>(b) {
            Ok(q) => if a.ticks() < q {
                core::cmp::Ordering::Less
            } else if a.ticks() == q {
                core::cmp::Ordering::Equal
            } else {
                core::cmp::Ordering::Greater
            },
            Err(_) => core::cmp::Ordering::Less,
        }
    } else {
        match spec_converted::<A, B>(a) {
            Ok(q) => if q < b.ticks() {
                core::cmp::Ordering::Less
            } else if q == b.ticks() {
                core::cmp::Ordering::Equal
            } else {
                core::cmp::Ordering::Greater
            },
            Err(_) => core::cmp::Ordering::Greater,
        }
    }
}

/// Ordering across scaling factors and representations.
pub fn fp_cmp<A: FixedPoint, B: FixedPoint>(a: &A, b: &B) -> (r: core::cmp::Ordering)
    ensures
        r == spec_fp_cmp(*a, *b),
{
    let fa = A::scaling_factor();
    let fb = B::scaling_factor();
    proof {
        A::scale_positive();
        B::scale_positive();
        assert(fa.num() * fb.den() <= u64::MAX * u64::MAX && fb.num() * fa.den() <= u64::MAX
            * u64::MAX) by (nonlinear_arith)
            requires
                0 <= fa.num() <= u64::MAX,
                0 <= fa.den() <= u64::MAX,
                0 <= fb.num() <= u64::MAX,
                0 <= fb.den() <= u64::MAX,
        ;
    }
    let left = (fa.numerator() as u128) * (fb.denominator() as u128);
    let right = (fb.numerator() as u128) * (fa.denominator() as u128);
    if left < right {
        match try_convert_from::<B, A>(*b) {
            Ok(v) => {
                let x = a.integer().to_u128();
                let y = v.integer().to_u128();
                if x < y {
                    core::cmp::Ordering::Less
                } else if x == y {
                    core::cmp::Ordering::Equal
                } else {
                    core::cmp::Ordering::Greater
                }
            },
            Err(_) => core::cmp::Ordering::Less,
        }
    } else {
        match try_convert_from::<A, B>(*a) {
            Ok(v) => {
                let x = v.integer().to_u128();
                let y = b.integer().to_u128();
                if x < y {
                    core::cmp::Ordering::Less
                } else if x == y {
                    core::cmp::Ordering::Equal
                } else {
                    core::cmp::Ordering::Greater
                }
            },
            Err(_) => core::cmp::Ordering::Greater,
        }
    }
}

/// The remainder of `a` by `b`, in `a`'s type: `b` is first truncated into
/// `a`'s representation and scaling factor.  A right-hand operand that
/// rescales to zero leaves a zero remainder, as dividing by one unit of it
/// would; one whose conversion fails leaves `a` unchanged.
pub open spec fn spec_fp_rem<A: FixedPoint, B: FixedPoint>(a: A, b: B) -> int {
    match spec_converted::<B, A>(b) {
        Ok(q) => if q > 0 {
            a.ticks() % q
        } else {
            0
        },
        Err(_) => a.ticks(),
    }
}

/// Remainder across scaling factors and representations.
pub fn fp_rem<A: FixedPoint, B: FixedPoint>(a: A, b: B) -> (r: A)
    ensures
        r.ticks() == spec_fp_rem(a, b),
{
    proof {
        a.ticks_in_range();
        <A::T as TimeInt>::max_bound();
    }
    match try_convert_from::<B, A>(b) {
        Ok(rhs) => {
            proof {
                rhs.ticks_in_range();
            }
            let d = rhs.integer().to_u128();
            let m = if d > 0 {
                a.integer().to_u128() % d
            } else {
                0
            };
            match <A::T as TimeInt>::try_from_u128(m) {
                Some(t) => A::new(t),
                None => unreached(),
            }
        },
        Err(_) => a,
    }
}

/// Whether operator addition of `b` to `a` is defined: `b` converts into
/// `a`'s type and the sum of raw magnitudes fits `a`'s representation.
/// Operator addition and subtraction mirror native integer arithmetic; a
/// call site that has not already bounded its operands must use the checked
/// conversions instead.
pub open spec fn spec_fp_add_ok<A: FixedPoint, B: FixedPoint>(a: A, b: B) -> bool {
    match spec_converted::<B, A>(b) {
        Ok(q) => a.ticks() + q <= <A::T as TimeInt>::max_int(),
        Err(_) => false,
    }
}

/// Addition across scaling factors and representations, in `a`'s type.
pub fn fp_add<A: FixedPoint, B: FixedPoint>(a: A, b: B) -> (r: A)
    requires
        spec_fp_add_ok(a, b),
    ensures
        r.ticks() == a.ticks() + spec_converted::<B, A>(b)->Ok_0,
{
    match try_convert_from::<B, A>(b) {
        Ok(rhs) => match a.integer().checked_add(*rhs.integer()) {
            Some(s) => A::new(s),
            None => unreached(),
        },
        Err(_) => unreached(),
    }
}

/// Whether operator subtraction of `b` from `a` is defined: `b` converts
/// into `a`'s type and the difference of raw magnitudes is nonnegative.
pub open spec fn spec_fp_sub_ok<A: FixedPoint, B: FixedPoint>(a: A, b: B) -> bool {
    match spec_converted::<B, A>(b) {
        Ok(q) => q <= a.ticks(),
        Err(_) => false,
    }
}

/// Subtraction across scaling factors and representations, in `a`'s type.
pub fn fp_sub<A: FixedPoint, B: FixedPoint>(a: A, b: B) -> (r: A)
    requires
        spec_fp_sub_ok(a, b),
    ensures
        r.ticks() == a.ticks() - spec_converted::<B, A>(b)->Ok_0,
{
    match try_convert_from::<B, A>(b) {
        Ok(rhs) => match a.integer().checked_sub(*rhs.integer()) {
            Some(s) => A::new(s),
            None => unreached(),
        },
        Err(_) => unreached(),
    }
}

/// What converting the magnitude `v` between a quantity and its reciprocal
/// quantity yields, for source scaling factor `sn / sd` and destination
/// scaling factor `dn / dd`: the combined conversion fraction is the
/// reciprocal of the reduced product of the two factors, and the result is
/// its numerator divided by `v` times its denominator, truncated toward
/// zero.  A zero `v` is `DivByZero`: zero elapsed quantity has no finite
/// reciprocal.  Products are checked as in [`spec_convert`], against the
/// wider representation bound `w_max`, and the result is narrowed against
/// the destination bound `d_max`.
pub open spec fn spec_reciprocal(
    v: int,
    sn: int,
    sd: int,
    dn: int,
    dd: int,
    w_max: int,
    d_max: int,
) -> Result<int, ConversionError> {
    if sn * dn > u64::MAX || sd * dd > u64::MAX {
        Err(ConversionError::Overflow)
    } else if sn * dn == 0 {
        Err(ConversionError::DivByZero)
    } else {
        let cn = reduced_den(sn * dn, sd * dd);
        let cd = reduced_num(sn * dn, sd * dd);
        if cn > w_max {
            Err(ConversionError::Overflow)
        } else if cd > w_max || v * cd > w_max {
            Err(ConversionError::Overflow)
        } else if v * cd == 0 {
            Err(ConversionError::DivByZero)
        } else {
            let q = cn / (v * cd);
            if q > d_max {
                Err(ConversionError::ConversionFailure)
            } else {
                Ok(q)
            }
        }
    }
}

/// Reciprocal consistency: converting a magnitude to its reciprocal
/// quantity and back recovers it exactly whenever the reciprocal division is
/// exact.  (That a zero magnitude fails with `DivByZero` is stated by
/// [`spec_reciprocal`] itself.)
pub proof fn lemma_reciprocal_round_trip(
    v: int,
    sn: int,
    sd: int,
    dn: int,
    dd: int,
    w_max: int,
    s_max: int,
    d_max: int,
)
    requires
        1 <= sn,
        1 <= sd,
        1 <= dn,
        1 <= dd,
        0 <= v <= s_max,
        spec_reciprocal(v, sn, sd, dn, dd, w_max, d_max) is Ok,
        reduced_den(sn * dn, sd * dd) % (v * reduced_num(sn * dn, sd * dd)) == 0,
    ensures
        spec_reciprocal(
            spec_reciprocal(v, sn, sd, dn, dd, w_max, d_max)->Ok_0,
            dn,
            dd,
            sn,
            sd,
            w_max,
            s_max,
        ) == Ok::<int, ConversionError>(v),
{
    broadcast use lemma_mul_is_commutative;

    let pn = sn * dn;
    let pd = sd * dd;
    let g = gcd(pn as nat, pd as nat) as int;
    let cn = reduced_den(pn, pd);
    let cd = reduced_num(pn, pd);
    let r = cn / (v * cd);
    assert(pn >= 1 && pd >= 1) by (nonlinear_arith)
        requires
            1 <= sn,
            1 <= sd,
            1 <= dn,
            1 <= dd,
            pn == sn * dn,
            pd == sd * dd,
    ;
    lemma_reduce(pn, pd);
    assert(cd >= 1) by (nonlinear_arith)
        requires
            pn >= 1,
            pn == g * cd,
            cd >= 0,
    ;
    assert(v >= 1) by (nonlinear_arith)
        requires
            v * cd != 0,
            v >= 0,
    ;
    assert(v * cd >= 1) by (nonlinear_arith)
        requires
            v >= 1,
            cd >= 1,
    ;
    lemma_div_pos_is_pos(cn, v * cd);
    lemma_fundamental_div_mod(cn, v * cd);
    assert(cn == (v * cd) * r);
    assert(r >= 1) by (nonlinear_arith)
        requires
            cn >= 1,
            cn == (v * cd) * r,
            v * cd >= 1,
            r >= 0,
    ;
    assert(r * cd <= cn) by (nonlinear_arith)
        requires
            cn == (v * cd) * r,
            v >= 1,
            r >= 0,
            cd >= 0,
    ;
    assert(r * cd >= 1) by (nonlinear_arith)
        requires
            r >= 1,
            cd >= 1,
    ;
    assert(cn == (r * cd) * v) by (nonlinear_arith)
        requires
            cn == (v * cd) * r,
    ;
    lemma_div_multiples_vanish(v, r * cd);
    assert(cn / (r * cd) == v);
}

/// The reciprocal round-trip law over unit types: whenever the duration (or
/// rate) `a` converts to the reciprocal value `b` without truncation loss,
/// `b` converts back to exactly `a`'s magnitude.
pub proof fn lemma_unit_reciprocal_round_trip<A: FixedPoint, B: FixedPoint>(a: A, b: B)
    requires
        spec_reciprocal_converted::<A, B>(a) == Ok::<int, ConversionError>(b.ticks()),
        reduced_den(A::scale_num() * B::scale_num(), A::scale_den() * B::scale_den()) % (a.ticks()
            * reduced_num(
            A::scale_num() * B::scale_num(),
            A::scale_den() * B::scale_den(),
        )) == 0,
    ensures
        spec_reciprocal_converted::<B, A>(b) == Ok::<int, ConversionError>(a.ticks()),
{
    broadcast use lemma_mul_is_commutative;

    A::scale_positive();
    B::scale_positive();
    a.ticks_in_range();
    lemma_reciprocal_round_trip(
        a.ticks(),
        A::scale_num(),
        A::scale_den(),
        B::scale_num(),
        B::scale_den(),
        wider_max(<A::T as TimeInt>::max_int(), <B::T as TimeInt>::max_int()),
        <A::T as TimeInt>::max_int(),
        <B::T as TimeInt>::max_int(),
    );
}

/// What converting the fixed-point value `s` into the reciprocal fixed-point
/// type `Dst` yields.
pub open spec fn spec_reciprocal_converted<Src: FixedPoint, Dst: FixedPoint>(s: Src) -> Result<
    int,
    ConversionError,
> {
    spec_reciprocal(
        s.ticks(),
        Src::scale_num(),
        Src::scale_den(),
        Dst::scale_num(),
        Dst::scale_den(),
        wider_max(<Src::T as TimeInt>::max_int(), <Dst::T as TimeInt>::max_int()),
        <Dst::T as TimeInt>::max_int(),
    )
}

/// Converts a fixed-point value into a type standing for its reciprocal
/// quantity: the combined conversion fraction is the reciprocal of the
/// reduced product of the two scaling factors, and the source magnitude
/// divides the fraction's numerator instead of multiplying it.
pub fn reciprocal_convert<Src: FixedPoint, Dst: FixedPoint>(source: &Src) -> (r: Result<
    Dst,
    ConversionError,
>)
    ensures
        match (r, spec_reciprocal_converted::<Src, Dst>(*source)) {
            (Ok(d), Ok(q)) => d.ticks() == q,
            (Err(a), Err(b)) => a == b,
            _ => false,
        },
{
    proof {
        Src::scale_positive();
        Dst::scale_positive();
        <Src::T as TimeInt>::max_bound();
        <Dst::T as TimeInt>::max_bound();
        source.ticks_in_range();
        assert(Src::scale_num() * Dst::scale_num() >= 1 && Src::scale_den() * Dst::scale_den()
            >= 1) by (nonlinear_arith)
            requires
                Src::scale_num() >= 1,
                Dst::scale_num() >= 1,
                Src::scale_den() >= 1,
                Dst::scale_den() >= 1,
        ;
    }
    let c = match Src::scaling_factor().checked_mul(&Dst::scaling_factor()) {
        Ok(c) => c,
        Err(e) => {
            return Err(e);
        },
    };
    proof {
        let pn = Src::scale_num() * Dst::scale_num();
        let pd = Src::scale_den() * Dst::scale_den();
        lemma_reduce(pn, pd);
        assert(reduced_num(pn, pd) >= 1) by (nonlinear_arith)
            requires
                pn >= 1,
                pn == gcd(pn as nat, pd as nat) * reduced_num(pn, pd),
                reduced_num(pn, pd) >= 0,
        ;
    }
    let c = match c.recip() {
        Ok(c) => c,
        Err(e) => {
            return Err(e);
        },
    };
    let a = <Src::T as TimeInt>::max_u128();
    let b = <Dst::T as TimeInt>::max_u128();
    let w_max = if a >= b {
        a
    } else {
        b
    };
    let cn = c.numerator();
    let cd = c.denominator();
    if cn as u128 > w_max {
        return Err(ConversionError::Overflow);
    }
    if cd as u128 > w_max {
        return Err(ConversionError::Overflow);
    }
    let v = source.integer().to_u128();
    proof {
        assert(v * cd <= u64::MAX * u64::MAX) by (nonlinear_arith)
            requires
                0 <= v <= u64::MAX,
                0 <= cd <= u64::MAX,
        ;
    }
    let p = v * (cd as u128);
    if p > w_max {
        return Err(ConversionError::Overflow);
    }
    if p == 0 {
        return Err(ConversionError::DivByZero);
    }
    let q = (cn as u128) / p;
    proof {
        lemma_div_nonincreasing(cn as int, p as int);
    }
    match <Dst::T as TimeInt>::try_from_u128(q) {
        Some(t) => Ok(Dst::new(t)),
        None => Err(ConversionError::ConversionFailure),
    }
}

/// Checked addition across scaling factors: `None` when the right-hand
/// operand does not convert into the left type or the sum overflows it.
pub fn fp_checked_add<A: FixedPoint, B: FixedPoint>(a: A, b: B) -> (r: Option<A>)
    ensures
        spec_fp_add_ok(a, b) ==> (r matches Some(s) && s.ticks() == a.ticks() + spec_converted::<
            B,
            A,
        >(b)->Ok_0),
        !spec_fp_add_ok(a, b) ==> r is None,
{
    match try_convert_from::<B, A>(b) {
        Ok(rhs) => match a.integer().checked_add(*rhs.integer()) {
            Some(s) => Some(A::new(s)),
            None => None,
        },
        Err(_) => None,
    }
}

/// Checked subtraction across scaling factors: `None` when the right-hand
/// operand does not convert into the left type or the difference underflows.
pub fn fp_checked_sub<A: FixedPoint, B: FixedPoint>(a: A, b: B) -> (r: Option<A>)
    ensures
        spec_fp_sub_ok(a, b) ==> (r matches Some(s) && s.ticks() == a.ticks() - spec_converted::<
            B,
            A,
        >(b)->Ok_0),
        !spec_fp_sub_ok(a, b) ==> r is None,
{
    match try_convert_from::<B, A>(b) {
        Ok(rhs) => match a.integer().checked_sub(*rhs.integer()) {
            Some(s) => Some(A::new(s)),
            None => None,
        },
        Err(_) => None,
    }
}

} // verus!
