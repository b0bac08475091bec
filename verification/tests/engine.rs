use core::convert::TryFrom;
use embedded_time::duration::{
    Duration, Extensions, Generic, Hours, Milliseconds, Minutes, Nanoseconds, Seconds,
};
use embedded_time::fixed_point::{fp_checked_add, fp_checked_sub};
use embedded_time::rate::{Hertz, Megahertz, Rate};
use embedded_time::{ConversionError, Fraction, TimeInt, Widen};

#[test]
fn fraction_product_is_reduced() {
    let product = Fraction::new(2, 4).checked_mul(&Fraction::new(3, 9)).unwrap();
    assert_eq!(product.numerator(), 1);
    assert_eq!(product.denominator(), 6);
}

#[test]
fn fraction_product_overflow() {
    assert_eq!(
        Fraction::new(u64::MAX, 1).checked_mul(&Fraction::new(2, 1)),
        Err(ConversionError::Overflow)
    );
}

#[test]
fn fraction_recip_of_zero() {
    assert_eq!(
        Fraction::new(0, 5).recip(),
        Err(ConversionError::DivByZero)
    );
}

#[test]
fn fraction_recip_swaps() {
    let r = Fraction::new(3, 7).recip().unwrap();
    assert_eq!(r.numerator(), 7);
    assert_eq!(r.denominator(), 3);
}

#[test]
fn cross_unit_equality_scales() {
    assert_eq!(Seconds(2_u32), Milliseconds(2_000_u32));
    assert_ne!(Seconds(2_u32), Milliseconds(2_001_u32));
    assert_ne!(Seconds(2_u32), Milliseconds(1_999_u32));
}

#[test]
fn cross_unit_ordering() {
    assert!(Seconds(2_u32) < Milliseconds(2_001_u32));
    assert!(Seconds(2_u32) > Milliseconds(1_999_u32));
    assert!(Minutes(1_u32) < Seconds(61_u64));
}

#[test]
fn overflow_versus_conversion_failure() {
    // The scaling arithmetic itself overflows the chosen representation.
    assert_eq!(
        Seconds::<u32>::try_from(Generic::new(u32::MAX, Fraction::new(10, 1))),
        Err(ConversionError::Overflow)
    );
    // The scaled value is sound but does not fit the destination width.
    assert_eq!(
        Seconds::<u32>::try_from(Generic::new(u32::MAX as u64 + 1, Fraction::new(1, 1))),
        Err(ConversionError::ConversionFailure)
    );
}

#[test]
fn generic_with_zero_denominator_is_rejected() {
    assert_eq!(
        Seconds::<u32>::try_from(Generic::new(1_u32, Fraction::new(1, 0))),
        Err(ConversionError::DivByZero)
    );
}

#[test]
fn to_generic_with_zero_numerator_is_rejected() {
    assert_eq!(
        Seconds(1_u32).to_generic::<u32>(Fraction::new(0, 1)),
        Err(ConversionError::DivByZero)
    );
}

#[test]
fn unit_round_trip_is_exact() {
    let seconds = Seconds::<u32>::try_from(Generic::from(Minutes(90_u32))).unwrap();
    assert_eq!(seconds, Seconds(5_400_u32));
    let minutes = Minutes::<u32>::try_from(Generic::from(seconds)).unwrap();
    assert_eq!(minutes, Minutes(90_u32));
}

#[test]
fn rate_round_trip() {
    let rate: Hertz<u32> = Milliseconds(500_u32).to_rate().unwrap();
    assert_eq!(rate, Hertz(2_u32));
    let back: Milliseconds<u32> = rate.to_duration().unwrap();
    assert_eq!(back, Milliseconds(500_u32));
}

#[test]
fn rate_conversion_overflow() {
    assert_eq!(
        Hours(u32::MAX).to_rate::<Megahertz<u32>>(),
        Err(ConversionError::Overflow)
    );
}

#[test]
fn zero_duration_has_no_rate() {
    assert_eq!(
        Seconds(0_u32).to_rate::<Hertz<u32>>(),
        Err(ConversionError::DivByZero)
    );
}

#[test]
fn operator_add_sub() {
    assert_eq!(
        Milliseconds(2_001_u32) - Seconds(1_u32),
        Milliseconds(1_001_u32)
    );
    assert_eq!(Milliseconds(1_u32) + Seconds(1_u32), Milliseconds(1_001_u32));
}

#[test]
fn extension_constructors() {
    assert_eq!(5_u32.nanoseconds(), Nanoseconds(5_u32));
    assert_eq!(5_u32.microseconds(), embedded_time::duration::Microseconds(5_u32));
    assert_eq!(5_u32.milliseconds(), Milliseconds(5_u32));
    assert_eq!(5_u32.seconds(), Seconds(5_u32));
    assert_eq!(5_u32.minutes(), Minutes(5_u32));
    assert_eq!(5_u32.hours(), Hours(5_u32));
}

#[test]
fn widening_is_lossless() {
    assert_eq!(5_u32.widen(), 5_u64);
    assert_eq!(5_u64.widen(), 5_u128);
}

#[test]
fn generic_accessors() {
    let generic = Generic::new(246_u32, Fraction::new(1, 2));
    assert_eq!(generic.scaling_factor(), &Fraction::new(1, 2));
    assert_eq!(generic.integer(), &246_u32);
}

#[test]
fn mul_fraction_errors() {
    assert_eq!(
        u32::MAX.checked_mul_fraction(&Fraction::new(2, 1)),
        Err(ConversionError::Overflow)
    );
    assert_eq!(
        8_u32.checked_mul_fraction(&Fraction::new(1, 0)),
        Err(ConversionError::DivByZero)
    );
    assert_eq!(
        8_u32.checked_div_fraction(&Fraction::new(0, 1)),
        Err(ConversionError::DivByZero)
    );
}

#[test]
fn core_duration_round_trip() {
    let cd: core::time::Duration = Milliseconds(123_u32).try_into().unwrap();
    assert_eq!(Milliseconds::<u32>::try_from(cd), Ok(Milliseconds(123_u32)));
    let cd: core::time::Duration = Nanoseconds(456_u64).try_into().unwrap();
    assert_eq!(Nanoseconds::<u64>::try_from(cd), Ok(Nanoseconds(456_u64)));
    let cd: core::time::Duration = Minutes(83_u32).try_into().unwrap();
    assert_eq!(Minutes::<u32>::try_from(cd), Ok(Minutes(83_u32)));
}

#[test]
fn core_duration_narrowing_fails_exactly() {
    assert_eq!(
        Milliseconds::<u32>::try_from(core::time::Duration::from_millis(u32::MAX as u64 + 1)),
        Err(ConversionError::ConversionFailure)
    );
    assert_eq!(
        Milliseconds::<u32>::try_from(core::time::Duration::from_millis(u32::MAX as u64)),
        Ok(Milliseconds(u32::MAX))
    );
}

#[test]
fn checked_add_sub_across_units() {
    assert_eq!(
        fp_checked_add(1_u32.seconds(), 500_u32.milliseconds()),
        Some(Seconds(1_u32))
    );
    assert_eq!(fp_checked_add(Seconds(u32::MAX), Seconds(1_u32)), None);
    assert_eq!(fp_checked_sub(Seconds(1_u32), Milliseconds(2_000_u32)), None);
    assert_eq!(
        fp_checked_sub(Seconds(2_u32), Milliseconds(2_000_u32)),
        Some(Seconds(0_u32))
    );
}
