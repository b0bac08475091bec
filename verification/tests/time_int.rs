use embedded_time::{Fraction, TimeInt};

#[test]
fn checked_integer_mul_fraction() {
    assert_eq!(8_u32.checked_mul_fraction(&Fraction::new(1, 2)), Ok(4_u32));

    // the result is not rounded, but truncated (8×(1/3)=2.66)
    assert_eq!(8_u32.checked_mul_fraction(&Fraction::new(1, 3)), Ok(2_u32));
}

#[test]
fn checked_integer_div_fraction() {
    assert_eq!(8_u32.checked_div_fraction(&Fraction::new(1, 2)), Ok(16_u32));

    // the result is not rounded, but truncated (8/3=2.66)
    assert_eq!(8_u32.checked_div_fraction(&Fraction::new(3, 1)), Ok(2_u32));
}
