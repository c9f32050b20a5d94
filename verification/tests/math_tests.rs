use amm_core::errors::MathError;
use amm_core::math::mul_div;

#[test]
fn mul_div_exact_quotient() {
    assert_eq!(mul_div(6, 9, 2), Ok(27));
}

#[test]
fn mul_div_rounds_toward_zero() {
    assert_eq!(mul_div(7, 9, 2), Ok(31));
    assert_eq!(mul_div(10, 10, 3), Ok(33));
}

#[test]
fn mul_div_wide_intermediate() {
    // the product of the two largest inputs overflows u64 but not the
    // 128-bit intermediate
    assert_eq!(mul_div(u64::MAX, u64::MAX, u64::MAX), Ok(u64::MAX));
}

#[test]
fn mul_div_zero_denominator() {
    assert_eq!(mul_div(3, 4, 0), Err(MathError::DivisionByZero));
    assert_eq!(mul_div(0, 0, 0), Err(MathError::DivisionByZero));
}

#[test]
fn mul_div_result_too_wide() {
    assert_eq!(mul_div(u64::MAX, 2, 1), Err(MathError::Overflow));
    assert_eq!(mul_div(u64::MAX, u64::MAX, 2), Err(MathError::Overflow));
}

#[test]
fn mul_div_zero_numerator() {
    assert_eq!(mul_div(0, u64::MAX, 7), Ok(0));
}
