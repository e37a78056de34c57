use mandalorian::arith::{checked_add, checked_div, checked_mul, checked_sub};
use mandalorian::wide::{wide_product, products_equal};
use mandalorian::ContractError;

#[test]
fn add_returns_the_sum() {
    assert_eq!(checked_add(100, 50), Ok(150));
    assert_eq!(checked_add(0, 0), Ok(0));
    assert_eq!(checked_add(u128::MAX - 1, 1), Ok(u128::MAX));
}

#[test]
fn add_fails_on_overflow() {
    assert_eq!(checked_add(u128::MAX, 1), Err(ContractError::Overflow));
    assert_eq!(checked_add(u128::MAX, u128::MAX), Err(ContractError::Overflow));
}

#[test]
fn sub_returns_the_difference() {
    assert_eq!(checked_sub(300, 225), Ok(75));
    assert_eq!(checked_sub(7, 7), Ok(0));
}

#[test]
fn sub_fails_below_zero() {
    assert_eq!(checked_sub(0, 1), Err(ContractError::Overflow));
    assert_eq!(checked_sub(224, 225), Err(ContractError::Overflow));
}

#[test]
fn mul_returns_the_product() {
    assert_eq!(checked_mul(150, 300), Ok(45000));
    assert_eq!(checked_mul(0, u128::MAX), Ok(0));
    assert_eq!(checked_mul(1 << 64, (1 << 63) - 1), Ok(((1u128 << 63) - 1) << 64));
}

#[test]
fn mul_fails_on_overflow() {
    assert_eq!(checked_mul(1 << 64, 1 << 64), Err(ContractError::Overflow));
    assert_eq!(checked_mul(u128::MAX, 2), Err(ContractError::Overflow));
}

#[test]
fn div_rounds_down() {
    assert_eq!(checked_div(45000, 200), Ok(225));
    assert_eq!(checked_div(45000, 201), Ok(223));
    assert_eq!(checked_div(7, 8), Ok(0));
}

#[test]
fn div_fails_on_zero() {
    assert_eq!(checked_div(45000, 0), Err(ContractError::DivideByZero));
    assert_eq!(checked_div(0, 0), Err(ContractError::DivideByZero));
}

#[test]
fn wide_product_of_small_numbers_has_no_high_half() {
    assert_eq!(wide_product(150, 300), (0, 45000));
    assert_eq!(wide_product(0, u128::MAX), (0, 0));
    assert_eq!(wide_product(1, u128::MAX), (0, u128::MAX));
}

#[test]
fn wide_product_carries_into_the_high_half() {
    assert_eq!(wide_product(1 << 64, 1 << 64), (1, 0));
    assert_eq!(wide_product(u128::MAX, 2), (1, u128::MAX - 1));
    assert_eq!(wide_product(u128::MAX, u128::MAX), (u128::MAX - 1, 1));
    assert_eq!(wide_product((1 << 127) + 3, 6), (3, 18));
}

#[test]
fn products_equal_compares_exact_products() {
    assert!(products_equal(100, 100, 50, 200));
    assert!(!products_equal(10, 150, 10, 300));
    assert!(products_equal(0, 5, 7, 0));
}

#[test]
fn products_equal_sees_past_128_bits() {
    // 2^64 * 2^64 is 0 modulo 2^128, and so is 0 * 1.
    assert!(products_equal(1 << 100, 1 << 100, 1 << 80, 1 << 120));
    assert!(!products_equal(1 << 64, 1 << 64, 0, 1));
    assert!(!products_equal(u128::MAX, 2, u128::MAX - 1, 1));
    assert!(!products_equal(u128::MAX, 4, 2, u128::MAX));
    assert!(products_equal(u128::MAX - 1, 4, 8, (u128::MAX - 1) / 2));
}
