//! Checked arithmetic on 128-bit amounts: every operation either returns the
//! exact result or fails; none wraps, truncates or saturates.

use crate::error::ContractError;
use cosmwasm_std::Uint128;
use vstd::prelude::*;

verus! {

/// `cosmwasm_std::OverflowError`, carried through as it comes: nothing is
/// known of what it holds.
#[verifier::external_type_specification]
#[verifier::external_body]
pub struct ExOverflowError(cosmwasm_std::OverflowError);

/// `cosmwasm_std::DivideByZeroError`, carried through as it comes: nothing
/// is known of what it holds.
#[verifier::external_type_specification]
#[verifier::external_body]
pub struct ExDivideByZeroError(cosmwasm_std::DivideByZeroError);

/// Calls `cosmwasm_std::Uint128::checked_add`. Trusted: it returns the exact
/// sum when that fits in 128 bits and an error otherwise.
#[verifier::external_body]
fn uint128_checked_add(a: u128, b: u128) -> (r: Result<u128, cosmwasm_std::OverflowError>)
    ensures
        match r {
            Ok(v) => v == a + b,
            Err(_) => a + b > u128::MAX,
        },
{
    match Uint128::new(a).checked_add(Uint128::new(b)) {
        Ok(v) => Ok(v.u128()),
        Err(e) => Err(e),
    }
}

/// Calls `cosmwasm_std::Uint128::checked_sub`. Trusted: it returns the exact
/// difference when that is not negative and an error otherwise.
#[verifier::external_body]
fn uint128_checked_sub(a: u128, b: u128) -> (r: Result<u128, cosmwasm_std::OverflowError>)
    ensures
        match r {
            Ok(v) => v == a - b,
            Err(_) => a < b,
        },
{
    match Uint128::new(a).checked_sub(Uint128::new(b)) {
        Ok(v) => Ok(v.u128()),
        Err(e) => Err(e),
    }
}

/// Calls `cosmwasm_std::Uint128::checked_mul`. Trusted: it returns the exact
/// product when that fits in 128 bits and an error otherwise.
#[verifier::external_body]
fn uint128_checked_mul(a: u128, b: u128) -> (r: Result<u128, cosmwasm_std::OverflowError>)
    ensures
        match r {
            Ok(v) => v == a * b,
            Err(_) => a * b > u128::MAX,
        },
{
    match Uint128::new(a).checked_mul(Uint128::new(b)) {
        Ok(v) => Ok(v.u128()),
        Err(e) => Err(e),
    }
}

/// Calls `cosmwasm_std::Uint128::checked_div`. Trusted: it returns the
/// quotient rounded down when the denominator is not zero and an error
/// otherwise.
#[verifier::external_body]
fn uint128_checked_div(a: u128, b: u128) -> (r: Result<u128, cosmwasm_std::DivideByZeroError>)
    ensures
        match r {
            Ok(v) => b != 0 && v == a / b,
            Err(_) => b == 0,
        },
{
    match Uint128::new(a).checked_div(Uint128::new(b)) {
        Ok(v) => Ok(v.u128()),
        Err(e) => Err(e),
    }
}

/// What `checked_add` returns.
pub open spec fn add_result(a: u128, b: u128) -> Result<u128, ContractError> {
    if a + b <= u128::MAX {
        Ok((a + b) as u128)
    } else {
        Err(ContractError::Overflow)
    }
}

/// What `checked_sub` returns.
pub open spec fn sub_result(a: u128, b: u128) -> Result<u128, ContractError> {
    if a >= b {
        Ok((a - b) as u128)
    } else {
        Err(ContractError::Overflow)
    }
}

/// What `checked_mul` returns.
pub open spec fn mul_result(a: u128, b: u128) -> Result<u128, ContractError> {
    if a * b <= u128::MAX {
        Ok((a * b) as u128)
    } else {
        Err(ContractError::Overflow)
    }
}

/// What `checked_div` returns.
pub open spec fn div_result(a: u128, b: u128) -> Result<u128, ContractError> {
    if b != 0 {
        Ok(a / b)
    } else {
        Err(ContractError::DivideByZero)
    }
}

/// The sum of `a` and `b`, or `Overflow` if it does not fit in 128 bits.
pub fn checked_add(a: u128, b: u128) -> (r: Result<u128, ContractError>)
    ensures
        r == add_result(a, b),
{
    match uint128_checked_add(a, b) {
        Ok(v) => Ok(v),
        Err(_) => Err(ContractError::Overflow),
    }
}

/// The difference of `a` and `b`, or `Overflow` if it would be negative.
pub fn checked_sub(a: u128, b: u128) -> (r: Result<u128, ContractError>)
    ensures
        r == sub_result(a, b),
{
    match uint128_checked_sub(a, b) {
        Ok(v) => Ok(v),
        Err(_) => Err(ContractError::Overflow),
    }
}

/// The product of `a` and `b`, or `Overflow` if it does not fit in 128 bits.
pub fn checked_mul(a: u128, b: u128) -> (r: Result<u128, ContractError>)
    ensures
        r == mul_result(a, b),
{
    match uint128_checked_mul(a, b) {
        Ok(v) => Ok(v),
        Err(_) => Err(ContractError::Overflow),
    }
}

/// The quotient of `a` by `b`, rounded down, or `DivideByZero` if `b` is zero.
pub fn checked_div(a: u128, b: u128) -> (r: Result<u128, ContractError>)
    ensures
        r == div_result(a, b),
{
    match uint128_checked_div(a, b) {
        Ok(v) => Ok(v),
        Err(_) => Err(ContractError::DivideByZero),
    }
}

} // verus!
