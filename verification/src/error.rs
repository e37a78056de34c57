//! The ways in which a pool operation can fail.

use vstd::prelude::*;

verus! {

/// Why an operation on the pool was refused. The pool is unchanged whenever
/// one of these is returned.
#[derive(Debug, Clone, Copy, PartialEq, Eq, Structural)]
pub enum ContractError {
    /// A sum or a product does not fit in 128 bits, or a difference is negative.
    Overflow,
    /// A quotient was asked for with a denominator of zero.
    DivideByZero,
    /// The deposit is not in the ratio of the pool's reserves.
    UnbalancedLiquidityError,
    /// The swap would pay out less than the requester's minimum.
    Slippage,
}

/// The text of `ContractError::message`.
pub open spec fn message_text(e: ContractError) -> Seq<char> {
    match e {
        ContractError::Overflow => "Overflow error"@,
        ContractError::DivideByZero => "Divide by zero error"@,
        ContractError::UnbalancedLiquidityError => "Unbalanced liquidity error"@,
        ContractError::Slippage => "Slippage error"@,
    }
}

impl ContractError {
    /// The error in words.
    pub fn message(&self) -> (r: String)
        ensures
            r@ == message_text(*self),
    {
        match self {
            ContractError::Overflow => "Overflow error".to_owned(),
            ContractError::DivideByZero => "Divide by zero error".to_owned(),
            ContractError::UnbalancedLiquidityError => "Unbalanced liquidity error".to_owned(),
            ContractError::Slippage => "Slippage error".to_owned(),
        }
    }
}

} // verus!
