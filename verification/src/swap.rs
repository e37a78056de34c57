//! Swaps, priced by the constant-product rule with floor division.

use crate::arith::checked_add;
use crate::arith::checked_div;
use crate::arith::checked_mul;
use crate::arith::checked_sub;
use crate::error::ContractError;
use crate::msg::Attribute;
use crate::msg::Instruction;
use crate::msg::Response;
use crate::pool::Pool;
use crate::pool::TokenSelection;
use vstd::prelude::*;

verus! {

/// What a swap of `input_amount` pays out against reserves of `input_total`
/// and `output_total`: the output reserve less the product of the reserves
/// divided, rounding down, by the input reserve after the payment.
pub open spec fn swap_output(input_amount: u128, input_total: u128, output_total: u128) -> Result<
    u128,
    ContractError,
> {
    if input_total * output_total > u128::MAX {
        Err(ContractError::Overflow)
    } else if input_total + input_amount > u128::MAX {
        Err(ContractError::Overflow)
    } else if input_total + input_amount == 0 {
        Err(ContractError::DivideByZero)
    } else {
        Ok((output_total - (input_total * output_total) / (input_total + input_amount)) as u128)
    }
}

/// What a swap on `pool` pays out, or why it is refused: the priced output,
/// refused as slippage when it is under `min_output`.
pub open spec fn swap_result(
    pool: Pool,
    selection: TokenSelection,
    input_amount: u128,
    min_output: u128,
) -> Result<u128, ContractError> {
    match swap_output(
        input_amount,
        pool.slot(selection).amount,
        pool.slot(selection.opposite()).amount,
    ) {
        Ok(output) => if output < min_output {
            Err(ContractError::Slippage)
        } else {
            Ok(output)
        },
        Err(e) => Err(e),
    }
}

/// The pool after `input_amount` went into the selected slot and
/// `output_amount` came out of the other.
pub open spec fn pool_after_swap(
    pool: Pool,
    selection: TokenSelection,
    input_amount: u128,
    output_amount: u128,
) -> Pool {
    match selection {
        TokenSelection::Token1 => pool.with_amounts(
            (pool.token1.amount + input_amount) as u128,
            (pool.token2.amount - output_amount) as u128,
        ),
        TokenSelection::Token2 => pool.with_amounts(
            (pool.token1.amount - output_amount) as u128,
            (pool.token2.amount + input_amount) as u128,
        ),
    }
}

/// Floor division by a positive number: the quotient times the divisor is
/// the dividend less the remainder.
pub proof fn lemma_floor_division(k: int, n: int)
    requires
        0 <= k,
        0 < n,
    ensures
        (k / n) * n == k - k % n,
        0 <= k % n < n,
        0 <= k / n,
{
    assert((k / n) * n == k - k % n && 0 <= k % n < n && 0 <= k / n) by (nonlinear_arith)
        requires
            0 <= k,
            0 < n,
    ;
}

/// The quotient of the product of the reserves by the grown input reserve is
/// at most the output reserve.
pub proof fn lemma_quotient_bounded(input_amount: int, input_total: int, output_total: int)
    requires
        0 <= input_amount,
        0 <= input_total,
        0 <= output_total,
        0 < input_total + input_amount,
    ensures
        0 <= (input_total * output_total) / (input_total + input_amount) <= output_total,
{
    let k = input_total * output_total;
    let n = input_total + input_amount;
    let q = k / n;
    assert(0 <= k) by (nonlinear_arith)
        requires
            k == input_total * output_total,
            0 <= input_total,
            0 <= output_total,
    ;
    lemma_floor_division(k, n);
    if q > output_total {
        assert(q * n >= (output_total + 1) * n) by (nonlinear_arith)
            requires
                q >= output_total + 1,
                n > 0,
        ;
        assert((output_total + 1) * n > input_total * output_total) by (nonlinear_arith)
            requires
                n == input_total + input_amount,
                0 <= input_amount,
                0 <= output_total,
                n > 0,
        ;
    }
}

/// Prices a swap: what paying `input_amount` in yields against reserves of
/// `input_total` and `output_total`. The result never exceeds `output_total`.
pub fn calculate_output_amount(input_amount: u128, input_total: u128, output_total: u128) -> (r:
    Result<u128, ContractError>)
    ensures
        r == swap_output(input_amount, input_total, output_total),
        r matches Ok(output) ==> output <= output_total,
{
    let k: u128 = match checked_mul(input_total, output_total) {
        Ok(v) => v,
        Err(e) => { return Err(e); },
    };
    let after1: u128 = match checked_add(input_total, input_amount) {
        Ok(v) => v,
        Err(e) => { return Err(e); },
    };
    let after2: u128 = match checked_div(k, after1) {
        Ok(v) => v,
        Err(e) => { return Err(e); },
    };
    proof {
        lemma_quotient_bounded(input_amount as int, input_total as int, output_total as int);
    }
    checked_sub(output_total, after2)
}

/// Swaps `input_amount` of the selected asset for the other asset, which is
/// to be paid to `recipient`.
///
/// The swap is priced by `calculate_output_amount` and refused as slippage
/// when the output is under `min_output`. On success the selected reserve
/// grows by `input_amount`, the other shrinks by the output, and the response
/// holds the one instruction that pays the output to `recipient`. Otherwise
/// the pool is left as it was.
pub fn swap(
    pool: &mut Pool,
    input_amount: u128,
    input_token_selection: TokenSelection,
    recipient: String,
    min_output: u128,
) -> (r: Result<Response, ContractError>)
    ensures
        match r {
            Ok(response) => {
                &&& swap_result(*old(pool), input_token_selection, input_amount, min_output)
                    matches Ok(output)
                &&& output <= old(pool).slot(input_token_selection.opposite()).amount
                &&& *final(pool) == pool_after_swap(
                    *old(pool),
                    input_token_selection,
                    input_amount,
                    output,
                )
                &&& response.messages@ == seq![
                    Instruction::Send {
                        denom: old(pool).slot(input_token_selection.opposite()).denom,
                        recipient: recipient,
                        amount: output,
                    },
                ]
                &&& response.attributes@.len() == 0
            },
            Err(e) => {
                &&& swap_result(*old(pool), input_token_selection, input_amount, min_output)
                    == Err::<u128, ContractError>(e)
                &&& *final(pool) == *old(pool)
            },
        },
{
    let output_selection: TokenSelection = input_token_selection.other();
    let input_total: u128 = pool.amount(input_token_selection);
    let output_total: u128 = pool.amount(output_selection);
    let output_amount: u128 = match calculate_output_amount(
        input_amount,
        input_total,
        output_total,
    ) {
        Ok(v) => v,
        Err(e) => { return Err(e); },
    };
    if output_amount < min_output {
        return Err(ContractError::Slippage);
    }
    let new_input_total: u128 = match checked_add(input_total, input_amount) {
        Ok(v) => v,
        Err(e) => { return Err(e); },
    };
    let new_output_total: u128 = match checked_sub(output_total, output_amount) {
        Ok(v) => v,
        Err(e) => { return Err(e); },
    };
    let mut messages: Vec<Instruction> = Vec::new();
    let attributes: Vec<Attribute> = Vec::new();
    match input_token_selection {
        TokenSelection::Token1 => {
            messages.push(
                Instruction::Send {
                    denom: pool.token2.denom.duplicate(),
                    recipient,
                    amount: output_amount,
                },
            );
            pool.write(new_input_total, new_output_total);
        },
        TokenSelection::Token2 => {
            messages.push(
                Instruction::Send {
                    denom: pool.token1.denom.duplicate(),
                    recipient,
                    amount: output_amount,
                },
            );
            pool.write(new_output_total, new_input_total);
        },
    }
    assert(messages@ =~= seq![
        Instruction::Send {
            denom: old(pool).slot(input_token_selection.opposite()).denom,
            recipient: recipient,
            amount: output_amount,
        },
    ]);
    Ok(Response { messages, attributes })
}

} // verus!
