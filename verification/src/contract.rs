//! The pool's entry points: making a pool, and handing a request to the
//! operation that it names.

use crate::error::ContractError;
use crate::liquidity::deposit_requests;
use crate::liquidity::is_deposit_record;
use crate::liquidity::liquidity_result;
use crate::liquidity::provide_liquidity;
use crate::msg::ExecuteMsg;
use crate::msg::InstantiateMsg;
use crate::msg::Instruction;
use crate::msg::Response;
use crate::pool::Pool;
use crate::pool::Token;
use crate::swap::pool_after_swap;
use crate::swap::swap;
use crate::swap::swap_result;
use vstd::prelude::*;

verus! {

/// A new pool of the two assets that `msg` names, with nothing in reserve.
pub fn instantiate(msg: InstantiateMsg) -> (pool: Pool)
    ensures
        pool == (Pool {
            token1: Token { amount: 0, denom: msg.token1_denom },
            token2: Token { amount: 0, denom: msg.token2_denom },
        }),
        pool.is_uninitialized(),
{
    Pool::new(msg.token1_denom, msg.token2_denom)
}

/// The pool that `execute` leaves behind on success, or why it refuses.
pub open spec fn execute_result(pool: Pool, msg: ExecuteMsg) -> Result<Pool, ContractError> {
    match msg {
        ExecuteMsg::ProvideLiquidity { token1_amount, token2_amount } => liquidity_result(
            pool,
            token1_amount,
            token2_amount,
        ),
        ExecuteMsg::Swap { token, input_amount, min_output } => match swap_result(
            pool,
            token,
            input_amount,
            min_output,
        ) {
            Ok(output) => Ok(pool_after_swap(pool, token, input_amount, output)),
            Err(e) => Err(e),
        },
    }
}

/// What a successful `execute` hands back for `msg` on `pool`.
pub open spec fn is_response_to(
    response: Response,
    pool: Pool,
    sender: String,
    custody: String,
    msg: ExecuteMsg,
) -> bool {
    match msg {
        ExecuteMsg::ProvideLiquidity { token1_amount, token2_amount } => {
            &&& response.messages@ == deposit_requests(
                pool,
                sender,
                custody,
                token1_amount,
                token2_amount,
            )
            &&& is_deposit_record(response.attributes@, token1_amount, token2_amount)
        },
        ExecuteMsg::Swap { token, input_amount, min_output } => {
            &&& swap_result(pool, token, input_amount, min_output) matches Ok(output)
            &&& response.messages@ == seq![
                Instruction::Send {
                    denom: pool.slot(token.opposite()).denom,
                    recipient: sender,
                    amount: output,
                },
            ]
            &&& response.attributes@.len() == 0
        },
    }
}

/// Carries out the request `msg` of `sender` on the pool: a deposit goes to
/// `provide_liquidity`, a swap to `swap` with `sender` as the recipient of
/// the output. `custody` is the address under which the pool holds its
/// assets. A request that is refused leaves the pool as it was.
pub fn execute(pool: &mut Pool, sender: &String, custody: &String, msg: ExecuteMsg) -> (r: Result<
    Response,
    ContractError,
>)
    ensures
        match r {
            Ok(response) => {
                &&& execute_result(*old(pool), msg) == Ok::<Pool, ContractError>(*final(pool))
                &&& is_response_to(response, *old(pool), *sender, *custody, msg)
            },
            Err(e) => {
                &&& execute_result(*old(pool), msg) == Err::<Pool, ContractError>(e)
                &&& *final(pool) == *old(pool)
            },
        },
{
    match msg {
        ExecuteMsg::ProvideLiquidity { token1_amount, token2_amount } => provide_liquidity(
            pool,
            sender,
            custody,
            token1_amount,
            token2_amount,
        ),
        ExecuteMsg::Swap { token, input_amount, min_output } => swap(
            pool,
            input_amount,
            token,
            sender.clone(),
            min_output,
        ),
    }
}

} // verus!
