//! What holds of the pool's operations on every input, stated over the same
//! spec functions as the operations' own contracts.

use crate::contract::execute_result;
use crate::error::ContractError;
use crate::liquidity::is_balanced;
use crate::liquidity::liquidity_result;
use crate::msg::ExecuteMsg;
use crate::pool::Pool;
use crate::pool::TokenSelection;
use crate::swap::lemma_floor_division;
use crate::swap::lemma_quotient_bounded;
use crate::swap::pool_after_swap;
use crate::swap::swap_output;
use crate::swap::swap_result;
use vstd::prelude::*;

verus! {

/// A swap that is priced pays out no more than the output reserve holds.
pub proof fn swap_output_within_reserve(input_amount: u128, input_total: u128, output_total: u128)
    ensures
        swap_output(input_amount, input_total, output_total) matches Ok(output) ==> output
            <= output_total,
{
    if swap_output(input_amount, input_total, output_total) is Ok {
        lemma_quotient_bounded(input_amount as int, input_total as int, output_total as int);
    }
}

/// After a successful request neither reserve is negative, and neither has
/// wrapped: a deposit leaves the exact sums, a swap the exact sum in the
/// selected slot and the exact, non-negative difference in the other.
pub proof fn reserves_stay_non_negative(pool: Pool, msg: ExecuteMsg)
    ensures
        execute_result(pool, msg) matches Ok(next) ==> {
            &&& next.token1.amount >= 0
            &&& next.token2.amount >= 0
            &&& match msg {
                ExecuteMsg::ProvideLiquidity { token1_amount, token2_amount } => {
                    &&& next.token1.amount == pool.token1.amount + token1_amount
                    &&& next.token2.amount == pool.token2.amount + token2_amount
                },
                ExecuteMsg::Swap { token, input_amount, min_output } => {
                    &&& swap_result(pool, token, input_amount, min_output) matches Ok(output)
                    &&& next.slot(token).amount == pool.slot(token).amount + input_amount
                    &&& next.slot(token.opposite()).amount == pool.slot(token.opposite()).amount
                        - output
                    &&& pool.slot(token.opposite()).amount - output >= 0
                },
            }
        },
{
    match msg {
        ExecuteMsg::ProvideLiquidity { token1_amount, token2_amount } => {},
        ExecuteMsg::Swap { token, input_amount, min_output } => {
            swap_output_within_reserve(
                input_amount,
                pool.slot(token).amount,
                pool.slot(token.opposite()).amount,
            );
        },
    }
}

/// No request changes which assets the pool holds, and no successful request
/// leaves a pool without reserves that had some before; a successful swap
/// leaves none without reserves at all.
pub proof fn pool_stays_active(pool: Pool, msg: ExecuteMsg)
    ensures
        execute_result(pool, msg) matches Ok(next) ==> {
            &&& pool.same_assets(next)
            &&& pool.is_active() ==> next.is_active()
            &&& msg is Swap ==> next.is_active()
        },
{
    reserves_stay_non_negative(pool, msg);
}

/// Where both sums fit in 128 bits, a deposit is accepted if and only if it
/// is in the ratio of the reserves.
pub proof fn deposit_accepted_iff_balanced(pool: Pool, deposit1: u128, deposit2: u128)
    requires
        pool.token1.amount + deposit1 <= u128::MAX,
        pool.token2.amount + deposit2 <= u128::MAX,
    ensures
        liquidity_result(pool, deposit1, deposit2) is Ok <==> is_balanced(pool, deposit1, deposit2),
        !is_balanced(pool, deposit1, deposit2) ==> liquidity_result(pool, deposit1, deposit2) == Err::<
            Pool,
            ContractError,
        >(ContractError::UnbalancedLiquidityError),
{
}

/// A pool with nothing in reserve accepts every deposit and then holds
/// exactly what was deposited.
pub proof fn deposit_into_empty_pool_accepted(pool: Pool, deposit1: u128, deposit2: u128)
    requires
        pool.is_uninitialized(),
    ensures
        liquidity_result(pool, deposit1, deposit2) == Ok::<Pool, ContractError>(
            pool.with_amounts(deposit1, deposit2),
        ),
{
    assert(deposit2 * 0 == deposit1 * 0) by (nonlinear_arith);
}

/// An accepted deposit keeps the ratio of the reserves, and scales their
/// product by the square of the factor by which the first reserve grew.
pub proof fn deposit_keeps_ratio(pool: Pool, deposit1: u128, deposit2: u128)
    ensures
        liquidity_result(pool, deposit1, deposit2) matches Ok(next) ==> {
            &&& next.token2.amount * pool.token1.amount == next.token1.amount
                * pool.token2.amount
            &&& next.product() * (pool.token1.amount * pool.token1.amount) == pool.product() * (
            next.token1.amount * next.token1.amount)
        },
{
    if liquidity_result(pool, deposit1, deposit2) is Ok {
        let b1 = pool.token1.amount as int;
        let b2 = pool.token2.amount as int;
        let d1 = deposit1 as int;
        let d2 = deposit2 as int;
        let n1 = b1 + d1;
        let n2 = b2 + d2;
        assert(d2 * b1 == d1 * b2);
        assert(n2 * b1 == n1 * b2) by (nonlinear_arith)
            requires
                d2 * b1 == d1 * b2,
                n1 == b1 + d1,
                n2 == b2 + d2,
        ;
        assert((n1 * n2) * (b1 * b1) == (b1 * b2) * (n1 * n1)) by (nonlinear_arith)
            requires
                n2 * b1 == n1 * b2,
        ;
    }
}

/// After a successful swap the product of the reserves is the product before
/// it less the remainder that the floor division dropped: never more than
/// before, and less by under the selected reserve as it stands after the swap.
pub proof fn swap_product_after(
    pool: Pool,
    selection: TokenSelection,
    input_amount: u128,
    min_output: u128,
)
    ensures
        swap_result(pool, selection, input_amount, min_output) matches Ok(output) ==> {
            let next = pool_after_swap(pool, selection, input_amount, output);
            let grown = pool.slot(selection).amount + input_amount;
            &&& grown > 0
            &&& next.product() == pool.product() - pool.product() % grown
            &&& pool.product() - grown < next.product() <= pool.product()
        },
{
    if swap_result(pool, selection, input_amount, min_output) is Ok {
        let x = pool.slot(selection).amount as int;
        let y = pool.slot(selection.opposite()).amount as int;
        let n = x + input_amount;
        let k = x * y;
        assert(pool.product() == k) by (nonlinear_arith)
            requires
                pool.product() == x * y || pool.product() == y * x,
                k == x * y,
        ;
        lemma_quotient_bounded(input_amount as int, x, y);
        lemma_floor_division(k, n);
        let q = k / n;
        let next = pool_after_swap(
            pool,
            selection,
            input_amount,
            swap_result(pool, selection, input_amount, min_output)->Ok_0,
        );
        assert(next.slot(selection).amount == n);
        assert(next.slot(selection.opposite()).amount == q);
        assert(next.product() == q * n) by (nonlinear_arith)
            requires
                next.product() == q * n || next.product() == n * q,
        ;
    }
}

/// Where the grown reserve divides the product of the reserves, a successful
/// swap does not lower that product.
pub proof fn swap_product_non_decreasing(
    pool: Pool,
    selection: TokenSelection,
    input_amount: u128,
    min_output: u128,
)
    requires
        swap_result(pool, selection, input_amount, min_output) is Ok,
        pool.product() % (pool.slot(selection).amount + input_amount) == 0,
    ensures
        pool_after_swap(
            pool,
            selection,
            input_amount,
            swap_result(pool, selection, input_amount, min_output)->Ok_0,
        ).product() >= pool.product(),
{
    swap_product_after(pool, selection, input_amount, min_output);
}

/// A swap of nothing, where it succeeds, pays nothing out and leaves the pool
/// as it was. It succeeds where the selected reserve is not empty, the
/// product of the reserves fits in 128 bits and no minimum is asked for.
pub proof fn zero_swap_changes_nothing(pool: Pool, selection: TokenSelection, min_output: u128)
    ensures
        swap_result(pool, selection, 0, min_output) matches Ok(output) ==> {
            &&& output == 0
            &&& pool_after_swap(pool, selection, 0, output) == pool
        },
        swap_result(pool, selection, 0, min_output) is Ok <==> {
            &&& pool.slot(selection).amount > 0
            &&& pool.product() <= u128::MAX
            &&& min_output == 0
        },
{
    let x = pool.slot(selection).amount as int;
    let y = pool.slot(selection.opposite()).amount as int;
    assert(pool.product() == x * y) by (nonlinear_arith)
        requires
            pool.product() == x * y || pool.product() == y * x,
    ;
    if x > 0 {
        assert((x * y) / x == y) by (nonlinear_arith)
            requires
                x > 0,
        ;
    }
}

/// Swapping in, then swapping the whole output back, never returns less than
/// was paid in; where the grown reserve divides the product of the reserves
/// it returns exactly what was paid in.
///
/// `amount` of the selected asset buys `bought` of the other, and `bought`
/// of the other then buys `returned` of the selected one.
pub proof fn round_trip(
    pool: Pool,
    selection: TokenSelection,
    amount: u128,
    min_bought: u128,
    bought: u128,
    min_returned: u128,
    returned: u128,
)
    requires
        swap_result(pool, selection, amount, min_bought) == Ok::<u128, ContractError>(bought),
        swap_result(
            pool_after_swap(pool, selection, amount, bought),
            selection.opposite(),
            bought,
            min_returned,
        ) == Ok::<u128, ContractError>(returned),
    ensures
        returned >= amount,
        pool.product() % (pool.slot(selection).amount + amount) == 0 ==> returned <= amount,
{
    let x = pool.slot(selection).amount as int;
    let y = pool.slot(selection.opposite()).amount as int;
    let a = amount as int;
    let n = x + a;
    let k = x * y;
    assert(pool.product() == k) by (nonlinear_arith)
        requires
            pool.product() == x * y || pool.product() == y * x,
            k == x * y,
    ;
    lemma_quotient_bounded(a, x, y);
    lemma_floor_division(k, n);
    let q1 = k / n;
    assert(bought == y - q1);
    let next = pool_after_swap(pool, selection, amount, bought);
    let back = selection.opposite();
    assert(back.opposite() == selection);
    let x2 = next.slot(back).amount as int;
    let y2 = next.slot(selection).amount as int;
    assert(x2 == q1);
    assert(y2 == n);
    let k2 = x2 * y2;
    assert(k2 == k - k % n) by (nonlinear_arith)
        requires
            k2 == x2 * y2,
            x2 == q1,
            y2 == n,
            q1 * n == k - k % n,
    ;
    let n2 = x2 + bought;
    assert(n2 == y);
    let q2 = k2 / n2;
    lemma_quotient_bounded(bought as int, x2, y2);
    assert(returned == y2 - q2);
    lemma_floor_division(k2, n2);
    if q2 > x {
        assert(q2 * y >= (x + 1) * y) by (nonlinear_arith)
            requires
                q2 >= x + 1,
                y > 0,
        ;
        assert((x + 1) * y > x * y) by (nonlinear_arith)
            requires
                y > 0,
        ;
    }
    if k % n == 0 {
        assert(k2 / n2 == x) by (nonlinear_arith)
            requires
                k2 == x * y,
                n2 == y,
                y > 0,
        ;
    }
}

} // verus!
