//! Deposits: both assets at once, in the ratio in which the pool holds them.

use crate::arith::checked_add;
use crate::error::ContractError;
use crate::msg::Attribute;
use crate::msg::Instruction;
use crate::msg::Response;
use crate::pool::Denom;
use crate::pool::Pool;
use crate::wide::products_equal;
use vstd::prelude::*;

verus! {

/// The deposit `(deposit1, deposit2)` is in the ratio of the pool's reserves.
/// The products are those of the numbers themselves, however large. On a pool
/// with nothing in reserve every deposit is balanced.
pub open spec fn is_balanced(pool: Pool, deposit1: u128, deposit2: u128) -> bool {
    deposit2 * pool.token1.amount == deposit1 * pool.token2.amount
}

/// The pool after the deposit, or why the deposit is refused.
pub open spec fn liquidity_result(pool: Pool, deposit1: u128, deposit2: u128) -> Result<
    Pool,
    ContractError,
> {
    if !is_balanced(pool, deposit1, deposit2) {
        Err(ContractError::UnbalancedLiquidityError)
    } else if pool.token1.amount + deposit1 > u128::MAX || pool.token2.amount + deposit2
        > u128::MAX {
        Err(ContractError::Overflow)
    } else {
        Ok(
            pool.with_amounts(
                (pool.token1.amount + deposit1) as u128,
                (pool.token2.amount + deposit2) as u128,
            ),
        )
    }
}

/// The instructions that bring a deposit of `amount` of the asset `denom` in:
/// one transfer from `owner` to `recipient` for a token, none for a native
/// currency, which the host has received already.
pub open spec fn transfer_requests(
    denom: Denom,
    owner: String,
    recipient: String,
    amount: u128,
) -> Seq<Instruction> {
    match denom {
        Denom::Cw20(addr) => seq![
            Instruction::TransferFrom { token: addr, owner: owner, recipient: recipient, amount: amount },
        ],
        Denom::Native(_) => Seq::empty(),
    }
}

/// The instructions for a whole deposit: those of the first slot, then those
/// of the second.
pub open spec fn deposit_requests(
    pool: Pool,
    owner: String,
    recipient: String,
    deposit1: u128,
    deposit2: u128,
) -> Seq<Instruction> {
    transfer_requests(pool.token1.denom, owner, recipient, deposit1) + transfer_requests(
        pool.token2.denom,
        owner,
        recipient,
        deposit2,
    )
}

/// The audit record of a deposit: the two amounts, under their keys.
pub open spec fn is_deposit_record(record: Seq<Attribute>, deposit1: u128, deposit2: u128) -> bool {
    &&& record.len() == 2
    &&& record[0].reads("token1_amount"@, deposit1)
    &&& record[1].reads("token2_amount"@, deposit2)
}

/// The instruction that moves `token_amount` of the token kept by the
/// contract `token_addr` from `owner` to `recipient`.
pub fn make_cw20_transfer_from_message(
    owner: &String,
    recipient: &String,
    token_addr: &String,
    token_amount: u128,
) -> (r: Instruction)
    ensures
        r == (Instruction::TransferFrom {
            token: *token_addr,
            owner: *owner,
            recipient: *recipient,
            amount: token_amount,
        }),
{
    Instruction::TransferFrom {
        token: token_addr.clone(),
        owner: owner.clone(),
        recipient: recipient.clone(),
        amount: token_amount,
    }
}

/// Adds to `messages` what brings a deposit of `amount` of `denom` in.
fn push_transfer_requests(
    messages: &mut Vec<Instruction>,
    denom: &Denom,
    owner: &String,
    recipient: &String,
    amount: u128,
)
    ensures
        final(messages)@ == old(messages)@ + transfer_requests(*denom, *owner, *recipient, amount),
{
    match denom {
        Denom::Cw20(addr) => {
            messages.push(make_cw20_transfer_from_message(owner, recipient, addr, amount));
            assert(messages@ =~= old(messages)@ + transfer_requests(
                *denom,
                *owner,
                *recipient,
                amount,
            ));
        },
        Denom::Native(_) => {
            assert(messages@ =~= old(messages)@ + transfer_requests(
                *denom,
                *owner,
                *recipient,
                amount,
            ));
        },
    }
}

/// Deposits `token1_amount` and `token2_amount` into the pool on behalf of
/// `sender`; `custody` is the address under which the pool holds its assets.
///
/// The deposit is accepted when it is in the ratio of the reserves and both
/// new reserves fit in 128 bits. Then both reserves grow by the deposits, and
/// the response asks for one transfer per tokenized asset and records the two
/// amounts. Otherwise the pool is left as it was.
pub fn provide_liquidity(
    pool: &mut Pool,
    sender: &String,
    custody: &String,
    token1_amount: u128,
    token2_amount: u128,
) -> (r: Result<Response, ContractError>)
    ensures
        match r {
            Ok(response) => {
                &&& liquidity_result(*old(pool), token1_amount, token2_amount) == Ok::<
                    Pool,
                    ContractError,
                >(*final(pool))
                &&& response.messages@ == deposit_requests(
                    *old(pool),
                    *sender,
                    *custody,
                    token1_amount,
                    token2_amount,
                )
                &&& is_deposit_record(response.attributes@, token1_amount, token2_amount)
            },
            Err(e) => {
                &&& liquidity_result(*old(pool), token1_amount, token2_amount) == Err::<
                    Pool,
                    ContractError,
                >(e)
                &&& *final(pool) == *old(pool)
            },
        },
{
    let amount1: u128 = pool.token1.amount;
    let amount2: u128 = pool.token2.amount;
    if !products_equal(token2_amount, amount1, token1_amount, amount2) {
        return Err(ContractError::UnbalancedLiquidityError);
    }
    let new_amount1: u128 = match checked_add(amount1, token1_amount) {
        Ok(v) => v,
        Err(e) => { return Err(e); },
    };
    let new_amount2: u128 = match checked_add(amount2, token2_amount) {
        Ok(v) => v,
        Err(e) => { return Err(e); },
    };
    let mut messages: Vec<Instruction> = Vec::new();
    push_transfer_requests(&mut messages, &pool.token1.denom, sender, custody, token1_amount);
    push_transfer_requests(&mut messages, &pool.token2.denom, sender, custody, token2_amount);
    let mut attributes: Vec<Attribute> = Vec::new();
    attributes.push(Attribute { key: "token1_amount".to_owned(), value: token1_amount });
    attributes.push(Attribute { key: "token2_amount".to_owned(), value: token2_amount });
    pool.write(new_amount1, new_amount2);
    Ok(Response { messages, attributes })
}

} // verus!
