use mandalorian::{
    calculate_output_amount, execute, instantiate, provide_liquidity, swap, Attribute,
    ContractError, Denom, ExecuteMsg, InstantiateMsg, Instruction, Pool, Response, Token,
    TokenSelection,
};

fn native(name: &str) -> Denom {
    Denom::Native(name.to_string())
}

fn cw20(addr: &str) -> Denom {
    Denom::Cw20(addr.to_string())
}

fn pool_of(amount1: u128, amount2: u128) -> Pool {
    Pool {
        token1: Token { amount: amount1, denom: native("uatom") },
        token2: Token { amount: amount2, denom: cw20("token-contract") },
    }
}

fn sender() -> String {
    "alice".to_string()
}

fn custody() -> String {
    "pool-contract".to_string()
}

fn amounts(pool: &Pool) -> (u128, u128) {
    (pool.token1.amount, pool.token2.amount)
}

#[test]
fn instantiate_makes_an_empty_pool() {
    let pool = instantiate(InstantiateMsg {
        token1_denom: native("uatom"),
        token2_denom: cw20("token-contract"),
    });
    assert_eq!(pool, pool_of(0, 0));
    let (denom1, amount1, denom2, amount2) = pool.read();
    assert_eq!(denom1, &native("uatom"));
    assert_eq!(amount1, 0);
    assert_eq!(denom2, &cw20("token-contract"));
    assert_eq!(amount2, 0);
}

#[test]
fn write_replaces_both_amounts_and_keeps_the_assets() {
    let mut pool = pool_of(1, 2);
    pool.write(30, 40);
    assert_eq!(pool, pool_of(30, 40));
    assert_eq!(pool.amount(TokenSelection::Token1), 30);
    assert_eq!(pool.amount(TokenSelection::Token2), 40);
    assert_eq!(TokenSelection::Token1.other(), TokenSelection::Token2);
    assert_eq!(TokenSelection::Token2.other(), TokenSelection::Token1);
}

#[test]
fn first_deposit_sets_the_ratio() {
    let mut pool = pool_of(0, 0);
    let response = provide_liquidity(&mut pool, &sender(), &custody(), 100, 200).unwrap();
    assert_eq!(amounts(&pool), (100, 200));
    assert_eq!(
        response.attributes,
        vec![
            Attribute { key: "token1_amount".to_string(), value: 100 },
            Attribute { key: "token2_amount".to_string(), value: 200 },
        ]
    );
}

#[test]
fn empty_deposit_into_empty_pool_is_a_no_op() {
    let mut pool = pool_of(0, 0);
    assert!(provide_liquidity(&mut pool, &sender(), &custody(), 0, 0).is_ok());
    assert_eq!(pool, pool_of(0, 0));
}

#[test]
fn empty_pool_accepts_the_largest_deposit() {
    let mut pool = pool_of(0, 0);
    assert!(provide_liquidity(&mut pool, &sender(), &custody(), u128::MAX, 1).is_ok());
    assert_eq!(amounts(&pool), (u128::MAX, 1));
}

#[test]
fn balanced_deposit_is_accepted() {
    let mut pool = pool_of(100, 200);
    assert!(provide_liquidity(&mut pool, &sender(), &custody(), 50, 100).is_ok());
    assert_eq!(amounts(&pool), (150, 300));
}

#[test]
fn unbalanced_deposit_is_refused() {
    let mut pool = pool_of(150, 300);
    assert_eq!(
        provide_liquidity(&mut pool, &sender(), &custody(), 10, 10),
        Err(ContractError::UnbalancedLiquidityError)
    );
    assert_eq!(pool, pool_of(150, 300));
}

#[test]
fn deposit_ratio_is_judged_on_exact_products() {
    // 2^64 * 2^64 and 0 * 1 agree modulo 2^128 only.
    let mut pool = pool_of(1 << 64, 1);
    assert_eq!(
        provide_liquidity(&mut pool, &sender(), &custody(), 0, 1 << 64),
        Err(ContractError::UnbalancedLiquidityError)
    );
    assert_eq!(pool, pool_of(1 << 64, 1));
    // Balanced, with products beyond 128 bits.
    let mut large = pool_of(1 << 100, 1 << 101);
    assert!(provide_liquidity(&mut large, &sender(), &custody(), 1 << 90, 1 << 91).is_ok());
    assert_eq!(amounts(&large), ((1 << 100) + (1 << 90), (1 << 101) + (1 << 91)));
}

#[test]
fn deposit_that_overflows_a_reserve_is_refused() {
    let mut pool = pool_of(u128::MAX, u128::MAX);
    assert_eq!(
        provide_liquidity(&mut pool, &sender(), &custody(), 1, 1),
        Err(ContractError::Overflow)
    );
    assert_eq!(pool, pool_of(u128::MAX, u128::MAX));
}

#[test]
fn deposit_asks_for_one_transfer_per_token() {
    let mut pool = pool_of(0, 0);
    let response = provide_liquidity(&mut pool, &sender(), &custody(), 100, 200).unwrap();
    assert_eq!(
        response.messages,
        vec![Instruction::TransferFrom {
            token: "token-contract".to_string(),
            owner: "alice".to_string(),
            recipient: "pool-contract".to_string(),
            amount: 200,
        }]
    );

    let mut tokens = Pool {
        token1: Token { amount: 1, denom: cw20("first") },
        token2: Token { amount: 3, denom: cw20("second") },
    };
    let response = provide_liquidity(&mut tokens, &sender(), &custody(), 2, 6).unwrap();
    assert_eq!(
        response.messages,
        vec![
            Instruction::TransferFrom {
                token: "first".to_string(),
                owner: "alice".to_string(),
                recipient: "pool-contract".to_string(),
                amount: 2,
            },
            Instruction::TransferFrom {
                token: "second".to_string(),
                owner: "alice".to_string(),
                recipient: "pool-contract".to_string(),
                amount: 6,
            },
        ]
    );

    let mut natives = Pool {
        token1: Token { amount: 1, denom: native("uatom") },
        token2: Token { amount: 3, denom: native("uosmo") },
    };
    let response = provide_liquidity(&mut natives, &sender(), &custody(), 2, 6).unwrap();
    assert_eq!(response.messages, vec![]);
}

#[test]
fn output_amount_follows_the_constant_product() {
    assert_eq!(calculate_output_amount(50, 150, 300), Ok(75));
    assert_eq!(calculate_output_amount(51, 150, 300), Ok(77));
    assert_eq!(calculate_output_amount(0, 150, 300), Ok(0));
    assert_eq!(calculate_output_amount(5, 0, 300), Ok(300));
    assert_eq!(calculate_output_amount(5, 300, 0), Ok(0));
}

#[test]
fn output_amount_fails_as_the_arithmetic_does() {
    assert_eq!(calculate_output_amount(1, 1 << 64, 1 << 64), Err(ContractError::Overflow));
    assert_eq!(calculate_output_amount(1, u128::MAX, 1), Err(ContractError::Overflow));
    assert_eq!(calculate_output_amount(0, 0, 0), Err(ContractError::DivideByZero));
    assert_eq!(calculate_output_amount(0, 0, 5), Err(ContractError::DivideByZero));
}

#[test]
fn swap_moves_both_reserves() {
    let mut pool = pool_of(150, 300);
    let response = swap(&mut pool, 50, TokenSelection::Token1, sender(), 0).unwrap();
    assert_eq!(amounts(&pool), (200, 225));
    assert_eq!(
        response,
        Response {
            messages: vec![Instruction::Send {
                denom: cw20("token-contract"),
                recipient: "alice".to_string(),
                amount: 75,
            }],
            attributes: vec![],
        }
    );
}

#[test]
fn swap_of_the_second_asset_pays_the_first() {
    let mut pool = pool_of(300, 150);
    let response = swap(&mut pool, 50, TokenSelection::Token2, sender(), 75).unwrap();
    assert_eq!(amounts(&pool), (225, 200));
    assert_eq!(
        response.messages,
        vec![Instruction::Send {
            denom: native("uatom"),
            recipient: "alice".to_string(),
            amount: 75,
        }]
    );
}

#[test]
fn swap_fails_when_the_product_overflows() {
    let mut pool = pool_of(1 << 64, 1 << 64);
    assert_eq!(
        swap(&mut pool, 10, TokenSelection::Token1, sender(), 0),
        Err(ContractError::Overflow)
    );
    assert_eq!(pool, pool_of(1 << 64, 1 << 64));
}

#[test]
fn swap_fails_when_the_input_reserve_overflows() {
    let mut pool = pool_of(u128::MAX, 1);
    assert_eq!(
        swap(&mut pool, 1, TokenSelection::Token1, sender(), 0),
        Err(ContractError::Overflow)
    );
    assert_eq!(pool, pool_of(u128::MAX, 1));
}

#[test]
fn swap_of_nothing_on_an_empty_pool_divides_by_zero() {
    let mut pool = pool_of(0, 0);
    assert_eq!(
        swap(&mut pool, 0, TokenSelection::Token1, sender(), 0),
        Err(ContractError::DivideByZero)
    );
    assert_eq!(pool, pool_of(0, 0));
}

#[test]
fn swap_under_the_minimum_is_refused() {
    let mut pool = pool_of(150, 300);
    assert_eq!(
        swap(&mut pool, 50, TokenSelection::Token1, sender(), 76),
        Err(ContractError::Slippage)
    );
    assert_eq!(pool, pool_of(150, 300));
    assert!(swap(&mut pool, 50, TokenSelection::Token1, sender(), 75).is_ok());
    assert_eq!(amounts(&pool), (200, 225));
}

#[test]
fn swap_of_nothing_changes_nothing() {
    let mut pool = pool_of(150, 300);
    let response = swap(&mut pool, 0, TokenSelection::Token1, sender(), 0).unwrap();
    assert_eq!(pool, pool_of(150, 300));
    assert_eq!(
        response.messages,
        vec![Instruction::Send {
            denom: cw20("token-contract"),
            recipient: "alice".to_string(),
            amount: 0,
        }]
    );
}

#[test]
fn swap_never_pays_more_than_the_reserve() {
    for input in [0u128, 1, 7, 150, 10_000, u128::MAX - 150] {
        let mut pool = pool_of(150, 300);
        let response = swap(&mut pool, input, TokenSelection::Token1, sender(), 0).unwrap();
        match &response.messages[0] {
            Instruction::Send { amount, .. } => {
                assert!(*amount <= 300);
                assert_eq!(pool.token2.amount, 300 - *amount);
            }
            _ => panic!("a swap sends its output"),
        }
        assert_eq!(pool.token1.amount, 150 + input);
    }
}

#[test]
fn swap_product_drops_by_the_remainder_only() {
    // 201 does not divide 45000: the remainder, 177, leaves the product.
    let mut pool = pool_of(150, 300);
    swap(&mut pool, 51, TokenSelection::Token1, sender(), 0).unwrap();
    assert_eq!(amounts(&pool), (201, 223));
    assert_eq!(201 * 223, 45000 - 177);
    // 200 divides 45000: the product stays.
    let mut exact = pool_of(150, 300);
    swap(&mut exact, 50, TokenSelection::Token1, sender(), 0).unwrap();
    assert_eq!(exact.token1.amount * exact.token2.amount, 45000);
}

#[test]
fn round_trip_with_exact_division_returns_the_input() {
    let mut pool = pool_of(150, 300);
    swap(&mut pool, 50, TokenSelection::Token1, sender(), 0).unwrap();
    assert_eq!(amounts(&pool), (200, 225));
    let back = swap(&mut pool, 75, TokenSelection::Token2, sender(), 0).unwrap();
    assert_eq!(amounts(&pool), (150, 300));
    assert_eq!(
        back.messages,
        vec![Instruction::Send {
            denom: native("uatom"),
            recipient: "alice".to_string(),
            amount: 50,
        }]
    );
}

#[test]
fn round_trip_with_a_remainder_returns_more_than_the_input() {
    let mut pool = pool_of(150, 300);
    swap(&mut pool, 51, TokenSelection::Token1, sender(), 0).unwrap();
    assert_eq!(amounts(&pool), (201, 223));
    swap(&mut pool, 77, TokenSelection::Token2, sender(), 0).unwrap();
    assert_eq!(amounts(&pool), (149, 300));
}

#[test]
fn swap_leaves_the_pool_active() {
    let mut pool = pool_of(0, 5);
    swap(&mut pool, 3, TokenSelection::Token1, sender(), 0).unwrap();
    assert_eq!(amounts(&pool), (3, 0));
}

#[test]
fn execute_hands_a_deposit_to_provide_liquidity() {
    let mut pool = pool_of(100, 200);
    let response = execute(
        &mut pool,
        &sender(),
        &custody(),
        ExecuteMsg::ProvideLiquidity { token1_amount: 50, token2_amount: 100 },
    )
    .unwrap();
    assert_eq!(amounts(&pool), (150, 300));
    assert_eq!(response.messages.len(), 1);
    assert_eq!(response.attributes.len(), 2);
    assert_eq!(
        execute(
            &mut pool,
            &sender(),
            &custody(),
            ExecuteMsg::ProvideLiquidity { token1_amount: 10, token2_amount: 10 },
        ),
        Err(ContractError::UnbalancedLiquidityError)
    );
    assert_eq!(amounts(&pool), (150, 300));
}

#[test]
fn execute_hands_a_swap_to_swap_with_the_sender_as_recipient() {
    let mut pool = pool_of(150, 300);
    let response = execute(
        &mut pool,
        &sender(),
        &custody(),
        ExecuteMsg::Swap { token: TokenSelection::Token1, input_amount: 50, min_output: 0 },
    )
    .unwrap();
    assert_eq!(amounts(&pool), (200, 225));
    assert_eq!(
        response.messages,
        vec![Instruction::Send {
            denom: cw20("token-contract"),
            recipient: "alice".to_string(),
            amount: 75,
        }]
    );
    assert_eq!(
        execute(
            &mut pool,
            &sender(),
            &custody(),
            ExecuteMsg::Swap { token: TokenSelection::Token2, input_amount: 1, min_output: 500 },
        ),
        Err(ContractError::Slippage)
    );
    assert_eq!(amounts(&pool), (200, 225));
}

#[test]
fn duplicate_copies_an_asset() {
    assert_eq!(native("uatom").duplicate(), native("uatom"));
    assert_eq!(cw20("addr").duplicate(), cw20("addr"));
}

#[test]
fn errors_read_in_words() {
    assert_eq!(ContractError::Overflow.message(), "Overflow error");
    assert_eq!(ContractError::DivideByZero.message(), "Divide by zero error");
    assert_eq!(ContractError::UnbalancedLiquidityError.message(), "Unbalanced liquidity error");
    assert_eq!(ContractError::Slippage.message(), "Slippage error");
}
