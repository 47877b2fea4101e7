use amm_core::{
    exact_internal_v2, prepare_swap, settle_swap, swap_v2, AccountKey, ErrorCode, MintConfig,
    PoolState, SwapOutcome, TransferFeeConfig, MIN_SQRT_PRICE_X64, POOL_STATUS_FROZEN,
};

fn key(id: u64) -> AccountKey {
    AccountKey { id }
}

fn no_fee() -> MintConfig {
    MintConfig { transfer_fee: None }
}

const P0: u128 = 1 << 64;

/// A fresh pool at price `P0`, open since time 0.
fn test_pool() -> PoolState {
    PoolState::initialize(
        1,
        P0,
        0,
        0,
        key(1),
        key(10),
        key(11),
        key(2),
        key(20),
        key(21),
        key(3),
        key(4),
        1,
        2,
    )
}

/// A swap that sells token 0: the input vault mint is the pool's mint 0.
fn outcome(amount_0: u64, amount_1: u64, price: u128) -> SwapOutcome {
    SwapOutcome {
        amount_0,
        amount_1,
        sqrt_price_x64: price,
        tick_current: -5,
        liquidity: 999,
    }
}

#[test]
fn exact_input_zero_fee_feeds_full_amount_to_engine() {
    // With no transfer fees an exact-input request reaches the engine
    // unchanged, and a caller limit of zero resolves to the pool-wide bound.
    let mut pool = test_pool();
    let plan = prepare_swap(
        &mut pool,
        key(30),
        key(31),
        key(20),
        &no_fee(),
        &no_fee(),
        1_000,
        0,
        true,
        100,
    )
    .unwrap();
    assert_eq!(plan.amount_to_engine, 1_000);
    assert!(plan.zero_for_one);
    assert_eq!(plan.sqrt_price_limit_x64, MIN_SQRT_PRICE_X64 + 1);
    assert_eq!(plan.sqrt_price_before, P0);
}

#[test]
fn exact_input_swap_scenario_price_decreases() {
    // Exact-input, selling token 0, zero fees: the engine consumes the full
    // specified amount and the settled pool's price is strictly below the
    // starting price.
    let mut pool = test_pool();
    let amount: u64 = 1_000;
    let plan = prepare_swap(
        &mut pool,
        key(30),
        key(31),
        key(20),
        &no_fee(),
        &no_fee(),
        amount,
        0,
        true,
        100,
    )
    .unwrap();
    assert_eq!(plan.amount_to_engine, amount);
    let engine = outcome(amount, 500, P0 - 1_000);
    let settlement = settle_swap(&mut pool, &plan, &engine, &no_fee(), &no_fee(), 10_000).unwrap();
    assert!(pool.sqrt_price_x64 < P0);
    assert_eq!(pool.sqrt_price_x64, P0 - 1_000);
    assert_eq!(settlement.transfer_amount_in, 1_000);
    assert_eq!(settlement.transfer_amount_out, 500);
    assert_eq!(settlement.realized_amount, 500);
    assert_eq!(settlement.amount_0, 1_000);
    assert_eq!(settlement.amount_1, 500);
    assert_eq!(settlement.transfer_fee_0, 0);
    assert_eq!(settlement.transfer_fee_1, 0);
    assert!(!settlement.frozen);
    assert_eq!(pool.status, 0);
}

#[test]
fn output_vault_one_short_freezes_the_pool() {
    // The output vault holds exactly one token less than the outgoing
    // transfer: the pool is frozen before the transfer is attempted.
    let mut pool = test_pool();
    let plan = prepare_swap(
        &mut pool,
        key(30),
        key(31),
        key(20),
        &no_fee(),
        &no_fee(),
        1_000,
        0,
        true,
        100,
    )
    .unwrap();
    let engine = outcome(1_000, 500, P0 - 1_000);
    let settlement =
        settle_swap(&mut pool, &plan, &engine, &no_fee(), &no_fee(), 499).unwrap();
    assert!(settlement.frozen);
    assert_eq!(pool.status, POOL_STATUS_FROZEN);
}

#[test]
fn output_vault_exactly_covering_does_not_freeze() {
    let mut pool = test_pool();
    let plan = prepare_swap(
        &mut pool,
        key(30),
        key(31),
        key(20),
        &no_fee(),
        &no_fee(),
        1_000,
        0,
        true,
        100,
    )
    .unwrap();
    let engine = outcome(1_000, 500, P0 - 1_000);
    let settlement =
        settle_swap(&mut pool, &plan, &engine, &no_fee(), &no_fee(), 500).unwrap();
    assert!(!settlement.frozen);
    assert_eq!(pool.status, 0);
}

#[test]
fn price_moving_the_wrong_way_is_fatal() {
    let mut pool = test_pool();
    let plan = prepare_swap(
        &mut pool,
        key(30),
        key(31),
        key(20),
        &no_fee(),
        &no_fee(),
        1_000,
        0,
        true,
        100,
    )
    .unwrap();
    let before = pool;
    let engine = outcome(1_000, 500, P0 + 1);
    let r = settle_swap(&mut pool, &plan, &engine, &no_fee(), &no_fee(), 10_000);
    assert_eq!(r, Err(ErrorCode::PriceDirectionInvariantViolated));
    assert_eq!(pool, before);
}

#[test]
fn zero_leg_fill_is_rejected() {
    let mut pool = test_pool();
    let plan = prepare_swap(
        &mut pool,
        key(30),
        key(31),
        key(20),
        &no_fee(),
        &no_fee(),
        1_000,
        0,
        true,
        100,
    )
    .unwrap();
    let engine = outcome(1_000, 0, P0 - 1_000);
    let r = settle_swap(&mut pool, &plan, &engine, &no_fee(), &no_fee(), 10_000);
    assert_eq!(r, Err(ErrorCode::TooSmallInputOrOutputAmount));
}

#[test]
fn pool_not_open_yet() {
    let mut pool = test_pool();
    pool.open_time = 200;
    let r = prepare_swap(
        &mut pool,
        key(30),
        key(31),
        key(20),
        &no_fee(),
        &no_fee(),
        1_000,
        0,
        true,
        200,
    );
    assert_eq!(r, Err(ErrorCode::PoolNotOpenYet));
}

#[test]
fn frozen_pool_rejects_swaps() {
    let mut pool = test_pool();
    pool.status = POOL_STATUS_FROZEN;
    let r = prepare_swap(
        &mut pool,
        key(30),
        key(31),
        key(20),
        &no_fee(),
        &no_fee(),
        1_000,
        0,
        true,
        100,
    );
    assert_eq!(r, Err(ErrorCode::PoolIsFrozen));
}

#[test]
fn first_swap_binds_leveraged_mints_and_mismatch_is_rejected() {
    let mut pool = test_pool();
    assert_eq!(pool.leveraged_mint_0, None);
    prepare_swap(
        &mut pool,
        key(30),
        key(31),
        key(20),
        &no_fee(),
        &no_fee(),
        1_000,
        0,
        true,
        100,
    )
    .unwrap();
    assert_eq!(pool.leveraged_mint_0, Some(key(30)));
    assert_eq!(pool.leveraged_mint_1, Some(key(31)));
    // The same pair passes again.
    prepare_swap(
        &mut pool,
        key(30),
        key(31),
        key(20),
        &no_fee(),
        &no_fee(),
        1_000,
        0,
        true,
        100,
    )
    .unwrap();
    // A different pair is rejected, even if only one side differs.
    let r = prepare_swap(
        &mut pool,
        key(30),
        key(99),
        key(20),
        &no_fee(),
        &no_fee(),
        1_000,
        0,
        true,
        100,
    );
    assert_eq!(r, Err(ErrorCode::NotApproved));
}

#[test]
fn selling_token_one_resolves_direction_and_price_rises() {
    // The input vault mint is the pool's mint 1, so the swap buys token 0
    // and the price must rise.
    let mut pool = test_pool();
    let plan = prepare_swap(
        &mut pool,
        key(30),
        key(31),
        key(21),
        &no_fee(),
        &no_fee(),
        1_000,
        0,
        true,
        100,
    )
    .unwrap();
    assert!(!plan.zero_for_one);
    let engine = outcome(400, 1_000, P0 + 777);
    let settlement = settle_swap(&mut pool, &plan, &engine, &no_fee(), &no_fee(), 10_000).unwrap();
    assert!(pool.sqrt_price_x64 > P0);
    // Selling token 1: the input leg is token 1, the output leg token 0.
    assert_eq!(settlement.transfer_amount_in, 1_000);
    assert_eq!(settlement.transfer_amount_out, 400);
    assert_eq!(settlement.realized_amount, 400);
}

#[test]
fn exact_input_slippage_violation_fails_and_changes_nothing() {
    let mut pool = test_pool();
    let before = pool;
    let engine = outcome(1_000, 500, P0 - 1_000);
    let r = swap_v2(
        &mut pool,
        key(30),
        key(31),
        key(20),
        &no_fee(),
        &no_fee(),
        1_000,
        501,
        0,
        true,
        100,
        &engine,
        10_000,
    );
    assert_eq!(r, Err(ErrorCode::TooLittleOutputReceived));
    assert_eq!(pool, before);
}

#[test]
fn exact_input_slippage_bound_met() {
    let mut pool = test_pool();
    let engine = outcome(1_000, 500, P0 - 1_000);
    let settlement = swap_v2(
        &mut pool,
        key(30),
        key(31),
        key(20),
        &no_fee(),
        &no_fee(),
        1_000,
        500,
        0,
        true,
        100,
        &engine,
        10_000,
    )
    .unwrap();
    assert!(settlement.realized_amount >= 500);
    assert_eq!(pool.sqrt_price_x64, P0 - 1_000);
    assert_eq!(pool.leveraged_mint_0, Some(key(30)));
}

#[test]
fn exact_output_slippage_violation_fails_and_changes_nothing() {
    let mut pool = test_pool();
    let before = pool;
    let engine = outcome(1_000, 500, P0 - 1_000);
    // Exact-output: the realized input of 1_000 exceeds the cap of 999.
    let r = swap_v2(
        &mut pool,
        key(30),
        key(31),
        key(20),
        &no_fee(),
        &no_fee(),
        500,
        999,
        0,
        false,
        100,
        &engine,
        10_000,
    );
    assert_eq!(r, Err(ErrorCode::TooMuchInputPaid));
    assert_eq!(pool, before);
}

#[test]
fn exact_output_slippage_bound_met() {
    let mut pool = test_pool();
    let engine = outcome(1_000, 500, P0 - 1_000);
    let settlement = swap_v2(
        &mut pool,
        key(30),
        key(31),
        key(20),
        &no_fee(),
        &no_fee(),
        500,
        1_000,
        0,
        false,
        100,
        &engine,
        10_000,
    )
    .unwrap();
    assert_eq!(settlement.realized_amount, 1_000);
}

#[test]
fn transfer_fees_gross_up_the_input_and_shrink_the_output() {
    // 1% fee on both legs, generous caps. Selling token 0 exact-input.
    let fee_mint = MintConfig {
        transfer_fee: Some(TransferFeeConfig {
            transfer_fee_basis_points: 100,
            maximum_fee: 1_000_000,
        }),
    };
    let mut pool = test_pool();
    let plan = prepare_swap(
        &mut pool,
        key(30),
        key(31),
        key(20),
        &fee_mint,
        &fee_mint,
        10_000,
        0,
        true,
        100,
    )
    .unwrap();
    // The input-side fee of 1% of 10_000 is withheld before the engine.
    assert_eq!(plan.amount_to_engine, 9_900);
    let engine = outcome(9_900, 9_900, P0 - 50);
    let settlement = settle_swap(&mut pool, &plan, &engine, &fee_mint, &fee_mint, 100_000).unwrap();
    // The engine's input delta grossed back up by its inverse fee.
    assert_eq!(settlement.transfer_amount_in, 10_000);
    // The outgoing transfer carries the inverse fee so the user nets at
    // least the engine's output delta.
    assert_eq!(settlement.transfer_amount_out, 10_000);
    assert_eq!(settlement.transfer_fee_1, 100);
    assert!(settlement.realized_amount >= 9_900);
}

#[test]
fn exact_internal_rolls_back_on_late_failure() {
    // The leveraged-mint binding of a failing swap does not survive: a
    // zero-leg engine outcome aborts the whole operation.
    let mut pool = test_pool();
    let before = pool;
    let engine = outcome(1_000, 0, P0 - 1_000);
    let r = exact_internal_v2(
        &mut pool,
        key(30),
        key(31),
        key(20),
        &no_fee(),
        &no_fee(),
        1_000,
        0,
        true,
        100,
        &engine,
        10_000,
    );
    assert_eq!(r, Err(ErrorCode::TooSmallInputOrOutputAmount));
    assert_eq!(pool, before);
    assert_eq!(pool.leveraged_mint_0, None);
}
