#![allow(deprecated)]

use amm_core::{
    calculate_adjustment_ratio, calculate_collateral_to_return, release_amount, unswap_v2,
    vault_balance_from_account_data, AccountKey, ErrorCode, PoolState, RATIO_SCALE,
};
use spl_token::solana_program::program_option::COption;
use spl_token::solana_program::program_pack::Pack;
use spl_token::solana_program::pubkey::Pubkey;
use spl_token::state::{Account, AccountState};

fn key(id: u64) -> AccountKey {
    AccountKey { id }
}

fn pool_at(
    vault_0: u64,
    vault_1: u64,
    sqrt_price: u128,
    price_on_last_rebalance: u128,
    curr_ratio: u128,
) -> PoolState {
    let mut pool = PoolState::initialize(
        1,
        sqrt_price,
        0,
        0,
        key(1),
        key(vault_0),
        key(vault_1),
        key(2),
        key(20),
        key(21),
        key(3),
        key(4),
        1,
        1,
    );
    pool.price_on_last_rebalance = price_on_last_rebalance;
    pool.curr_ratio = curr_ratio;
    pool
}

fn packed_vault(amount: u64) -> Vec<u8> {
    let account = Account {
        mint: Pubkey::new_from_array([1; 32]),
        owner: Pubkey::new_from_array([2; 32]),
        amount,
        delegate: COption::None,
        state: AccountState::Initialized,
        is_native: COption::None,
        delegated_amount: 0,
        close_authority: COption::None,
    };
    let mut data = vec![0u8; 165];
    Account::pack(account, &mut data).unwrap();
    data
}

#[test]
fn vault_balance_reads_the_packed_amount() {
    let data = packed_vault(123_456_789_000);
    assert_eq!(vault_balance_from_account_data(&data), Ok(123_456_789_000));
}

#[test]
fn vault_balance_rejects_wrong_length() {
    let data = vec![0u8; 164];
    assert_eq!(
        vault_balance_from_account_data(&data),
        Err(ErrorCode::InvalidVaultAccountData)
    );
}

#[test]
fn vault_balance_rejects_uninitialized_account() {
    let mut data = packed_vault(5);
    data[108] = 0;
    assert_eq!(
        vault_balance_from_account_data(&data),
        Err(ErrorCode::InvalidVaultAccountData)
    );
}

#[test]
fn collateral_at_ratio_one() {
    // A recorded ratio of exactly one returns the burn amount unscaled.
    let pool = pool_at(10, 11, 100, 100, 1_000_000_000);
    let other = pool_at(12, 13, 100, 100, 1_000_000_000);
    assert_eq!(calculate_collateral_to_return(&pool, &other, 500), Ok(500));
}

#[test]
fn collateral_with_unset_ratio_defaults_to_one() {
    let pool = pool_at(10, 11, 100, 100, 0);
    let other = pool_at(12, 13, 100, 100, 0);
    assert_eq!(calculate_collateral_to_return(&pool, &other, 500), Ok(500));
}

#[test]
fn collateral_halves_at_ratio_two() {
    let pool = pool_at(10, 11, 100, 100, 2_000_000_000);
    let other = pool_at(12, 13, 100, 100, 0);
    assert_eq!(calculate_collateral_to_return(&pool, &other, 1_000), Ok(500));
}

#[test]
fn collateral_overflow_is_rejected() {
    // A tiny recorded ratio blows the scaled collateral past u64.
    let pool = pool_at(10, 11, 100, 100, 1);
    let other = pool_at(12, 13, 100, 100, 0);
    assert_eq!(
        calculate_collateral_to_return(&pool, &other, u64::MAX),
        Err(ErrorCode::TooMuchInputPaid)
    );
}

#[test]
fn adjustment_ratio_is_one_without_price_movement() {
    // No movement means a ratio of exactly one, for any leverage.
    for leverage in [0u64, 1, 2, 7, 40] {
        assert_eq!(
            calculate_adjustment_ratio(123_456_789, 123_456_789, leverage),
            Ok(RATIO_SCALE)
        );
    }
}

#[test]
fn adjustment_ratio_squares_a_doubling() {
    // The price doubled; with leverage 2 the ratio is 4.
    assert_eq!(calculate_adjustment_ratio(200, 100, 2), Ok(4_000_000_000));
}

#[test]
fn adjustment_ratio_with_unset_reference_price_is_one() {
    assert_eq!(calculate_adjustment_ratio(500, 0, 3), Ok(RATIO_SCALE));
}

#[test]
fn adjustment_ratio_overflow_is_rejected() {
    assert_eq!(
        calculate_adjustment_ratio(u128::MAX, 1, 1),
        Err(ErrorCode::TooMuchInputPaid)
    );
}

#[test]
fn release_amount_takes_the_shortfall_share() {
    // Ratio one half: half the balance is released.
    assert_eq!(release_amount(500_000_000, 1_000), 500);
    // Ratio at or above one releases nothing.
    assert_eq!(release_amount(RATIO_SCALE, 1_000), 0);
    assert_eq!(release_amount(2_000_000_000, 1_000), 0);
}

#[test]
fn unswap_plans_both_legs_and_advances_bookkeeping() {
    // The pool trades at 100 (down from 200), its pair at 50 (down from
    // 200); the pool is the higher-priced side. Leverage 1.
    let mut pool = pool_at(10, 11, 100, 200, 2_000_000_000);
    let mut other = pool_at(12, 13, 50, 200, 0);
    let pool_base = packed_vault(1_000);
    let pool_quote = packed_vault(7_777);
    let other_base = packed_vault(8_888);
    let other_quote = packed_vault(400);
    let plan = unswap_v2(
        &mut pool,
        &mut other,
        &pool_base,
        &pool_quote,
        &other_base,
        &other_quote,
        1_000,
    )
    .unwrap();
    assert_eq!(plan.burn_amount, 1_000);
    // Collateral of 500 (ratio 2), scaled once more at settlement.
    assert_eq!(plan.collateral_transfer, 500 / 1_000_000_000);
    // Base leg: the higher pool's ratio is 100/200 = one half, so half of
    // its base vault of 1_000 moves to the pair's base vault.
    assert_eq!(plan.base_leg.from_vault, key(10));
    assert_eq!(plan.base_leg.to_vault, key(12));
    assert_eq!(plan.base_leg.amount, 500);
    // Quote leg: the lower pool's ratio is 50/200 = one quarter, so three
    // quarters of its quote vault of 400 move to the pool's quote vault.
    assert_eq!(plan.quote_leg.from_vault, key(13));
    assert_eq!(plan.quote_leg.to_vault, key(11));
    assert_eq!(plan.quote_leg.amount, 300);
    // Both pools' bookkeeping advanced to the realized ratios and prices.
    assert_eq!(pool.price_on_last_rebalance, 100);
    assert_eq!(pool.curr_ratio, 500_000_000);
    assert_eq!(other.price_on_last_rebalance, 50);
    assert_eq!(other.curr_ratio, 250_000_000);
}

#[test]
fn unswap_with_unparsable_vault_fails_unchanged() {
    let mut pool = pool_at(10, 11, 100, 200, 2_000_000_000);
    let mut other = pool_at(12, 13, 50, 200, 0);
    let before_pool = pool;
    let before_other = other;
    let bad = vec![1u8; 10];
    let ok_quote = packed_vault(400);
    let r = unswap_v2(
        &mut pool,
        &mut other,
        &bad,
        &bad,
        &bad,
        &ok_quote,
        1_000,
    );
    assert_eq!(r, Err(ErrorCode::InvalidVaultAccountData));
    assert_eq!(pool, before_pool);
    assert_eq!(other, before_other);
}

#[test]
fn unswap_arithmetic_overflow_fails_unchanged() {
    // The pool's ratio computation overflows on an extreme price.
    let mut pool = pool_at(10, 11, u128::MAX, 1, 0);
    let mut other = pool_at(12, 13, 50, 200, 0);
    let before_pool = pool;
    let data = packed_vault(1);
    let r = unswap_v2(&mut pool, &mut other, &data, &data, &data, &data, 10);
    assert_eq!(r, Err(ErrorCode::TooMuchInputPaid));
    assert_eq!(pool, before_pool);
}
