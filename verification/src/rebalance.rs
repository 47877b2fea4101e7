use vstd::prelude::*;

use crate::error::ErrorCode;
use crate::pool::PoolState;

verus! {

/// Fixed-point base of the price-movement adjustment applied to the pools'
/// notional values.
pub const VALUE_PRECISION: u128 = 1_000_000;

/// The long vault's share of the combined balance under leverage factor `l`:
/// `total * l / (l + 1)`.
pub open spec fn spec_target_long(leverage_factor: int, total: int) -> int {
    total * leverage_factor / (leverage_factor + 1)
}

/// The amount a rebalance of balances (`long`, `short`) moves between the
/// two vaults to reach the leverage targets.
pub open spec fn spec_rebalance_transfer(leverage_factor: int, long: int, short: int) -> int {
    let target_long = spec_target_long(leverage_factor, long + short);
    if long >= target_long {
        long - target_long
    } else {
        target_long - long
    }
}

/// The transfer that brings a long/short vault pair to its leverage targets.
#[derive(Clone, Copy, Debug, PartialEq, Eq, Structural)]
pub struct RebalanceAction {
    /// Balance the long vault is brought to.
    pub target_long: u64,
    /// Balance the short vault is brought to.
    pub target_short: u64,
    /// Direction of the correcting transfer: true moves long to short.
    pub from_long_to_short: bool,
    /// Amount of the correcting transfer.
    pub transfer_amount: u64,
}

/// Splits the combined balance of a long/short vault pair so that the long
/// vault holds `leverage_factor / (leverage_factor + 1)` of the total, and
/// returns the single transfer that reaches that split. Fails with
/// `TotalBalanceZero` when the pair holds nothing.
///
/// The two vaults hold the same token, so their combined balance is bounded
/// by that token's supply and fits a `u64`.
pub fn rebalance(leverage_factor: u64, long_vault_amount: u64, short_vault_amount: u64) -> (r:
    Result<RebalanceAction, ErrorCode>)
    requires
        long_vault_amount + short_vault_amount <= u64::MAX,
    ensures
        r is Ok <==> long_vault_amount + short_vault_amount > 0,
        r is Err ==> r->Err_0 == ErrorCode::TotalBalanceZero,
        r is Ok ==> ({
            let total = long_vault_amount + short_vault_amount;
            let action = r->Ok_0;
            &&& action.target_long == spec_target_long(leverage_factor as int, total)
            &&& action.target_short == total - action.target_long
            &&& action.target_long + action.target_short == total
            &&& action.from_long_to_short == (long_vault_amount >= action.target_long)
            &&& action.transfer_amount == spec_rebalance_transfer(
                leverage_factor as int,
                long_vault_amount as int,
                short_vault_amount as int,
            )
            &&& (action.from_long_to_short ==> long_vault_amount - action.transfer_amount
                == action.target_long)
            &&& (!action.from_long_to_short ==> long_vault_amount + action.transfer_amount
                == action.target_long)
        }),
{
    let total: u64 = long_vault_amount + short_vault_amount;
    if total == 0 {
        return Result::Err(ErrorCode::TotalBalanceZero);
    }
    proof {
        assert(total as int * leverage_factor as int <= u128::MAX) by (nonlinear_arith)
            requires
                0 <= total <= u64::MAX,
                0 <= leverage_factor <= u64::MAX,
        ;
        assert((total as int * leverage_factor as int) / (leverage_factor as int + 1)
            <= total as int && (total as int * leverage_factor as int) / (leverage_factor as int
            + 1) >= 0) by (nonlinear_arith)
            requires
                total >= 0,
                leverage_factor >= 0,
        ;
    }
    let scaled: u128 = (total as u128) * (leverage_factor as u128);
    let target_long_wide: u128 = scaled / ((leverage_factor as u128) + 1);
    let target_long: u64 = target_long_wide as u64;
    let target_short: u64 = total - target_long;
    if long_vault_amount >= target_long {
        Result::Ok(
            RebalanceAction {
                target_long,
                target_short,
                from_long_to_short: true,
                transfer_amount: long_vault_amount - target_long,
            },
        )
    } else {
        Result::Ok(
            RebalanceAction {
                target_long,
                target_short,
                from_long_to_short: false,
                transfer_amount: target_long - long_vault_amount,
            },
        )
    }
}

/// Rebalancing is idempotent at the target point: once a pair of vaults has
/// been brought to its leverage targets, rebalancing again with the same
/// leverage factor and no intervening balance change moves nothing.
pub proof fn lemma_rebalance_idempotent(leverage_factor: u64, long: u64, short: u64)
    requires
        0 < long + short <= u64::MAX,
    ensures
        ({
            let total = long as int + short as int;
            let target_long = spec_target_long(leverage_factor as int, total);
            spec_rebalance_transfer(
                leverage_factor as int,
                target_long,
                total - target_long,
            ) == 0
        }),
{
}

/// Whether the price-movement adjustment of a pool pair's notional values
/// succeeds: the reference price is set, the movement ratio is nonzero, and
/// no scaling overflows.
pub open spec fn spec_adjust_ok(long_pool: PoolState, short_pool: PoolState, new_price: u128) -> bool {
    &&& long_pool.last_price != 0
    &&& new_price * VALUE_PRECISION <= u128::MAX
    &&& spec_adjust_ratio(long_pool, new_price) != 0
    &&& long_pool.value * spec_adjust_ratio(long_pool, new_price) <= u128::MAX
    &&& short_pool.value * VALUE_PRECISION <= u128::MAX
}

/// The price-movement ratio of the adjustment, scaled by `VALUE_PRECISION`.
pub open spec fn spec_adjust_ratio(long_pool: PoolState, new_price: u128) -> int {
    (new_price * VALUE_PRECISION) as int / long_pool.last_price as int
}

/// Adjusts the paired pools' notional values for the price movement since
/// the last adjustment: the long pool's value scales with the movement
/// ratio, the short pool's value scales inversely, and both pools' price
/// snapshots advance to the new price — both sides together or neither.
/// Any overflow, an unset reference price, or a ratio rounding to zero fails
/// with the generic overflow signal and leaves both pools unchanged.
pub fn adjust_position_values(
    long_pool: &mut PoolState,
    short_pool: &mut PoolState,
    new_price: u128,
) -> (r: Result<(), ErrorCode>)
    ensures
        r is Ok <==> spec_adjust_ok(*old(long_pool), *old(short_pool), new_price),
        r is Err ==> *final(long_pool) == *old(long_pool) && *final(short_pool) == *old(
            short_pool,
        ) && r->Err_0 == ErrorCode::TooMuchInputPaid,
        r is Ok ==> ({
            let ratio = spec_adjust_ratio(*old(long_pool), new_price);
            &&& *final(long_pool) == (PoolState {
                value: (old(long_pool).value * ratio / VALUE_PRECISION as int) as u128,
                last_price: new_price,
                ..*old(long_pool)
            })
            &&& *final(short_pool) == (PoolState {
                value: (old(short_pool).value * VALUE_PRECISION as int / ratio) as u128,
                last_price: new_price,
                ..*old(short_pool)
            })
        }),
{
    if long_pool.last_price == 0 {
        return Result::Err(ErrorCode::TooMuchInputPaid);
    }
    let scaled_price: u128 = match new_price.checked_mul(VALUE_PRECISION) {
        Option::Some(p) => p,
        Option::None => {
            return Result::Err(ErrorCode::TooMuchInputPaid);
        },
    };
    let ratio: u128 = scaled_price / long_pool.last_price;
    if ratio == 0 {
        return Result::Err(ErrorCode::TooMuchInputPaid);
    }
    let scaled_long_value: u128 = match long_pool.value.checked_mul(ratio) {
        Option::Some(v) => v,
        Option::None => {
            return Result::Err(ErrorCode::TooMuchInputPaid);
        },
    };
    let scaled_short_value: u128 = match short_pool.value.checked_mul(VALUE_PRECISION) {
        Option::Some(v) => v,
        Option::None => {
            return Result::Err(ErrorCode::TooMuchInputPaid);
        },
    };
    long_pool.value = scaled_long_value / VALUE_PRECISION;
    long_pool.last_price = new_price;
    short_pool.value = scaled_short_value / ratio;
    short_pool.last_price = new_price;
    Result::Ok(())
}

/// Selects which pool of a pair acts as the active swap pool for a call:
/// an even block time selects the long pool. This block-time-parity routing
/// is part of the deployed pair mechanism and is preserved as is.
pub fn select_active_pool(block_timestamp: u64) -> (long_is_active: bool)
    ensures
        long_is_active == (block_timestamp % 2 == 0),
{
    block_timestamp % 2 == 0
}

} // verus!
