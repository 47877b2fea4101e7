use vstd::prelude::*;
use vstd::arithmetic::div_mod::lemma_div_multiples_vanish;

use crate::error::ErrorCode;
use crate::pool::{AccountKey, PoolState, RATIO_SCALE};
use crate::vault::{
    spec_vault_account_valid, spec_vault_balance, vault_balance_from_account_data,
};

verus! {

/// The price-movement ratio since the last rebalance, scaled by
/// `RATIO_SCALE`; an unset reference price falls over to a ratio of one.
pub open spec fn spec_movement_ratio(current_price: u128, last_rebalance_price: u128) -> int {
    if last_rebalance_price == 0 {
        RATIO_SCALE as int
    } else {
        (current_price as int * RATIO_SCALE as int) / last_rebalance_price as int
    }
}

/// Whether the movement-ratio scaling fits `u128`.
pub open spec fn spec_movement_fits(current_price: u128, last_rebalance_price: u128) -> bool {
    last_rebalance_price == 0 || current_price as int * RATIO_SCALE as int <= u128::MAX
}

/// `movement` raised to the `n`-th power in `RATIO_SCALE` fixed point,
/// rescaling after each multiplication.
pub open spec fn spec_pow_ratio(movement: int, n: nat) -> int
    decreases n,
{
    if n == 0 {
        RATIO_SCALE as int
    } else {
        spec_pow_ratio(movement, (n - 1) as nat) * movement / RATIO_SCALE as int
    }
}

/// Whether every intermediate product of the fixed-point power stays within
/// `u128`.
pub open spec fn spec_pow_ratio_ok(movement: int, n: nat) -> bool
    decreases n,
{
    if n == 0 {
        true
    } else {
        spec_pow_ratio_ok(movement, (n - 1) as nat) && spec_pow_ratio(movement, (n - 1) as nat)
            * movement <= u128::MAX
    }
}

/// Whether the adjustment-ratio computation succeeds for these inputs.
pub open spec fn spec_adjustment_ok(
    current_price: u128,
    last_rebalance_price: u128,
    leverage: u64,
) -> bool {
    &&& spec_movement_fits(current_price, last_rebalance_price)
    &&& spec_pow_ratio_ok(
        spec_movement_ratio(current_price, last_rebalance_price),
        leverage as nat,
    )
}

/// The adjustment ratio `(current / last) ^ leverage`, in `RATIO_SCALE`
/// fixed point.
pub open spec fn spec_adjustment_ratio(
    current_price: u128,
    last_rebalance_price: u128,
    leverage: u64,
) -> int {
    spec_pow_ratio(spec_movement_ratio(current_price, last_rebalance_price), leverage as nat)
}

/// A fixed-point power of one is one, with no intermediate overflow.
proof fn lemma_pow_ratio_one(n: nat)
    ensures
        spec_pow_ratio_ok(RATIO_SCALE as int, n),
        spec_pow_ratio(RATIO_SCALE as int, n) == RATIO_SCALE as int,
    decreases n,
{
    if n > 0 {
        lemma_pow_ratio_one((n - 1) as nat);
    }
}

/// Overflow at any step dooms every longer power chain.
proof fn lemma_pow_ratio_ok_monotone(movement: int, m: nat, n: nat)
    requires
        m <= n,
        spec_pow_ratio_ok(movement, n),
    ensures
        spec_pow_ratio_ok(movement, m),
    decreases n,
{
    if m < n {
        lemma_pow_ratio_ok_monotone(movement, m, (n - 1) as nat);
    }
}

/// No price movement means a ratio of exactly one, whatever the leverage.
pub proof fn lemma_adjustment_ratio_identity(price: u128, leverage: u64)
    requires
        price > 0,
        price as int * RATIO_SCALE as int <= u128::MAX,
    ensures
        spec_adjustment_ok(price, price, leverage),
        spec_adjustment_ratio(price, price, leverage) == RATIO_SCALE,
{
    lemma_div_multiples_vanish(RATIO_SCALE as int, price as int);
    lemma_pow_ratio_one(leverage as nat);
}

/// The adjustment ratio since the last rebalance: the price-movement ratio
/// raised to the leverage factor, in `RATIO_SCALE` fixed point, rescaling
/// after each multiplication. An unset reference price falls over to a
/// movement ratio of one; any overflow fails with the generic overflow
/// signal.
pub fn calculate_adjustment_ratio(
    current_price: u128,
    last_rebalance_price: u128,
    leverage: u64,
) -> (r: Result<u128, ErrorCode>)
    ensures
        r is Ok <==> spec_adjustment_ok(current_price, last_rebalance_price, leverage),
        r is Ok ==> r->Ok_0 == spec_adjustment_ratio(
            current_price,
            last_rebalance_price,
            leverage,
        ),
        r is Err ==> r->Err_0 == ErrorCode::TooMuchInputPaid,
{
    let movement: u128 = if last_rebalance_price == 0 {
        RATIO_SCALE
    } else {
        match current_price.checked_mul(RATIO_SCALE) {
            Option::Some(p) => p / last_rebalance_price,
            Option::None => {
                return Result::Err(ErrorCode::TooMuchInputPaid);
            },
        }
    };
    let mut acc: u128 = RATIO_SCALE;
    let mut i: u64 = 0;
    while i < leverage
        invariant
            i <= leverage,
            spec_movement_fits(current_price, last_rebalance_price),
            movement as int == spec_movement_ratio(current_price, last_rebalance_price),
            acc as int == spec_pow_ratio(movement as int, i as nat),
            spec_pow_ratio_ok(movement as int, i as nat),
        decreases leverage - i,
    {
        let next = match acc.checked_mul(movement) {
            Option::Some(p) => p,
            Option::None => {
                proof {
                    // The chain overflowed at this step, so no power chain
                    // reaching the full leverage can be overflow-free.
                    if spec_pow_ratio_ok(movement as int, leverage as nat) {
                        lemma_pow_ratio_ok_monotone(
                            movement as int,
                            (i + 1) as nat,
                            leverage as nat,
                        );
                    }
                }
                return Result::Err(ErrorCode::TooMuchInputPaid);
            },
        };
        acc = next / RATIO_SCALE;
        i = i + 1;
    }
    Result::Ok(acc)
}

/// The pool's recorded rebalance ratio, an unset (zero) ratio standing for
/// one.
pub open spec fn spec_effective_ratio(pool: PoolState) -> int {
    if pool.curr_ratio == 0 {
        RATIO_SCALE as int
    } else {
        pool.curr_ratio as int
    }
}

/// The collateral owed for burning `amount_to_burn` leveraged tokens:
/// the burn amount divided by the pool's recorded ratio.
pub open spec fn spec_collateral_to_return(pool: PoolState, amount_to_burn: u64) -> int {
    amount_to_burn as int * RATIO_SCALE as int / spec_effective_ratio(pool)
}

/// The collateral to release to a user burning `amount_to_burn` leveraged
/// tokens: the burn amount divided by the pool's recorded ratio (an unset
/// ratio counting as one). Fails with the generic overflow signal where the
/// result exceeds `u64`. The paired pool takes no part in this figure.
pub fn calculate_collateral_to_return(
    pool_state: &PoolState,
    _other_pool_state: &PoolState,
    amount_to_burn: u64,
) -> (r: Result<u64, ErrorCode>)
    ensures
        r is Ok <==> spec_collateral_to_return(*pool_state, amount_to_burn) <= u64::MAX,
        r is Ok ==> r->Ok_0 == spec_collateral_to_return(*pool_state, amount_to_burn),
        r is Err ==> r->Err_0 == ErrorCode::TooMuchInputPaid,
{
    let ratio: u128 = if pool_state.curr_ratio == 0 {
        RATIO_SCALE
    } else {
        pool_state.curr_ratio
    };
    proof {
        assert(amount_to_burn as int * RATIO_SCALE as int <= u128::MAX) by (nonlinear_arith)
            requires
                0 <= amount_to_burn <= u64::MAX,
        ;
    }
    let scaled: u128 = (amount_to_burn as u128) * RATIO_SCALE;
    let collateral: u128 = scaled / ratio;
    if collateral > u64::MAX as u128 {
        Result::Err(ErrorCode::TooMuchInputPaid)
    } else {
        Result::Ok(collateral as u64)
    }
}

/// The share of a vault balance released when the recorded ratio fell below
/// one: `(1 - ratio) * balance`, zero for a ratio at or above one.
pub open spec fn spec_release_amount(ratio: int, vault_balance: u64) -> int {
    if ratio >= RATIO_SCALE as int {
        0
    } else {
        (RATIO_SCALE as int - ratio) * vault_balance as int / RATIO_SCALE as int
    }
}

/// Computes the released share of a vault balance for a given adjustment
/// ratio.
pub fn release_amount(ratio: u128, vault_balance: u64) -> (amount: u64)
    ensures
        amount == spec_release_amount(ratio as int, vault_balance),
        amount <= vault_balance,
{
    if ratio >= RATIO_SCALE {
        0
    } else {
        let share: u128 = RATIO_SCALE - ratio;
        proof {
            assert(share as int * vault_balance as int <= u128::MAX && share as int
                * vault_balance as int / RATIO_SCALE as int <= vault_balance as int && share
                as int * vault_balance as int >= 0) by (nonlinear_arith)
                requires
                    0 <= share <= RATIO_SCALE,
                    RATIO_SCALE == 1_000_000_000,
                    0 <= vault_balance <= u64::MAX,
            ;
        }
        let scaled: u128 = share * (vault_balance as u128);
        (scaled / RATIO_SCALE) as u64
    }
}

/// One vault-to-vault transfer of an unwind plan.
#[derive(Clone, Copy, Debug, PartialEq, Eq, Structural)]
pub struct VaultTransfer {
    pub from_vault: AccountKey,
    pub to_vault: AccountKey,
    pub amount: u64,
}

/// Everything the host must execute for an unwind: the burn, the collateral
/// release, and the two cross-pool vault transfers.
#[derive(Clone, Copy, Debug, PartialEq, Eq, Structural)]
pub struct UnswapPlan {
    /// Leveraged tokens burned from the user's account before anything else.
    pub burn_amount: u64,
    /// Collateral moved from the pool's collateral account to the user,
    /// after the second scaling stage applied at settlement.
    pub collateral_transfer: u64,
    /// Base-side leg: from the higher-priced pool's base vault to the
    /// lower-priced pool's base vault.
    pub base_leg: VaultTransfer,
    /// Quote-side leg: from the lower-priced pool's quote vault to the
    /// higher-priced pool's quote vault.
    pub quote_leg: VaultTransfer,
}

/// Whether an unwind succeeds: the collateral fits, both adjustment ratios
/// compute, and the two vault buffers the transfers draw on parse.
pub open spec fn spec_unswap_ok(
    pool: PoolState,
    other_pool: PoolState,
    pool_base_vault: Seq<u8>,
    pool_quote_vault: Seq<u8>,
    other_base_vault: Seq<u8>,
    other_quote_vault: Seq<u8>,
    amount_to_burn: u64,
) -> bool {
    let pool_is_higher = pool.sqrt_price_x64 > other_pool.sqrt_price_x64;
    let high_base = if pool_is_higher {
        pool_base_vault
    } else {
        other_base_vault
    };
    let low_quote = if pool_is_higher {
        other_quote_vault
    } else {
        pool_quote_vault
    };
    &&& spec_collateral_to_return(pool, amount_to_burn) <= u64::MAX
    &&& spec_adjustment_ok(pool.sqrt_price_x64, pool.price_on_last_rebalance, pool.leverage as u64)
    &&& spec_adjustment_ok(
        other_pool.sqrt_price_x64,
        other_pool.price_on_last_rebalance,
        pool.leverage as u64,
    )
    &&& spec_vault_account_valid(high_base)
    &&& spec_vault_account_valid(low_quote)
}

/// The plan a successful unwind returns.
pub open spec fn spec_unswap_plan(
    pool: PoolState,
    other_pool: PoolState,
    pool_base_vault: Seq<u8>,
    pool_quote_vault: Seq<u8>,
    other_base_vault: Seq<u8>,
    other_quote_vault: Seq<u8>,
    amount_to_burn: u64,
) -> UnswapPlan {
    let pool_is_higher = pool.sqrt_price_x64 > other_pool.sqrt_price_x64;
    let high = if pool_is_higher {
        pool
    } else {
        other_pool
    };
    let low = if pool_is_higher {
        other_pool
    } else {
        pool
    };
    let high_base = if pool_is_higher {
        pool_base_vault
    } else {
        other_base_vault
    };
    let low_quote = if pool_is_higher {
        other_quote_vault
    } else {
        pool_quote_vault
    };
    let ratio_high = spec_adjustment_ratio(
        high.sqrt_price_x64,
        high.price_on_last_rebalance,
        pool.leverage as u64,
    );
    let ratio_low = spec_adjustment_ratio(
        low.sqrt_price_x64,
        low.price_on_last_rebalance,
        pool.leverage as u64,
    );
    UnswapPlan {
        burn_amount: amount_to_burn,
        collateral_transfer: (spec_collateral_to_return(pool, amount_to_burn) / RATIO_SCALE
            as int) as u64,
        base_leg: VaultTransfer {
            from_vault: high.token_vault_0,
            to_vault: low.token_vault_0,
            amount: spec_release_amount(ratio_high, spec_vault_balance(high_base)) as u64,
        },
        quote_leg: VaultTransfer {
            from_vault: low.token_vault_1,
            to_vault: high.token_vault_1,
            amount: spec_release_amount(ratio_low, spec_vault_balance(low_quote)) as u64,
        },
    }
}

/// A pool's bookkeeping after an unwind: the rebalance price snapshotted at
/// the current price and the recorded ratio replaced by the ratio just
/// realized.
pub open spec fn spec_unwound_pool(pool: PoolState, ratio: int) -> PoolState {
    PoolState {
        price_on_last_rebalance: pool.sqrt_price_x64,
        curr_ratio: ratio as u128,
        ..pool
    }
}

/// The error a rejected unwind reports: the overflow signal for collateral
/// or ratio arithmetic, otherwise an unparsable vault buffer.
pub open spec fn spec_unswap_error(
    pool: PoolState,
    other_pool: PoolState,
    amount_to_burn: u64,
) -> ErrorCode {
    if spec_collateral_to_return(pool, amount_to_burn) <= u64::MAX && spec_adjustment_ok(
        pool.sqrt_price_x64,
        pool.price_on_last_rebalance,
        pool.leverage as u64,
    ) && spec_adjustment_ok(
        other_pool.sqrt_price_x64,
        other_pool.price_on_last_rebalance,
        pool.leverage as u64,
    ) {
        ErrorCode::InvalidVaultAccountData
    } else {
        ErrorCode::TooMuchInputPaid
    }
}

/// Unwinds a leveraged position: burns `amount_to_burn` leveraged tokens,
/// releases the collateral they stand for, and rebalances the base and
/// quote vaults between the pool and its paired pool according to the
/// realized adjustment ratios — the higher-priced pool gives up base, the
/// lower-priced pool gives up quote.
///
/// On success both pools' rebalance bookkeeping (price snapshot and
/// recorded ratio) advances, and the returned plan lists the burn, the
/// collateral release and the two vault transfers the host must execute;
/// the host commits this state only if every transfer of the plan succeeds.
/// On failure both pools are unchanged and nothing may move.
pub fn unswap_v2(
    pool: &mut PoolState,
    other_pool: &mut PoolState,
    pool_base_vault_data: &Vec<u8>,
    pool_quote_vault_data: &Vec<u8>,
    other_base_vault_data: &Vec<u8>,
    other_quote_vault_data: &Vec<u8>,
    amount_to_burn: u64,
) -> (r: Result<UnswapPlan, ErrorCode>)
    ensures
        r is Ok <==> spec_unswap_ok(
            *old(pool),
            *old(other_pool),
            pool_base_vault_data@,
            pool_quote_vault_data@,
            other_base_vault_data@,
            other_quote_vault_data@,
            amount_to_burn,
        ),
        r is Err ==> *final(pool) == *old(pool) && *final(other_pool) == *old(other_pool)
            && r->Err_0 == spec_unswap_error(*old(pool), *old(other_pool), amount_to_burn),
        r is Ok ==> r->Ok_0 == spec_unswap_plan(
            *old(pool),
            *old(other_pool),
            pool_base_vault_data@,
            pool_quote_vault_data@,
            other_base_vault_data@,
            other_quote_vault_data@,
            amount_to_burn,
        ),
        r is Ok ==> *final(pool) == spec_unwound_pool(
            *old(pool),
            spec_adjustment_ratio(
                old(pool).sqrt_price_x64,
                old(pool).price_on_last_rebalance,
                old(pool).leverage as u64,
            ),
        ),
        r is Ok ==> *final(other_pool) == spec_unwound_pool(
            *old(other_pool),
            spec_adjustment_ratio(
                old(other_pool).sqrt_price_x64,
                old(other_pool).price_on_last_rebalance,
                old(pool).leverage as u64,
            ),
        ),
{
    let collateral = match calculate_collateral_to_return(pool, other_pool, amount_to_burn) {
        Result::Ok(c) => c,
        Result::Err(e) => {
            return Result::Err(e);
        },
    };
    let collateral_transfer: u64 = collateral / 1_000_000_000;
    let leverage: u64 = pool.leverage as u64;
    let pool_ratio = match calculate_adjustment_ratio(
        pool.sqrt_price_x64,
        pool.price_on_last_rebalance,
        leverage,
    ) {
        Result::Ok(v) => v,
        Result::Err(e) => {
            return Result::Err(e);
        },
    };
    let other_pool_ratio = match calculate_adjustment_ratio(
        other_pool.sqrt_price_x64,
        other_pool.price_on_last_rebalance,
        leverage,
    ) {
        Result::Ok(v) => v,
        Result::Err(e) => {
            return Result::Err(e);
        },
    };
    let pool_is_higher = pool.sqrt_price_x64 > other_pool.sqrt_price_x64;
    let high_base_data = if pool_is_higher {
        pool_base_vault_data
    } else {
        other_base_vault_data
    };
    let low_quote_data = if pool_is_higher {
        other_quote_vault_data
    } else {
        pool_quote_vault_data
    };
    let high_base_balance = match vault_balance_from_account_data(high_base_data) {
        Result::Ok(b) => b,
        Result::Err(e) => {
            return Result::Err(e);
        },
    };
    let low_quote_balance = match vault_balance_from_account_data(low_quote_data) {
        Result::Ok(b) => b,
        Result::Err(e) => {
            return Result::Err(e);
        },
    };
    let ratio_high = if pool_is_higher {
        pool_ratio
    } else {
        other_pool_ratio
    };
    let ratio_low = if pool_is_higher {
        other_pool_ratio
    } else {
        pool_ratio
    };
    let base_amount = release_amount(ratio_high, high_base_balance);
    let quote_amount = release_amount(ratio_low, low_quote_balance);
    let plan = UnswapPlan {
        burn_amount: amount_to_burn,
        collateral_transfer,
        base_leg: VaultTransfer {
            from_vault: if pool_is_higher {
                pool.token_vault_0
            } else {
                other_pool.token_vault_0
            },
            to_vault: if pool_is_higher {
                other_pool.token_vault_0
            } else {
                pool.token_vault_0
            },
            amount: base_amount,
        },
        quote_leg: VaultTransfer {
            from_vault: if pool_is_higher {
                other_pool.token_vault_1
            } else {
                pool.token_vault_1
            },
            to_vault: if pool_is_higher {
                pool.token_vault_1
            } else {
                other_pool.token_vault_1
            },
            amount: quote_amount,
        },
    };
    pool.price_on_last_rebalance = pool.sqrt_price_x64;
    other_pool.price_on_last_rebalance = other_pool.sqrt_price_x64;
    pool.curr_ratio = pool_ratio;
    other_pool.curr_ratio = other_pool_ratio;
    Result::Ok(plan)
}

} // verus!
