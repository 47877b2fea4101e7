//! Verified core of a concentrated-liquidity AMM's swap execution and
//! leveraged paired-pool rebalancing engine.
//!
//! The library holds the decision and arithmetic logic: transfer-fee
//! normalization, swap settlement and slippage enforcement, leverage-ratio
//! rebalancing between a paired long and short pool, and the collateral
//! computation for unwinding leveraged positions. The hosting runtime
//! performs account I/O, token transfers and the tick-traversal math; it
//! hands this library plain values and executes the transfer plans the
//! library returns.

mod config;
mod create_pool;
mod error;
mod fees;
mod pool;
mod rebalance;
mod swap;
mod unwind;
mod vault;

pub use config::{AmmConfig, ConfigChangeEvent, FEE_RATE_DENOMINATOR_VALUE, TRADE_FLAT_FEE_DEFAULT};
pub use create_pool::{check_are_we_two_pools, create_pool};
pub use error::ErrorCode;
pub use pool::{AccountKey, PoolState, POOL_STATUS_FROZEN, RATIO_SCALE};
pub use rebalance::{
    adjust_position_values, lemma_rebalance_idempotent, rebalance, select_active_pool,
    RebalanceAction, VALUE_PRECISION,
};
pub use swap::{
    exact_internal_v2, prepare_swap, settle_swap, swap_v2, SwapOutcome, SwapPlan, SwapSettlement,
    MAX_SQRT_PRICE_X64, MIN_SQRT_PRICE_X64,
};
pub use unwind::{
    calculate_adjustment_ratio, calculate_collateral_to_return, lemma_adjustment_ratio_identity,
    release_amount, unswap_v2, UnswapPlan, VaultTransfer,
};
pub use vault::vault_balance_from_account_data;
pub use fees::{
    calculate_fee, get_transfer_fee, get_transfer_inverse_fee, lemma_fee_round_trip,
    MintConfig, TransferFeeConfig, MAX_FEE_BASIS_POINTS,
};
