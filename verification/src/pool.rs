use vstd::prelude::*;

use crate::error::ErrorCode;

verus! {

/// An account address, reduced to the identity the logic compares: the host
/// runtime resolves real addresses to these identifiers and back.
#[derive(Clone, Copy, Debug, PartialEq, Eq, Hash, Structural)]
pub struct AccountKey {
    pub id: u64,
}

/// `status` value marking a frozen pool: every instruction except an admin
/// unfreeze is rejected, and trading never resumes within this core.
pub const POOL_STATUS_FROZEN: u8 = 255;

/// Fixed-point base of `curr_ratio` and of the leverage adjustment ratios:
/// this value stands for a ratio of one.
pub const RATIO_SCALE: u128 = 1_000_000_000;

/// The mutable state of one pool: its token pair, vaults, current price and
/// liquidity, and the leveraged-pair bookkeeping shared with its paired pool.
#[derive(Clone, Copy, Debug, PartialEq, Eq, Structural)]
pub struct PoolState {
    /// Bump seed of the pool's derived address.
    pub bump: u8,
    /// The config the pool belongs to.
    pub amm_config: AccountKey,
    /// The pool creator.
    pub owner: AccountKey,
    /// Mint of token 0; orders the pair.
    pub token_mint_0: AccountKey,
    /// Mint of token 1.
    pub token_mint_1: AccountKey,
    /// Vault holding the pool's token 0.
    pub token_vault_0: AccountKey,
    /// Vault holding the pool's token 1.
    pub token_vault_1: AccountKey,
    /// The oracle observation account bound to the pool.
    pub observation_key: AccountKey,
    /// The paired pool (long for a short pool and vice versa); a
    /// back-reference for lookups, never ownership.
    pub other_pool_state: AccountKey,
    /// Current price as its square root in Q64.64 fixed point.
    pub sqrt_price_x64: u128,
    /// Tick corresponding to the current price.
    pub tick_current: i32,
    /// Liquidity active at the current tick.
    pub liquidity: u128,
    /// Trading is rejected until the block time exceeds this.
    pub open_time: u64,
    /// Leverage factor of the paired-pool mechanism.
    pub leverage: u8,
    /// Whether this pool is the long (1) or the short (0) side of its pair.
    pub long_or_short: u8,
    /// Price snapshot taken when the pair was last rebalanced.
    pub price_on_last_rebalance: u128,
    /// Ratio realized at the last rebalance, scaled by `RATIO_SCALE`;
    /// zero means unset and stands for a ratio of one.
    pub curr_ratio: u128,
    /// Notional value tracked by the price-movement adjustment.
    pub value: u128,
    /// Price snapshot used by the value adjustment.
    pub last_price: u128,
    /// Status bitmask; `POOL_STATUS_FROZEN` is terminal for trading.
    pub status: u8,
    /// Leveraged mint of the token-0 side, bound by the first swap.
    pub leveraged_mint_0: Option<AccountKey>,
    /// Leveraged mint of the token-1 side, bound by the first swap.
    pub leveraged_mint_1: Option<AccountKey>,
}

impl PoolState {
    /// The two leveraged mints are either both unset or both set.
    pub open spec fn wf(self) -> bool {
        self.leveraged_mint_0 is Some <==> self.leveraged_mint_1 is Some
    }

    /// A frozen pool rejects all trading.
    pub open spec fn is_frozen(self) -> bool {
        self.status == POOL_STATUS_FROZEN
    }

    /// The pool state as first written at pool creation: price and tick as
    /// supplied, no liquidity, not frozen, leveraged mints unbound, and the
    /// rebalance bookkeeping snapshotted at the initial price with the ratio
    /// unset.
    pub fn initialize(
        bump: u8,
        sqrt_price_x64: u128,
        open_time: u64,
        tick: i32,
        pool_creator: AccountKey,
        token_vault_0: AccountKey,
        token_vault_1: AccountKey,
        amm_config: AccountKey,
        token_mint_0: AccountKey,
        token_mint_1: AccountKey,
        observation_key: AccountKey,
        other_pool_state: AccountKey,
        long_or_short: u8,
        leverage: u8,
    ) -> (pool: PoolState)
        ensures
            pool == (PoolState {
                bump,
                amm_config,
                owner: pool_creator,
                token_mint_0,
                token_mint_1,
                token_vault_0,
                token_vault_1,
                observation_key,
                other_pool_state,
                sqrt_price_x64,
                tick_current: tick,
                liquidity: 0u128,
                open_time,
                leverage,
                long_or_short,
                price_on_last_rebalance: sqrt_price_x64,
                curr_ratio: 0u128,
                value: 0u128,
                last_price: sqrt_price_x64,
                status: 0u8,
                leveraged_mint_0: Option::None,
                leveraged_mint_1: Option::None,
            }),
            pool.wf(),
            !pool.is_frozen(),
    {
        PoolState {
            bump,
            amm_config,
            owner: pool_creator,
            token_mint_0,
            token_mint_1,
            token_vault_0,
            token_vault_1,
            observation_key,
            other_pool_state,
            sqrt_price_x64,
            tick_current: tick,
            liquidity: 0,
            open_time,
            leverage,
            long_or_short,
            price_on_last_rebalance: sqrt_price_x64,
            curr_ratio: 0,
            value: 0,
            last_price: sqrt_price_x64,
            status: 0,
            leveraged_mint_0: Option::None,
            leveraged_mint_1: Option::None,
        }
    }

    /// Resolves the leveraged-mint binding: the first swap writes the pair,
    /// and every later swap must present exactly that pair; a different pair
    /// is rejected with `NotApproved` and the pool is left unchanged.
    pub fn bind_or_check_leveraged_mints(
        &mut self,
        input_leveraged_mint: AccountKey,
        output_leveraged_mint: AccountKey,
    ) -> (r: Result<(), ErrorCode>)
        requires
            old(self).wf(),
        ensures
            final(self).wf(),
            r is Ok <==> (old(self).leveraged_mint_0 is None || (old(
                self,
            ).leveraged_mint_0 == Option::Some(input_leveraged_mint) && old(
                self,
            ).leveraged_mint_1 == Option::Some(output_leveraged_mint))),
            r is Ok ==> *final(self) == (PoolState {
                leveraged_mint_0: Option::Some(input_leveraged_mint),
                leveraged_mint_1: Option::Some(output_leveraged_mint),
                ..*old(self)
            }),
            r is Err ==> *final(self) == *old(self) && r->Err_0 == ErrorCode::NotApproved,
    {
        match self.leveraged_mint_0 {
            Option::None => {
                self.leveraged_mint_0 = Option::Some(input_leveraged_mint);
                self.leveraged_mint_1 = Option::Some(output_leveraged_mint);
                Result::Ok(())
            },
            Option::Some(mint_0) => {
                let mint_1 = match self.leveraged_mint_1 {
                    Option::Some(m) => m,
                    Option::None => {
                        return Result::Err(ErrorCode::NotApproved);
                    },
                };
                if mint_0.id == input_leveraged_mint.id && mint_1.id == output_leveraged_mint.id {
                    Result::Ok(())
                } else {
                    Result::Err(ErrorCode::NotApproved)
                }
            },
        }
    }
}

} // verus!
