use vstd::prelude::*;

use crate::error::ErrorCode;
use crate::pool::{AccountKey, PoolState};

verus! {

/// Whether the instruction pairing is admissible: pools are created in
/// pairs, by two creation instructions of the same transaction, each
/// pointing at the other. The companion instruction must be a distinct
/// instruction of this program carrying the pool-creation discriminator,
/// its pool account must be exactly the derived address expected for the
/// mirrored token pair, and must differ from the pool being created here.
pub open spec fn spec_two_pools_ok(
    pool_key: AccountKey,
    current_ix_idx: u64,
    other_ix: u64,
    other_ix_discriminator: u64,
    expected_discriminator: u64,
    other_ix_program_id: AccountKey,
    own_program_id: AccountKey,
    other_ix_pool: Option<AccountKey>,
    expected_pda_address: AccountKey,
) -> bool {
    &&& current_ix_idx != other_ix
    &&& other_ix_discriminator == expected_discriminator
    &&& other_ix_program_id == own_program_id
    &&& other_ix_pool is Some
    &&& other_ix_pool == Option::Some(expected_pda_address)
    &&& other_ix_pool != Option::Some(pool_key)
}

/// Validates that this pool-creation instruction is one half of a pool
/// pair, and decides which side it is: the pool created by the earlier
/// instruction of the pair is the long pool (1), the later one the short
/// pool (0). Returns the companion pool's address and that side marker;
/// any failed check rejects with `NotApproved`.
///
/// The host supplies what only the runtime knows: the instruction indices,
/// the companion instruction's discriminator, program and pool account, and
/// the derived address expected for the mirrored token pair.
pub fn check_are_we_two_pools(
    pool_key: AccountKey,
    current_ix_idx: u64,
    other_ix: u64,
    other_ix_discriminator: u64,
    expected_discriminator: u64,
    other_ix_program_id: AccountKey,
    own_program_id: AccountKey,
    other_ix_pool: Option<AccountKey>,
    expected_pda_address: AccountKey,
) -> (r: Result<(AccountKey, u8), ErrorCode>)
    ensures
        r is Ok <==> spec_two_pools_ok(
            pool_key,
            current_ix_idx,
            other_ix,
            other_ix_discriminator,
            expected_discriminator,
            other_ix_program_id,
            own_program_id,
            other_ix_pool,
            expected_pda_address,
        ),
        r is Ok ==> r->Ok_0.0 == expected_pda_address && r->Ok_0.1 == (if other_ix
            > current_ix_idx {
            1u8
        } else {
            0u8
        }),
        r is Err ==> r->Err_0 == ErrorCode::NotApproved,
{
    if current_ix_idx == other_ix {
        return Result::Err(ErrorCode::NotApproved);
    }
    if other_ix_discriminator != expected_discriminator {
        return Result::Err(ErrorCode::NotApproved);
    }
    if other_ix_program_id.id != own_program_id.id {
        return Result::Err(ErrorCode::NotApproved);
    }
    let other_pool = match other_ix_pool {
        Option::Some(k) => k,
        Option::None => {
            return Result::Err(ErrorCode::NotApproved);
        },
    };
    if other_pool.id != expected_pda_address.id {
        return Result::Err(ErrorCode::NotApproved);
    }
    if other_pool.id == pool_key.id {
        return Result::Err(ErrorCode::NotApproved);
    }
    let long_or_short: u8 = if other_ix > current_ix_idx {
        1
    } else {
        0
    };
    Result::Ok((other_pool, long_or_short))
}

/// Creates one pool of a pair: validates the pairing, then writes the
/// initial pool state at the given starting price and tick, bound to the
/// companion pool and marked long or short by the instructions' order.
/// The tick matching the starting price is computed by the tick-math
/// collaborator and supplied by the host.
pub fn create_pool(
    sqrt_price_x64: u128,
    open_time: u64,
    tick: i32,
    leverage: u8,
    bump: u8,
    pool_key: AccountKey,
    pool_creator: AccountKey,
    amm_config: AccountKey,
    token_mint_0: AccountKey,
    token_mint_1: AccountKey,
    token_vault_0: AccountKey,
    token_vault_1: AccountKey,
    observation_key: AccountKey,
    current_ix_idx: u64,
    other_ix: u64,
    other_ix_discriminator: u64,
    expected_discriminator: u64,
    other_ix_program_id: AccountKey,
    own_program_id: AccountKey,
    other_ix_pool: Option<AccountKey>,
    expected_pda_address: AccountKey,
) -> (r: Result<PoolState, ErrorCode>)
    ensures
        r is Ok <==> spec_two_pools_ok(
            pool_key,
            current_ix_idx,
            other_ix,
            other_ix_discriminator,
            expected_discriminator,
            other_ix_program_id,
            own_program_id,
            other_ix_pool,
            expected_pda_address,
        ),
        r is Err ==> r->Err_0 == ErrorCode::NotApproved,
        r is Ok ==> r->Ok_0 == (PoolState {
            bump,
            amm_config,
            owner: pool_creator,
            token_mint_0,
            token_mint_1,
            token_vault_0,
            token_vault_1,
            observation_key,
            other_pool_state: expected_pda_address,
            sqrt_price_x64,
            tick_current: tick,
            liquidity: 0u128,
            open_time,
            leverage,
            long_or_short: (if other_ix > current_ix_idx {
                1u8
            } else {
                0u8
            }),
            price_on_last_rebalance: sqrt_price_x64,
            curr_ratio: 0u128,
            value: 0u128,
            last_price: sqrt_price_x64,
            status: 0u8,
            leveraged_mint_0: Option::None,
            leveraged_mint_1: Option::None,
        }),
        r is Ok ==> r->Ok_0.wf() && !r->Ok_0.is_frozen(),
{
    let (other_pool_key, long_or_short) = match check_are_we_two_pools(
        pool_key,
        current_ix_idx,
        other_ix,
        other_ix_discriminator,
        expected_discriminator,
        other_ix_program_id,
        own_program_id,
        other_ix_pool,
        expected_pda_address,
    ) {
        Result::Ok(v) => v,
        Result::Err(e) => {
            return Result::Err(e);
        },
    };
    Result::Ok(
        PoolState::initialize(
            bump,
            sqrt_price_x64,
            open_time,
            tick,
            pool_creator,
            token_vault_0,
            token_vault_1,
            amm_config,
            token_mint_0,
            token_mint_1,
            observation_key,
            other_pool_key,
            long_or_short,
            leverage,
        ),
    )
}

} // verus!
