use vstd::prelude::*;

use crate::error::ErrorCode;
use crate::fees::{
    get_transfer_fee, get_transfer_inverse_fee, lemma_fee_round_trip,
    lemma_transfer_fee_le_amount, spec_inverse_fee_fits, spec_transfer_fee,
    spec_transfer_inverse_fee, MintConfig,
};
use crate::pool::{AccountKey, PoolState, POOL_STATUS_FROZEN};

verus! {

/// Least representable square-root price; selling token 0 without a caller
/// limit stops one step above it.
pub const MIN_SQRT_PRICE_X64: u128 = 4295048016;

/// Greatest representable square-root price; selling token 1 without a
/// caller limit stops one step below it.
pub const MAX_SQRT_PRICE_X64: u128 = 79226673521066979257578248091;

/// What the swap coordinator asks of the tick-traversal engine: direction,
/// exact-input/exact-output mode, the fee-normalized amount, and the
/// effective price limit.
#[derive(Clone, Copy, Debug, PartialEq, Eq, Structural)]
pub struct SwapPlan {
    /// True when token 0 is sold for token 1.
    pub zero_for_one: bool,
    /// True for an exact-input swap, false for exact-output.
    pub is_base_input: bool,
    /// The amount handed to the tick engine, after fee normalization.
    pub amount_to_engine: u64,
    /// The effective price limit the engine must not cross.
    pub sqrt_price_limit_x64: u128,
    /// The pool price when the plan was made.
    pub sqrt_price_before: u128,
}

/// What the tick-traversal engine realized: the two token deltas and the
/// pool's price, tick and liquidity after traversal.
#[derive(Clone, Copy, Debug, PartialEq, Eq, Structural)]
pub struct SwapOutcome {
    pub amount_0: u64,
    pub amount_1: u64,
    pub sqrt_price_x64: u128,
    pub tick_current: i32,
    pub liquidity: u128,
}

/// The settlement of a swap: the two token transfers to perform, the fees
/// withheld on each leg, and the realized amount the slippage bound is
/// enforced against.
#[derive(Clone, Copy, Debug, PartialEq, Eq, Structural)]
pub struct SwapSettlement {
    /// True when token 0 was sold for token 1.
    pub zero_for_one: bool,
    /// Moved from the user to the input vault: the engine's input delta
    /// grossed up by its inverse fee.
    pub transfer_amount_in: u64,
    /// Moved from the output vault to the user: the engine's output delta
    /// plus its inverse fee.
    pub transfer_amount_out: u64,
    /// Real (fee-excluded) delta on the token-0 leg.
    pub amount_0: u64,
    /// Fee withheld on the token-0 leg.
    pub transfer_fee_0: u64,
    /// Real (fee-excluded) delta on the token-1 leg.
    pub amount_1: u64,
    /// Fee withheld on the token-1 leg.
    pub transfer_fee_1: u64,
    /// Exact-input: what the user's output account gains; exact-output: what
    /// the user's input account loses.
    pub realized_amount: u64,
    /// Whether the output vault could not cover the outgoing transfer and
    /// the pool was frozen as a safety valve (the transfer itself is still
    /// attempted; freezing is not an error).
    pub frozen: bool,
}

/// Direction of a swap: true when the presented input vault mint is the
/// pool's token 0.
pub open spec fn spec_zero_for_one(pool: PoolState, input_vault_mint: AccountKey) -> bool {
    input_vault_mint == pool.token_mint_0
}

/// The effective price limit: a caller limit of zero selects the pool-wide
/// bound one step inside the representable range on the selling side.
pub open spec fn spec_resolve_price_limit(sqrt_price_limit_x64: u128, zero_for_one: bool) -> u128 {
    if sqrt_price_limit_x64 == 0 {
        if zero_for_one {
            (MIN_SQRT_PRICE_X64 + 1) as u128
        } else {
            (MAX_SQRT_PRICE_X64 - 1) as u128
        }
    } else {
        sqrt_price_limit_x64
    }
}

/// Fee normalization: an exact-input amount is reduced by the input-side
/// transfer fee withheld before the engine sees the tokens; an exact-output
/// amount is grossed up by the output-side inverse fee.
pub open spec fn spec_amount_to_engine(
    input_mint: MintConfig,
    output_mint: MintConfig,
    amount_specified: int,
    is_base_input: bool,
) -> int {
    if is_base_input {
        amount_specified - spec_transfer_fee(input_mint, amount_specified)
    } else {
        amount_specified + spec_transfer_inverse_fee(output_mint, amount_specified)
    }
}

/// Whether the fee normalization stays within `u64` (exact-input
/// normalization only shrinks the amount and always fits).
pub open spec fn spec_normalization_fits(
    output_mint: MintConfig,
    amount_specified: int,
    is_base_input: bool,
) -> bool {
    is_base_input || (spec_inverse_fee_fits(output_mint, amount_specified) && amount_specified
        + spec_transfer_inverse_fee(output_mint, amount_specified) <= u64::MAX)
}

/// Whether the presented leveraged-mint pair is admissible: the pool is
/// unbound, or bound to exactly this pair.
pub open spec fn spec_binding_ok(
    pool: PoolState,
    input_leveraged_mint: AccountKey,
    output_leveraged_mint: AccountKey,
) -> bool {
    pool.leveraged_mint_0 is None || (pool.leveraged_mint_0 == Option::Some(input_leveraged_mint)
        && pool.leveraged_mint_1 == Option::Some(output_leveraged_mint))
}

/// Whether a swap may be prepared at all: the pool trades, is open, admits
/// the leveraged-mint pair, and the fee normalization fits.
pub open spec fn spec_prepare_ok(
    pool: PoolState,
    input_leveraged_mint: AccountKey,
    output_leveraged_mint: AccountKey,
    output_mint: MintConfig,
    amount_specified: int,
    is_base_input: bool,
    block_timestamp: u64,
) -> bool {
    &&& !pool.is_frozen()
    &&& block_timestamp > pool.open_time
    &&& spec_binding_ok(pool, input_leveraged_mint, output_leveraged_mint)
    &&& spec_normalization_fits(output_mint, amount_specified, is_base_input)
}

/// The error a rejected preparation reports, in check order: frozen pool,
/// pool not yet open, leveraged-mint mismatch, fee-normalization overflow.
pub open spec fn spec_prepare_error(
    pool: PoolState,
    input_leveraged_mint: AccountKey,
    output_leveraged_mint: AccountKey,
    block_timestamp: u64,
) -> ErrorCode {
    if pool.is_frozen() {
        ErrorCode::PoolIsFrozen
    } else if block_timestamp <= pool.open_time {
        ErrorCode::PoolNotOpenYet
    } else if !spec_binding_ok(pool, input_leveraged_mint, output_leveraged_mint) {
        ErrorCode::NotApproved
    } else {
        ErrorCode::FeeComputationError
    }
}

/// Validates a swap request against the pool, resolves its direction and
/// effective price limit, normalizes the amount for the tick engine, and
/// binds the leveraged-mint pair on the pool's first swap.
///
/// On success the pool carries the (re)confirmed leveraged-mint binding and
/// is otherwise untouched; on failure it is unchanged.
pub fn prepare_swap(
    pool: &mut PoolState,
    input_leveraged_mint: AccountKey,
    output_leveraged_mint: AccountKey,
    input_vault_mint: AccountKey,
    input_mint: &MintConfig,
    output_mint: &MintConfig,
    amount_specified: u64,
    sqrt_price_limit_x64: u128,
    is_base_input: bool,
    block_timestamp: u64,
) -> (r: Result<SwapPlan, ErrorCode>)
    requires
        old(pool).wf(),
        input_mint.wf(),
        output_mint.wf(),
    ensures
        final(pool).wf(),
        r is Ok <==> spec_prepare_ok(
            *old(pool),
            input_leveraged_mint,
            output_leveraged_mint,
            *output_mint,
            amount_specified as int,
            is_base_input,
            block_timestamp,
        ),
        r is Err ==> *final(pool) == *old(pool) && r->Err_0 == spec_prepare_error(
            *old(pool),
            input_leveraged_mint,
            output_leveraged_mint,
            block_timestamp,
        ),
        r is Ok ==> *final(pool) == (PoolState {
            leveraged_mint_0: Option::Some(input_leveraged_mint),
            leveraged_mint_1: Option::Some(output_leveraged_mint),
            ..*old(pool)
        }),
        r is Ok ==> r->Ok_0 == (SwapPlan {
            zero_for_one: spec_zero_for_one(*old(pool), input_vault_mint),
            is_base_input,
            amount_to_engine: spec_amount_to_engine(
                *input_mint,
                *output_mint,
                amount_specified as int,
                is_base_input,
            ) as u64,
            sqrt_price_limit_x64: spec_resolve_price_limit(
                sqrt_price_limit_x64,
                spec_zero_for_one(*old(pool), input_vault_mint),
            ),
            sqrt_price_before: old(pool).sqrt_price_x64,
        }),
{
    if pool.status == POOL_STATUS_FROZEN {
        return Result::Err(ErrorCode::PoolIsFrozen);
    }
    if block_timestamp <= pool.open_time {
        return Result::Err(ErrorCode::PoolNotOpenYet);
    }
    let mut updated = *pool;
    match updated.bind_or_check_leveraged_mints(input_leveraged_mint, output_leveraged_mint) {
        Result::Ok(()) => {},
        Result::Err(e) => {
            return Result::Err(e);
        },
    }
    let zero_for_one = input_vault_mint.id == pool.token_mint_0.id;
    let amount_to_engine: u64 = if is_base_input {
        let fee = get_transfer_fee(input_mint, amount_specified);
        amount_specified - fee
    } else {
        let inverse_fee = match get_transfer_inverse_fee(output_mint, amount_specified) {
            Result::Ok(f) => f,
            Result::Err(e) => {
                return Result::Err(e);
            },
        };
        match amount_specified.checked_add(inverse_fee) {
            Option::Some(a) => a,
            Option::None => {
                return Result::Err(ErrorCode::FeeComputationError);
            },
        }
    };
    let effective_limit: u128 = if sqrt_price_limit_x64 == 0 {
        if zero_for_one {
            MIN_SQRT_PRICE_X64 + 1
        } else {
            MAX_SQRT_PRICE_X64 - 1
        }
    } else {
        sqrt_price_limit_x64
    };
    let plan = SwapPlan {
        zero_for_one,
        is_base_input,
        amount_to_engine,
        sqrt_price_limit_x64: effective_limit,
        sqrt_price_before: pool.sqrt_price_x64,
    };
    *pool = updated;
    Result::Ok(plan)
}

/// The engine's delta on the vault-entering (input) leg.
pub open spec fn spec_amount_in(zero_for_one: bool, outcome: SwapOutcome) -> u64 {
    if zero_for_one {
        outcome.amount_0
    } else {
        outcome.amount_1
    }
}

/// The engine's delta on the vault-leaving (output) leg.
pub open spec fn spec_amount_out(zero_for_one: bool, outcome: SwapOutcome) -> u64 {
    if zero_for_one {
        outcome.amount_1
    } else {
        outcome.amount_0
    }
}

/// The post-swap price must have moved strictly in the direction implied by
/// `zero_for_one`: strictly down when selling token 0, strictly up otherwise.
pub open spec fn spec_direction_ok(zero_for_one: bool, before: u128, after: u128) -> bool {
    if zero_for_one {
        after < before
    } else {
        after > before
    }
}

/// A transfer amount grossed up by its inverse fee stays within `u64`.
pub open spec fn spec_gross_up_fits(mint: MintConfig, amount: int) -> bool {
    spec_inverse_fee_fits(mint, amount) && amount + spec_transfer_inverse_fee(mint, amount)
        <= u64::MAX
}

/// A transfer amount grossed up by its inverse fee.
pub open spec fn spec_gross_up(mint: MintConfig, amount: int) -> int {
    amount + spec_transfer_inverse_fee(mint, amount)
}

/// What survives a transfer after the forward fee is withheld from it.
pub open spec fn spec_net_after_fee(mint: MintConfig, transfer_amount: int) -> int {
    transfer_amount - spec_transfer_fee(mint, transfer_amount)
}

/// Whether a settlement succeeds: both engine deltas are nonzero, the price
/// moved strictly in the swap's direction, and both grossed-up transfer
/// amounts fit `u64`.
pub open spec fn spec_settle_ok(
    pool: PoolState,
    plan: SwapPlan,
    outcome: SwapOutcome,
    input_mint: MintConfig,
    output_mint: MintConfig,
) -> bool {
    &&& outcome.amount_0 != 0
    &&& outcome.amount_1 != 0
    &&& spec_direction_ok(plan.zero_for_one, pool.sqrt_price_x64, outcome.sqrt_price_x64)
    &&& spec_gross_up_fits(input_mint, spec_amount_in(plan.zero_for_one, outcome) as int)
    &&& spec_gross_up_fits(output_mint, spec_amount_out(plan.zero_for_one, outcome) as int)
}

/// The error a rejected settlement reports, in check order.
pub open spec fn spec_settle_error(
    pool: PoolState,
    plan: SwapPlan,
    outcome: SwapOutcome,
) -> ErrorCode {
    if outcome.amount_0 == 0 || outcome.amount_1 == 0 {
        ErrorCode::TooSmallInputOrOutputAmount
    } else if !spec_direction_ok(plan.zero_for_one, pool.sqrt_price_x64, outcome.sqrt_price_x64) {
        ErrorCode::PriceDirectionInvariantViolated
    } else {
        ErrorCode::FeeComputationError
    }
}

/// The realized amount the slippage bound is enforced against: for
/// exact-input, what the user's output account gains after the output-leg
/// fee; for exact-output, what the user's input account loses.
pub open spec fn spec_realized_amount(
    plan: SwapPlan,
    outcome: SwapOutcome,
    input_mint: MintConfig,
    output_mint: MintConfig,
) -> int {
    if plan.is_base_input {
        spec_net_after_fee(
            output_mint,
            spec_gross_up(output_mint, spec_amount_out(plan.zero_for_one, outcome) as int),
        )
    } else {
        spec_gross_up(input_mint, spec_amount_in(plan.zero_for_one, outcome) as int)
    }
}

/// The settlement a successful swap produces.
pub open spec fn spec_settlement(
    plan: SwapPlan,
    outcome: SwapOutcome,
    input_mint: MintConfig,
    output_mint: MintConfig,
    output_vault_balance: u64,
) -> SwapSettlement {
    let amount_in = spec_amount_in(plan.zero_for_one, outcome) as int;
    let amount_out = spec_amount_out(plan.zero_for_one, outcome) as int;
    let transfer_in = spec_gross_up(input_mint, amount_in);
    let transfer_out = spec_gross_up(output_mint, amount_out);
    let in_real = spec_net_after_fee(input_mint, transfer_in);
    let in_fee = spec_transfer_fee(input_mint, transfer_in);
    let out_real = spec_net_after_fee(output_mint, transfer_out);
    let out_fee = spec_transfer_inverse_fee(output_mint, amount_out);
    SwapSettlement {
        zero_for_one: plan.zero_for_one,
        transfer_amount_in: transfer_in as u64,
        transfer_amount_out: transfer_out as u64,
        amount_0: if plan.zero_for_one {
            in_real as u64
        } else {
            out_real as u64
        },
        transfer_fee_0: if plan.zero_for_one {
            in_fee as u64
        } else {
            out_fee as u64
        },
        amount_1: if plan.zero_for_one {
            out_real as u64
        } else {
            in_real as u64
        },
        transfer_fee_1: if plan.zero_for_one {
            out_fee as u64
        } else {
            in_fee as u64
        },
        realized_amount: spec_realized_amount(plan, outcome, input_mint, output_mint) as u64,
        frozen: output_vault_balance < transfer_out,
    }
}

/// The pool state after a successful settlement: price, tick and liquidity
/// taken from the engine outcome, and the pool frozen when the output vault
/// cannot cover the outgoing transfer.
pub open spec fn spec_settled_pool(
    pool: PoolState,
    plan: SwapPlan,
    outcome: SwapOutcome,
    output_mint: MintConfig,
    output_vault_balance: u64,
) -> PoolState {
    let transfer_out = spec_gross_up(
        output_mint,
        spec_amount_out(plan.zero_for_one, outcome) as int,
    );
    PoolState {
        sqrt_price_x64: outcome.sqrt_price_x64,
        tick_current: outcome.tick_current,
        liquidity: outcome.liquidity,
        status: if output_vault_balance < transfer_out {
            POOL_STATUS_FROZEN
        } else {
            pool.status
        },
        ..pool
    }
}

/// Settles the engine outcome of a planned swap: applies the engine's price,
/// tick and liquidity to the pool, rejects empty or direction-violating
/// fills, computes both legs' transfer amounts and withheld fees, freezes the
/// pool when the output vault cannot cover the outgoing transfer (before
/// that transfer is attempted), and reports the realized amount.
///
/// On failure the pool is unchanged.
pub fn settle_swap(
    pool: &mut PoolState,
    plan: &SwapPlan,
    outcome: &SwapOutcome,
    input_mint: &MintConfig,
    output_mint: &MintConfig,
    output_vault_balance: u64,
) -> (r: Result<SwapSettlement, ErrorCode>)
    requires
        old(pool).wf(),
        input_mint.wf(),
        output_mint.wf(),
    ensures
        final(pool).wf(),
        r is Ok <==> spec_settle_ok(*old(pool), *plan, *outcome, *input_mint, *output_mint),
        r is Err ==> *final(pool) == *old(pool) && r->Err_0 == spec_settle_error(
            *old(pool),
            *plan,
            *outcome,
        ),
        r is Ok ==> r->Ok_0 == spec_settlement(
            *plan,
            *outcome,
            *input_mint,
            *output_mint,
            output_vault_balance,
        ),
        r is Ok ==> *final(pool) == spec_settled_pool(
            *old(pool),
            *plan,
            *outcome,
            *output_mint,
            output_vault_balance,
        ),
        r is Ok ==> spec_direction_ok(
            plan.zero_for_one,
            old(pool).sqrt_price_x64,
            final(pool).sqrt_price_x64,
        ),
{
    if outcome.amount_0 == 0 || outcome.amount_1 == 0 {
        return Result::Err(ErrorCode::TooSmallInputOrOutputAmount);
    }
    let direction_ok = if plan.zero_for_one {
        outcome.sqrt_price_x64 < pool.sqrt_price_x64
    } else {
        outcome.sqrt_price_x64 > pool.sqrt_price_x64
    };
    if !direction_ok {
        return Result::Err(ErrorCode::PriceDirectionInvariantViolated);
    }
    let amount_in = if plan.zero_for_one {
        outcome.amount_0
    } else {
        outcome.amount_1
    };
    let amount_out = if plan.zero_for_one {
        outcome.amount_1
    } else {
        outcome.amount_0
    };
    let inverse_fee_in = match get_transfer_inverse_fee(input_mint, amount_in) {
        Result::Ok(f) => f,
        Result::Err(e) => {
            return Result::Err(e);
        },
    };
    let transfer_amount_in = match amount_in.checked_add(inverse_fee_in) {
        Option::Some(a) => a,
        Option::None => {
            return Result::Err(ErrorCode::FeeComputationError);
        },
    };
    let inverse_fee_out = match get_transfer_inverse_fee(output_mint, amount_out) {
        Result::Ok(f) => f,
        Result::Err(e) => {
            return Result::Err(e);
        },
    };
    let transfer_amount_out = match amount_out.checked_add(inverse_fee_out) {
        Option::Some(a) => a,
        Option::None => {
            return Result::Err(ErrorCode::FeeComputationError);
        },
    };
    let fee_in = get_transfer_fee(input_mint, transfer_amount_in);
    let in_real = transfer_amount_in - fee_in;
    let fee_on_out_transfer = get_transfer_fee(output_mint, transfer_amount_out);
    let out_real = transfer_amount_out - fee_on_out_transfer;
    let frozen = output_vault_balance < transfer_amount_out;
    let realized_amount = if plan.is_base_input {
        out_real
    } else {
        transfer_amount_in
    };
    let settlement = SwapSettlement {
        zero_for_one: plan.zero_for_one,
        transfer_amount_in,
        transfer_amount_out,
        amount_0: if plan.zero_for_one {
            in_real
        } else {
            out_real
        },
        transfer_fee_0: if plan.zero_for_one {
            fee_in
        } else {
            inverse_fee_out
        },
        amount_1: if plan.zero_for_one {
            out_real
        } else {
            in_real
        },
        transfer_fee_1: if plan.zero_for_one {
            inverse_fee_out
        } else {
            fee_in
        },
        realized_amount,
        frozen,
    };
    pool.sqrt_price_x64 = outcome.sqrt_price_x64;
    pool.tick_current = outcome.tick_current;
    pool.liquidity = outcome.liquidity;
    if frozen {
        pool.status = POOL_STATUS_FROZEN;
    }
    Result::Ok(settlement)
}

/// The plan a successful preparation of this request produces.
pub open spec fn spec_swap_plan(
    pool: PoolState,
    input_vault_mint: AccountKey,
    input_mint: MintConfig,
    output_mint: MintConfig,
    amount_specified: u64,
    sqrt_price_limit_x64: u128,
    is_base_input: bool,
) -> SwapPlan {
    SwapPlan {
        zero_for_one: spec_zero_for_one(pool, input_vault_mint),
        is_base_input,
        amount_to_engine: spec_amount_to_engine(
            input_mint,
            output_mint,
            amount_specified as int,
            is_base_input,
        ) as u64,
        sqrt_price_limit_x64: spec_resolve_price_limit(
            sqrt_price_limit_x64,
            spec_zero_for_one(pool, input_vault_mint),
        ),
        sqrt_price_before: pool.sqrt_price_x64,
    }
}

/// The pool with the leveraged-mint pair (re)confirmed.
pub open spec fn spec_bound_pool(
    pool: PoolState,
    input_leveraged_mint: AccountKey,
    output_leveraged_mint: AccountKey,
) -> PoolState {
    PoolState {
        leveraged_mint_0: Option::Some(input_leveraged_mint),
        leveraged_mint_1: Option::Some(output_leveraged_mint),
        ..pool
    }
}

/// Whether the whole swap succeeds: the request prepares and the engine
/// outcome settles.
pub open spec fn spec_swap_ok(
    pool: PoolState,
    input_leveraged_mint: AccountKey,
    output_leveraged_mint: AccountKey,
    input_vault_mint: AccountKey,
    input_mint: MintConfig,
    output_mint: MintConfig,
    amount_specified: u64,
    sqrt_price_limit_x64: u128,
    is_base_input: bool,
    block_timestamp: u64,
    outcome: SwapOutcome,
) -> bool {
    &&& spec_prepare_ok(
        pool,
        input_leveraged_mint,
        output_leveraged_mint,
        output_mint,
        amount_specified as int,
        is_base_input,
        block_timestamp,
    )
    &&& spec_settle_ok(
        spec_bound_pool(pool, input_leveraged_mint, output_leveraged_mint),
        spec_swap_plan(
            pool,
            input_vault_mint,
            input_mint,
            output_mint,
            amount_specified,
            sqrt_price_limit_x64,
            is_base_input,
        ),
        outcome,
        input_mint,
        output_mint,
    )
}

/// The error a rejected swap reports: the preparation's where preparation
/// fails, otherwise the settlement's.
pub open spec fn spec_swap_error(
    pool: PoolState,
    input_leveraged_mint: AccountKey,
    output_leveraged_mint: AccountKey,
    input_vault_mint: AccountKey,
    input_mint: MintConfig,
    output_mint: MintConfig,
    amount_specified: u64,
    sqrt_price_limit_x64: u128,
    is_base_input: bool,
    block_timestamp: u64,
    outcome: SwapOutcome,
) -> ErrorCode {
    if !spec_prepare_ok(
        pool,
        input_leveraged_mint,
        output_leveraged_mint,
        output_mint,
        amount_specified as int,
        is_base_input,
        block_timestamp,
    ) {
        spec_prepare_error(pool, input_leveraged_mint, output_leveraged_mint, block_timestamp)
    } else {
        spec_settle_error(
            spec_bound_pool(pool, input_leveraged_mint, output_leveraged_mint),
            spec_swap_plan(
                pool,
                input_vault_mint,
                input_mint,
                output_mint,
                amount_specified,
                sqrt_price_limit_x64,
                is_base_input,
            ),
            outcome,
        )
    }
}

/// Performs a single exact-input or exact-output swap, given the outcome the
/// tick-traversal engine realized for the corresponding plan (the engine is
/// run by the caller between `prepare_swap` and settlement; it is
/// deterministic in the plan and the tick state).
///
/// On success the pool carries the engine's price, tick and liquidity, the
/// confirmed leveraged-mint binding, and is frozen if the output vault could
/// not cover the outgoing transfer. On failure the pool is unchanged.
pub fn exact_internal_v2(
    pool: &mut PoolState,
    input_leveraged_mint: AccountKey,
    output_leveraged_mint: AccountKey,
    input_vault_mint: AccountKey,
    input_mint: &MintConfig,
    output_mint: &MintConfig,
    amount_specified: u64,
    sqrt_price_limit_x64: u128,
    is_base_input: bool,
    block_timestamp: u64,
    outcome: &SwapOutcome,
    output_vault_balance: u64,
) -> (r: Result<SwapSettlement, ErrorCode>)
    requires
        old(pool).wf(),
        input_mint.wf(),
        output_mint.wf(),
    ensures
        final(pool).wf(),
        r is Ok <==> spec_swap_ok(
            *old(pool),
            input_leveraged_mint,
            output_leveraged_mint,
            input_vault_mint,
            *input_mint,
            *output_mint,
            amount_specified,
            sqrt_price_limit_x64,
            is_base_input,
            block_timestamp,
            *outcome,
        ),
        r is Err ==> *final(pool) == *old(pool) && r->Err_0 == spec_swap_error(
            *old(pool),
            input_leveraged_mint,
            output_leveraged_mint,
            input_vault_mint,
            *input_mint,
            *output_mint,
            amount_specified,
            sqrt_price_limit_x64,
            is_base_input,
            block_timestamp,
            *outcome,
        ),
        r is Ok ==> r->Ok_0 == spec_settlement(
            spec_swap_plan(
                *old(pool),
                input_vault_mint,
                *input_mint,
                *output_mint,
                amount_specified,
                sqrt_price_limit_x64,
                is_base_input,
            ),
            *outcome,
            *input_mint,
            *output_mint,
            output_vault_balance,
        ),
        r is Ok ==> *final(pool) == spec_settled_pool(
            spec_bound_pool(*old(pool), input_leveraged_mint, output_leveraged_mint),
            spec_swap_plan(
                *old(pool),
                input_vault_mint,
                *input_mint,
                *output_mint,
                amount_specified,
                sqrt_price_limit_x64,
                is_base_input,
            ),
            *outcome,
            *output_mint,
            output_vault_balance,
        ),
        r is Ok ==> spec_direction_ok(
            spec_zero_for_one(*old(pool), input_vault_mint),
            old(pool).sqrt_price_x64,
            final(pool).sqrt_price_x64,
        ),
{
    let mut updated = *pool;
    let plan = match prepare_swap(
        &mut updated,
        input_leveraged_mint,
        output_leveraged_mint,
        input_vault_mint,
        input_mint,
        output_mint,
        amount_specified,
        sqrt_price_limit_x64,
        is_base_input,
        block_timestamp,
    ) {
        Result::Ok(p) => p,
        Result::Err(e) => {
            return Result::Err(e);
        },
    };
    let settlement = match settle_swap(
        &mut updated,
        &plan,
        outcome,
        input_mint,
        output_mint,
        output_vault_balance,
    ) {
        Result::Ok(s) => s,
        Result::Err(e) => {
            return Result::Err(e);
        },
    };
    *pool = updated;
    Result::Ok(settlement)
}

/// Whether the realized amount satisfies the caller's slippage bound: at
/// least the threshold of output for exact-input, at most the threshold of
/// input for exact-output.
pub open spec fn spec_slippage_ok(
    is_base_input: bool,
    realized_amount: int,
    other_amount_threshold: u64,
) -> bool {
    if is_base_input {
        realized_amount >= other_amount_threshold
    } else {
        realized_amount <= other_amount_threshold
    }
}

/// A full swap with the caller's slippage bound enforced: realized output
/// must reach `other_amount_threshold` for exact-input, realized input must
/// not exceed it for exact-output. On any failure, the slippage bound
/// included, the pool is unchanged: no balances move and no state persists.
pub fn swap_v2(
    pool: &mut PoolState,
    input_leveraged_mint: AccountKey,
    output_leveraged_mint: AccountKey,
    input_vault_mint: AccountKey,
    input_mint: &MintConfig,
    output_mint: &MintConfig,
    amount: u64,
    other_amount_threshold: u64,
    sqrt_price_limit_x64: u128,
    is_base_input: bool,
    block_timestamp: u64,
    outcome: &SwapOutcome,
    output_vault_balance: u64,
) -> (r: Result<SwapSettlement, ErrorCode>)
    requires
        old(pool).wf(),
        input_mint.wf(),
        output_mint.wf(),
    ensures
        final(pool).wf(),
        r is Ok <==> (spec_swap_ok(
            *old(pool),
            input_leveraged_mint,
            output_leveraged_mint,
            input_vault_mint,
            *input_mint,
            *output_mint,
            amount,
            sqrt_price_limit_x64,
            is_base_input,
            block_timestamp,
            *outcome,
        ) && spec_slippage_ok(
            is_base_input,
            spec_realized_amount(
                spec_swap_plan(
                    *old(pool),
                    input_vault_mint,
                    *input_mint,
                    *output_mint,
                    amount,
                    sqrt_price_limit_x64,
                    is_base_input,
                ),
                *outcome,
                *input_mint,
                *output_mint,
            ),
            other_amount_threshold,
        )),
        r is Err ==> *final(pool) == *old(pool),
        r is Ok ==> r->Ok_0 == spec_settlement(
            spec_swap_plan(
                *old(pool),
                input_vault_mint,
                *input_mint,
                *output_mint,
                amount,
                sqrt_price_limit_x64,
                is_base_input,
            ),
            *outcome,
            *input_mint,
            *output_mint,
            output_vault_balance,
        ),
        r is Ok ==> *final(pool) == spec_settled_pool(
            spec_bound_pool(*old(pool), input_leveraged_mint, output_leveraged_mint),
            spec_swap_plan(
                *old(pool),
                input_vault_mint,
                *input_mint,
                *output_mint,
                amount,
                sqrt_price_limit_x64,
                is_base_input,
            ),
            *outcome,
            *output_mint,
            output_vault_balance,
        ),
        r is Ok ==> is_base_input ==> r->Ok_0.realized_amount >= other_amount_threshold,
        r is Ok ==> !is_base_input ==> r->Ok_0.realized_amount <= other_amount_threshold,
        r is Ok ==> spec_direction_ok(
            spec_zero_for_one(*old(pool), input_vault_mint),
            old(pool).sqrt_price_x64,
            final(pool).sqrt_price_x64,
        ),
        r is Err && spec_swap_ok(
            *old(pool),
            input_leveraged_mint,
            output_leveraged_mint,
            input_vault_mint,
            *input_mint,
            *output_mint,
            amount,
            sqrt_price_limit_x64,
            is_base_input,
            block_timestamp,
            *outcome,
        ) ==> r->Err_0 == (if is_base_input {
            ErrorCode::TooLittleOutputReceived
        } else {
            ErrorCode::TooMuchInputPaid
        }),
        r is Err && !spec_swap_ok(
            *old(pool),
            input_leveraged_mint,
            output_leveraged_mint,
            input_vault_mint,
            *input_mint,
            *output_mint,
            amount,
            sqrt_price_limit_x64,
            is_base_input,
            block_timestamp,
            *outcome,
        ) ==> r->Err_0 == spec_swap_error(
            *old(pool),
            input_leveraged_mint,
            output_leveraged_mint,
            input_vault_mint,
            *input_mint,
            *output_mint,
            amount,
            sqrt_price_limit_x64,
            is_base_input,
            block_timestamp,
            *outcome,
        ),
{
    let mut updated = *pool;
    let settlement = match exact_internal_v2(
        &mut updated,
        input_leveraged_mint,
        output_leveraged_mint,
        input_vault_mint,
        input_mint,
        output_mint,
        amount,
        sqrt_price_limit_x64,
        is_base_input,
        block_timestamp,
        outcome,
        output_vault_balance,
    ) {
        Result::Ok(s) => s,
        Result::Err(e) => {
            return Result::Err(e);
        },
    };
    proof {
        // The realized amount fits a `u64`, so the executable comparison
        // decides exactly the slippage predicate.
        let plan = spec_swap_plan(
            *old(pool),
            input_vault_mint,
            *input_mint,
            *output_mint,
            amount,
            sqrt_price_limit_x64,
            is_base_input,
        );
        let amount_in = spec_amount_in(plan.zero_for_one, *outcome);
        let amount_out = spec_amount_out(plan.zero_for_one, *outcome);
        lemma_fee_round_trip(*input_mint, amount_in);
        lemma_fee_round_trip(*output_mint, amount_out);
        lemma_transfer_fee_le_amount(
            *output_mint,
            spec_gross_up(*output_mint, amount_out as int),
        );
    }
    if is_base_input {
        if settlement.realized_amount < other_amount_threshold {
            return Result::Err(ErrorCode::TooLittleOutputReceived);
        }
    } else {
        if settlement.realized_amount > other_amount_threshold {
            return Result::Err(ErrorCode::TooMuchInputPaid);
        }
    }
    *pool = updated;
    Result::Ok(settlement)
}

} // verus!
