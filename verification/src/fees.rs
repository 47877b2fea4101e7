use vstd::prelude::*;
use vstd::arithmetic::div_mod::{lemma_div_is_ordered, lemma_fundamental_div_mod};
use vstd::arithmetic::mul::lemma_mul_inequality;

use crate::error::ErrorCode;

verus! {

/// Transfer fees are quoted in hundredths of a percent of the transferred
/// amount; this is the denominator of that quotation.
pub const MAX_FEE_BASIS_POINTS: u16 = 10_000;

/// The transfer-fee configuration of a token mint: a proportional fee in
/// basis points, capped at an absolute maximum per transfer.
#[derive(Clone, Copy, Debug, PartialEq, Eq, Structural)]
pub struct TransferFeeConfig {
    /// Fee taken from each transfer, in basis points of the amount moved.
    pub transfer_fee_basis_points: u16,
    /// Absolute cap on the fee withheld from a single transfer.
    pub maximum_fee: u64,
}

/// What the fee logic reads of a token mint: its transfer-fee configuration,
/// or `None` for a mint whose token standard withholds no transfer fee.
#[derive(Clone, Copy, Debug, PartialEq, Eq, Structural)]
pub struct MintConfig {
    pub transfer_fee: Option<TransferFeeConfig>,
}

impl TransferFeeConfig {
    /// A fee rate never exceeds one whole (10_000 basis points).
    pub open spec fn wf(self) -> bool {
        self.transfer_fee_basis_points <= MAX_FEE_BASIS_POINTS
    }
}

impl MintConfig {
    pub open spec fn wf(self) -> bool {
        match self.transfer_fee {
            Option::Some(cfg) => cfg.wf(),
            Option::None => true,
        }
    }

    /// A mint that withholds nothing on transfers.
    pub fn no_fee() -> (m: MintConfig)
        ensures
            m.wf(),
            m.transfer_fee is None,
    {
        MintConfig { transfer_fee: Option::None }
    }
}

/// Division rounding up: the least `q` with `q * d >= n` (for `n, d > 0`).
pub open spec fn ceil_div(n: int, d: int) -> int
    recommends
        d > 0,
{
    (n + d - 1) / d
}

/// The fee withheld when `amount` is transferred under fee configuration
/// (`bps`, `max_fee`): the amount's fee rate rounded up, capped at `max_fee`.
pub open spec fn spec_calculate_fee(bps: int, max_fee: int, amount: int) -> int {
    if bps == 0 || amount == 0 {
        0
    } else if ceil_div(amount * bps, 10_000) <= max_fee {
        ceil_div(amount * bps, 10_000)
    } else {
        max_fee
    }
}

/// The fee withheld when `amount` is transferred with `mint` governing the leg.
pub open spec fn spec_transfer_fee(mint: MintConfig, amount: int) -> int {
    match mint.transfer_fee {
        Option::Some(cfg) => spec_calculate_fee(
            cfg.transfer_fee_basis_points as int,
            cfg.maximum_fee as int,
            amount,
        ),
        Option::None => 0,
    }
}

/// The amount that must enter a transfer so that `post_fee_amount` survives
/// the fee withholding (for a fee rate strictly below one whole).
pub open spec fn spec_pre_fee_amount(bps: int, max_fee: int, post_fee_amount: int) -> int
    recommends
        0 <= bps < 10_000,
{
    if bps == 0 {
        post_fee_amount
    } else if post_fee_amount == 0 {
        0
    } else {
        let raw = ceil_div(post_fee_amount * 10_000, 10_000 - bps);
        if raw - post_fee_amount >= max_fee {
            post_fee_amount + max_fee
        } else {
            raw
        }
    }
}

/// The inverse fee: what must be charged on top of `post_fee_amount` so that,
/// after withholding, at least `post_fee_amount` is delivered. At a fee rate
/// of one whole the cap itself is charged.
pub open spec fn spec_inverse_fee(bps: int, max_fee: int, post_fee_amount: int) -> int
    recommends
        0 <= bps <= 10_000,
{
    if bps == 10_000 {
        max_fee
    } else {
        spec_calculate_fee(bps, max_fee, spec_pre_fee_amount(bps, max_fee, post_fee_amount))
    }
}

/// The inverse fee for `mint`, zero where the mint withholds nothing.
pub open spec fn spec_transfer_inverse_fee(mint: MintConfig, post_fee_amount: int) -> int {
    match mint.transfer_fee {
        Option::Some(cfg) => spec_inverse_fee(
            cfg.transfer_fee_basis_points as int,
            cfg.maximum_fee as int,
            post_fee_amount,
        ),
        Option::None => 0,
    }
}

/// Whether the pre-fee amount behind the inverse fee fits a `u64`; where it
/// does not, the inverse-fee computation reports an overflow.
pub open spec fn spec_inverse_fee_fits(mint: MintConfig, post_fee_amount: int) -> bool {
    match mint.transfer_fee {
        Option::Some(cfg) => cfg.transfer_fee_basis_points == 10_000 || spec_pre_fee_amount(
            cfg.transfer_fee_basis_points as int,
            cfg.maximum_fee as int,
            post_fee_amount,
        ) <= u64::MAX,
        Option::None => true,
    }
}

/// `ceil_div(n, d)` is at most `m` as soon as `n` is at most `m * d`.
proof fn lemma_ceil_div_le(n: int, d: int, m: int) by (nonlinear_arith)
    requires
        d > 0,
        n <= m * d,
    ensures
        ceil_div(n, d) <= m,
{
}

/// `ceil_div(n, d)` is at least `m` as soon as `n` is at least `m * d`.
proof fn lemma_ceil_div_ge(n: int, d: int, m: int) by (nonlinear_arith)
    requires
        d > 0,
        n >= m * d,
    ensures
        ceil_div(n, d) >= m,
{
}

/// Rounding up never loses: the quotient times the divisor covers the
/// numerator.
proof fn lemma_ceil_div_covers(n: int, d: int) by (nonlinear_arith)
    requires
        d > 0,
        n >= 0,
    ensures
        ceil_div(n, d) * d >= n,
        ceil_div(n, d) >= 0,
{
}

/// The proportional fee on an amount never exceeds the amount.
proof fn lemma_fee_le_amount(bps: int, max_fee: int, amount: int)
    requires
        0 <= bps <= 10_000,
        0 <= max_fee,
        0 <= amount,
    ensures
        0 <= spec_calculate_fee(bps, max_fee, amount) <= amount,
{
    if bps != 0 && amount != 0 {
        lemma_mul_inequality(bps, 10_000, amount);
        assert(amount * bps == bps * amount) by (nonlinear_arith);
        assert(amount * 10_000 == 10_000 * amount) by (nonlinear_arith);
        lemma_ceil_div_le(amount * bps, 10_000, amount);
        lemma_ceil_div_covers(amount * bps, 10_000);
        assert(amount * bps >= 0) by (nonlinear_arith)
            requires
                amount >= 0,
                bps >= 0,
        ;
        lemma_ceil_div_ge(amount * bps, 10_000, 0);
    }
}

/// The proportional fee is monotone in the amount transferred.
proof fn lemma_fee_monotone(bps: int, max_fee: int, a: int, b: int)
    requires
        0 <= bps <= 10_000,
        0 <= max_fee,
        0 <= a <= b,
    ensures
        spec_calculate_fee(bps, max_fee, a) <= spec_calculate_fee(bps, max_fee, b),
{
    if bps != 0 && a != 0 {
        lemma_mul_inequality(a, b, bps);
        lemma_div_is_ordered(a * bps + 10_000 - 1, b * bps + 10_000 - 1, 10_000);
        lemma_fee_le_amount(bps, max_fee, a);
        lemma_fee_le_amount(bps, max_fee, b);
    } else {
        lemma_fee_le_amount(bps, max_fee, b);
    }
}

/// Computes the fee withheld when `amount` moves under `cfg`.
pub fn calculate_fee(cfg: &TransferFeeConfig, amount: u64) -> (fee: u64)
    requires
        cfg.wf(),
    ensures
        fee == spec_calculate_fee(
            cfg.transfer_fee_basis_points as int,
            cfg.maximum_fee as int,
            amount as int,
        ),
        fee <= amount,
{
    let bps = cfg.transfer_fee_basis_points;
    if bps == 0 || amount == 0 {
        0
    } else {
        proof {
            assert(amount as int * bps as int <= u64::MAX as int * 10_000) by (nonlinear_arith)
                requires
                    0 <= amount <= u64::MAX,
                    0 <= bps <= 10_000,
            ;
        }
        let numerator: u128 = (amount as u128) * (bps as u128);
        let raw_fee: u128 = (numerator + 10_000 - 1) / 10_000;
        proof {
            lemma_fee_le_amount(cfg.transfer_fee_basis_points as int, cfg.maximum_fee as int, amount as int);
        }
        if raw_fee >= cfg.maximum_fee as u128 {
            cfg.maximum_fee
        } else {
            raw_fee as u64
        }
    }
}

/// The fee withheld when `amount` is transferred with `mint` governing the
/// leg; zero for a mint without a transfer-fee configuration.
pub fn get_transfer_fee(mint: &MintConfig, amount: u64) -> (fee: u64)
    requires
        mint.wf(),
    ensures
        fee == spec_transfer_fee(*mint, amount as int),
        fee <= amount,
{
    match &mint.transfer_fee {
        Option::Some(cfg) => calculate_fee(cfg, amount),
        Option::None => 0,
    }
}

/// The fee to add on top of `post_fee_amount` so that, after withholding,
/// the full `post_fee_amount` is delivered. Fails with
/// `FeeComputationError` where the grossed-up amount no longer fits a `u64`.
pub fn get_transfer_inverse_fee(mint: &MintConfig, post_fee_amount: u64) -> (r: Result<
    u64,
    ErrorCode,
>)
    requires
        mint.wf(),
    ensures
        r is Ok <==> spec_inverse_fee_fits(*mint, post_fee_amount as int),
        r is Ok ==> r->Ok_0 == spec_transfer_inverse_fee(*mint, post_fee_amount as int),
        r is Err ==> r->Err_0 == ErrorCode::FeeComputationError,
{
    let cfg = match &mint.transfer_fee {
        Option::Some(cfg) => cfg,
        Option::None => {
            return Result::Ok(0);
        },
    };
    let bps = cfg.transfer_fee_basis_points;
    if bps == MAX_FEE_BASIS_POINTS {
        return Result::Ok(cfg.maximum_fee);
    }
    if bps == 0 {
        return Result::Ok(0);
    }
    if post_fee_amount == 0 {
        return Result::Ok(0);
    }
    proof {
        assert(post_fee_amount as int * 10_000 <= u64::MAX as int * 10_000) by (nonlinear_arith)
            requires
                0 <= post_fee_amount <= u64::MAX,
        ;
    }
    let numerator: u128 = (post_fee_amount as u128) * 10_000;
    let denominator: u128 = 10_000 - (bps as u128);
    let raw_pre_fee: u128 = (numerator + denominator - 1) / denominator;
    proof {
        lemma_mul_inequality(
            denominator as int,
            10_000,
            post_fee_amount as int,
        );
        assert(post_fee_amount * denominator == denominator * post_fee_amount)
            by (nonlinear_arith);
        assert(post_fee_amount * 10_000 == 10_000 * post_fee_amount) by (nonlinear_arith);
        lemma_ceil_div_ge(
            post_fee_amount as int * 10_000,
            denominator as int,
            post_fee_amount as int,
        );
    }
    let pre_fee_amount: u64 = if raw_pre_fee - (post_fee_amount as u128) >= cfg.maximum_fee
        as u128 {
        match post_fee_amount.checked_add(cfg.maximum_fee) {
            Option::Some(p) => p,
            Option::None => {
                return Result::Err(ErrorCode::FeeComputationError);
            },
        }
    } else {
        if raw_pre_fee > u64::MAX as u128 {
            return Result::Err(ErrorCode::FeeComputationError);
        }
        raw_pre_fee as u64
    };
    Result::Ok(calculate_fee(cfg, pre_fee_amount))
}

/// The fee withheld from a transfer is never negative and never exceeds the
/// transferred amount.
pub proof fn lemma_transfer_fee_le_amount(mint: MintConfig, amount: int)
    requires
        mint.wf(),
        amount >= 0,
    ensures
        0 <= spec_transfer_fee(mint, amount) <= amount,
{
    match mint.transfer_fee {
        Option::Some(cfg) => {
            lemma_fee_le_amount(
                cfg.transfer_fee_basis_points as int,
                cfg.maximum_fee as int,
                amount,
            );
        },
        Option::None => {},
    }
}

/// Fee round trip: the inverse fee never under-covers the forward fee. If a
/// transfer is grossed up by the inverse fee of the desired net amount, the
/// fee actually withheld from that grossed-up transfer never exceeds the
/// inverse fee, so at least the desired net amount is delivered.
pub proof fn lemma_fee_round_trip(mint: MintConfig, x: u64)
    requires
        mint.wf(),
    ensures
        spec_transfer_inverse_fee(mint, x as int) >= 0,
        spec_transfer_fee(mint, x + spec_transfer_inverse_fee(mint, x as int))
            <= spec_transfer_inverse_fee(mint, x as int),
{
    let cfg = match mint.transfer_fee {
        Option::Some(cfg) => cfg,
        Option::None => {
            return;
        },
    };
    let bps = cfg.transfer_fee_basis_points as int;
    let max_fee = cfg.maximum_fee as int;
    let inv = spec_transfer_inverse_fee(mint, x as int);
    if bps == 10_000 {
        // The inverse fee is the cap itself, and no withheld fee exceeds it.
        assert(inv == max_fee);
        lemma_fee_le_amount(bps, max_fee, x + max_fee);
    } else if bps == 0 || x == 0 {
        assert(inv == 0);
    } else {
        let raw = ceil_div(x * 10_000, 10_000 - bps);
        let pre = spec_pre_fee_amount(bps, max_fee, x as int);
        assert(x * 10_000 >= 0) by (nonlinear_arith)
            requires
                x >= 0,
        ;
        lemma_ceil_div_covers(x * 10_000, 10_000 - bps);
        assert(x * (10_000 - bps) <= x * 10_000) by (nonlinear_arith)
            requires
                x >= 0,
                0 < bps < 10_000,
        ;
        lemma_ceil_div_ge(x * 10_000, 10_000 - bps, x as int);
        if raw - x >= max_fee {
            // The gross-up is capped: the inverse fee is the fee on
            // `x + max_fee`, and monotonicity closes the loop.
            assert(pre == x + max_fee);
            lemma_fee_le_amount(bps, max_fee, pre);
            lemma_fee_monotone(bps, max_fee, x + inv, pre);
        } else {
            assert(pre == raw);
            // Rounding up covers the numerator, so the fee on the raw
            // gross-up fits inside the headroom `raw - x`.
            assert(raw * bps <= (raw - x) * 10_000) by (nonlinear_arith)
                requires
                    0 < bps < 10_000,
                    raw * (10_000 - bps) >= x * 10_000,
            ;
            lemma_ceil_div_le(raw * bps, 10_000, raw - x);
            assert(raw * bps >= 0) by (nonlinear_arith)
                requires
                    raw >= 0,
                    bps >= 0,
            ;
            lemma_ceil_div_ge(raw * bps, 10_000, 0);
            assert(spec_calculate_fee(bps, max_fee, pre) <= raw - x);
            lemma_fee_le_amount(bps, max_fee, pre);
            lemma_fee_monotone(bps, max_fee, x + inv, pre);
        }
    }
}

} // verus!
