use vstd::prelude::*;

verus! {

/// Errors surfaced by the swap, rebalance and unwind operations.
///
/// Precondition violations (`NotApproved`, `PoolNotOpenYet`, `PoolIsFrozen`)
/// fail fast with no state mutated. Arithmetic failures
/// (`FeeComputationError`, `TotalBalanceZero`, and `TooMuchInputPaid` where it
/// doubles as the generic overflow signal of the ratio math) never silently
/// saturate. Slippage violations (`TooLittleOutputReceived`,
/// `TooMuchInputPaid`) are surfaced verbatim so the caller may retry with
/// adjusted parameters.
#[derive(Clone, Copy, Debug, PartialEq, Eq, Structural)]
pub enum ErrorCode {
    /// The signer or the presented leveraged-mint pair is not the one the
    /// pool is bound to.
    NotApproved,
    /// The current block time has not passed the pool's `open_time`.
    PoolNotOpenYet,
    /// The pool is frozen (`status == 255`): all trading is rejected.
    PoolIsFrozen,
    /// The tick engine realized a zero delta on one of the two legs: the
    /// price limit was hit immediately with no fill.
    TooSmallInputOrOutputAmount,
    /// An exact-input swap realized less output than the caller's threshold.
    TooLittleOutputReceived,
    /// An exact-output swap consumed more input than the caller's threshold;
    /// also the generic overflow signal of the ratio and value bookkeeping.
    TooMuchInputPaid,
    /// Transfer-fee computation overflowed or the mint's fee configuration
    /// was unreadable.
    FeeComputationError,
    /// The two vault balances handed to a rebalance sum to zero, or their
    /// scaling by the leverage factor overflowed.
    TotalBalanceZero,
    /// The post-swap price did not move strictly in the direction implied by
    /// `zero_for_one`: a fatal engine invariant failure.
    PriceDirectionInvariantViolated,
    /// A vault token-account buffer could not be parsed.
    InvalidVaultAccountData,
}

} // verus!
