use vstd::prelude::*;

use crate::error::ErrorCode;
use crate::pool::AccountKey;

verus! {

/// Denominator of the protocol and fund fee rates (hundredths of a bip).
pub const FEE_RATE_DENOMINATOR_VALUE: u32 = 1_000_000;

/// Default flat trade fee charged on each swap.
pub const TRADE_FLAT_FEE_DEFAULT: u64 = 100_000;

/// Holds the current owner of the factory and the fee parameters shared by
/// the pools created under it.
#[derive(Clone, Copy, Debug, PartialEq, Eq, Structural)]
pub struct AmmConfig {
    /// Bump seed of the config's derived address.
    pub bump: u8,
    pub index: u16,
    /// Address of the protocol owner.
    pub owner: AccountKey,
    /// The protocol fee rate.
    pub protocol_fee_rate: u32,
    /// Flat trade fee charged on each swap.
    pub trade_fee_flat: u64,
    /// The tick spacing.
    pub tick_spacing: u16,
    /// The fund fee, denominated in hundredths of a bip.
    pub fund_fee_rate: u32,
    pub fund_owner: AccountKey,
}

impl Default for AmmConfig {
    /// A fresh config: zeroed but for the default flat trade fee.
    fn default() -> (cfg: Self)
        ensures
            cfg == (AmmConfig {
                bump: 0u8,
                index: 0u16,
                owner: AccountKey { id: 0 },
                protocol_fee_rate: 0u32,
                trade_fee_flat: TRADE_FLAT_FEE_DEFAULT,
                tick_spacing: 0u16,
                fund_fee_rate: 0u32,
                fund_owner: AccountKey { id: 0 },
            }),
    {
        AmmConfig {
            bump: 0,
            index: 0,
            owner: AccountKey { id: 0 },
            protocol_fee_rate: 0,
            trade_fee_flat: TRADE_FLAT_FEE_DEFAULT,
            tick_spacing: 0,
            fund_fee_rate: 0,
            fund_owner: AccountKey { id: 0 },
        }
    }
}

impl AmmConfig {
    /// Admits the signer that is the config owner, or the one expected by the
    /// caller; everyone else is rejected with `NotApproved`.
    pub fn is_authorized(&self, signer: AccountKey, expect_pubkey: AccountKey) -> (r: Result<
        (),
        ErrorCode,
    >)
        ensures
            r is Ok <==> (signer == self.owner || expect_pubkey == signer),
            r is Err ==> r->Err_0 == ErrorCode::NotApproved,
    {
        if signer.id == self.owner.id || expect_pubkey.id == signer.id {
            Result::Ok(())
        } else {
            Result::Err(ErrorCode::NotApproved)
        }
    }
}

/// Emitted when a config is created or updated; an observability record, not
/// consumed back by the core.
#[derive(Clone, Copy, Debug, PartialEq, Eq, Structural)]
pub struct ConfigChangeEvent {
    pub index: u16,
    pub owner: AccountKey,
    pub protocol_fee_rate: u32,
    pub trade_fee_flat: u64,
    pub tick_spacing: u16,
    pub fund_fee_rate: u32,
    pub fund_owner: AccountKey,
}

} // verus!
