use vstd::prelude::*;

use crate::error::ErrorCode;

verus! {

/// A four-byte optional-field tag as the token-account layout packs it:
/// a little-endian 0 (absent) or 1 (present).
pub open spec fn spec_coption_tag_valid(data: Seq<u8>, at: int) -> bool {
    &&& (data[at] == 0 || data[at] == 1)
    &&& data[at + 1] == 0
    &&& data[at + 2] == 0
    &&& data[at + 3] == 0
}

/// Whether a byte buffer is a parsable, initialized packed token account:
/// exactly 165 bytes; valid optional-field tags for the delegate (offset
/// 72), the native marker (offset 109) and the close authority (offset
/// 129); and an account-state byte (offset 108) of 1 (initialized) or 2
/// (frozen) — 0 marks an uninitialized account and is rejected.
pub open spec fn spec_vault_account_valid(data: Seq<u8>) -> bool {
    &&& data.len() == 165
    &&& spec_coption_tag_valid(data, 72)
    &&& (data[108] == 1 || data[108] == 2)
    &&& spec_coption_tag_valid(data, 109)
    &&& spec_coption_tag_valid(data, 129)
}

/// The balance a packed token account holds: the 64-bit little-endian
/// integer at bytes 64..72.
pub open spec fn spec_vault_balance(data: Seq<u8>) -> u64 {
    vstd::bytes::spec_u64_from_le_bytes(data.subrange(64, 72))
}

/// Reads the balance out of a packed token-account buffer.
///
/// Relies on `spl_token::state::Account::unpack`: the packed account is
/// exactly 165 bytes, with the balance as a little-endian `u64` at bytes
/// 64..72; parsing fails on any other length, on a malformed optional-field
/// tag, on an account-state byte above 2, and on an uninitialized account
/// (state byte 0).
#[verifier::external_body]
#[allow(deprecated)]
pub fn vault_balance_from_account_data(data: &Vec<u8>) -> (r: Result<u64, ErrorCode>)
    ensures
        r is Ok <==> spec_vault_account_valid(data@),
        r is Ok ==> r->Ok_0 == spec_vault_balance(data@),
        r is Err ==> r->Err_0 == ErrorCode::InvalidVaultAccountData,
{
    match <spl_token::state::Account as solana_program_pack::Pack>::unpack(data.as_slice()) {
        Result::Ok(account) => Result::Ok(account.amount),
        Result::Err(_) => Result::Err(ErrorCode::InvalidVaultAccountData),
    }
}

} // verus!
