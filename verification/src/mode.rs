//! Whether a transfer redeems a native or a wrapped asset.
//!
//! Two signals decide, and they must agree: which of the optional accounts
//! were handed in, and whether the mint has a mint authority.

use crate::accounts::{CompleteTransfer, Context};
use crate::address::Address;
use crate::error::TokenBridgeRelayerError;
use vstd::prelude::*;

verus! {

/// What the mint says: a mint without a mint authority is a native asset, a
/// mint with one is a wrapped asset.
pub open spec fn mint_is_native(mint_authority: Option<Address>) -> bool {
    mint_authority is None
}

/// What the optional accounts say: `Some(true)` where exactly the custody
/// account and the custody signer are present, `Some(false)` where exactly
/// the mint authority and the wrapped metadata are present, `None` for any
/// other choice.
pub open spec fn account_shape(accounts: CompleteTransfer) -> Option<bool> {
    if accounts.token_bridge_mint_authority is None && accounts.token_bridge_wrapped_meta is None
        && accounts.token_bridge_custody is Some && accounts.token_bridge_custody_signer is Some {
        Some(true)
    } else if accounts.token_bridge_mint_authority is Some
        && accounts.token_bridge_wrapped_meta is Some && accounts.token_bridge_custody is None
        && accounts.token_bridge_custody_signer is None {
        Some(false)
    } else {
        None
    }
}

/// `expected_native` where the mint agrees with it, else the error.
pub open spec fn native_check(mint_authority: Option<Address>, expected_native: bool) -> Result<
    bool,
    TokenBridgeRelayerError,
> {
    if expected_native == mint_is_native(mint_authority) {
        Ok(expected_native)
    } else {
        Err(TokenBridgeRelayerError::WronglySetOptionalAccounts)
    }
}

/// The mode of a transfer: `Ok(true)` for native, `Ok(false)` for wrapped,
/// and the error where the optional accounts fit neither or the mint
/// disagrees with them.
pub open spec fn mode_resolution(accounts: CompleteTransfer) -> Result<
    bool,
    TokenBridgeRelayerError,
> {
    match account_shape(accounts) {
        Some(expected_native) => native_check(accounts.mint.mint_authority, expected_native),
        None => Err(TokenBridgeRelayerError::WronglySetOptionalAccounts),
    }
}

/// Holds what the optional accounts say against the mint.
pub fn check_native(mint_authority: &Option<Address>, expected_native: bool) -> (outcome: Result<
    bool,
    TokenBridgeRelayerError,
>)
    ensures
        outcome == native_check(*mint_authority, expected_native),
{
    let mint_native = mint_authority.is_none();
    if expected_native == mint_native {
        Ok(expected_native)
    } else {
        Err(TokenBridgeRelayerError::WronglySetOptionalAccounts)
    }
}

/// Resolves the mode of the transfer in `ctx`.
///
/// Returns `Ok(true)` exactly where the custody account and the custody
/// signer alone are present and the mint has no authority, `Ok(false)`
/// exactly where the mint authority and the wrapped metadata alone are
/// present and the mint has an authority, and `WronglySetOptionalAccounts`
/// in every other case.
pub fn is_native(ctx: &Context) -> (outcome: Result<bool, TokenBridgeRelayerError>)
    ensures
        outcome == mode_resolution(ctx.accounts),
        outcome matches Ok(native) ==> account_shape(ctx.accounts) == Some(native)
            && mint_is_native(ctx.accounts.mint.mint_authority) == native,
        outcome matches Err(e) ==> e == TokenBridgeRelayerError::WronglySetOptionalAccounts,
{
    let accounts = &ctx.accounts;
    match (
        &accounts.token_bridge_mint_authority,
        &accounts.token_bridge_wrapped_meta,
        &accounts.token_bridge_custody,
        &accounts.token_bridge_custody_signer,
    ) {
        (None, None, Some(_), Some(_)) => check_native(&accounts.mint.mint_authority, true),
        (Some(_), Some(_), None, None) => check_native(&accounts.mint.mint_authority, false),
        _ => Err(TokenBridgeRelayerError::WronglySetOptionalAccounts),
    }
}

} // verus!
