//! Validation of the accounts of a completion against the message.
//!
//! Every check here reads and compares; none changes anything, so a refused
//! completion leaves the ledger as it was.

use crate::accounts::Context;
use crate::address::{
    bytes_to_vec, derived_key, key_view, program_address, seeds_view, try_find_program_address,
    Address,
};
use crate::error::TokenBridgeRelayerError;
use crate::message::{recipient_of, RelayerMessage};
use vstd::prelude::*;

verus! {

/// The messaging layer's identifier of this ledger.
pub const CHAIN_ID_SOLANA: u16 = 1;

/// First seed of the address of a posted message: the text `PostedVAA`.
pub open spec fn posted_vaa_seed_prefix() -> Seq<u8> {
    seq![80u8, 111u8, 115u8, 116u8, 101u8, 100u8, 86u8, 65u8, 65u8]
}

/// First seed of the address of a peer record: the text `peer`.
pub open spec fn peer_seed_prefix() -> Seq<u8> {
    seq![112u8, 101u8, 101u8, 114u8]
}

/// A chain identifier as two bytes, the high byte first.
pub open spec fn chain_bytes(chain: u16) -> Seq<u8> {
    seq![(chain / 256) as u8, (chain % 256) as u8]
}

/// The seeds of the account that holds the message with digest `vaa_hash`.
pub open spec fn message_seeds(vaa_hash: Seq<u8>) -> Seq<Seq<u8>> {
    seq![posted_vaa_seed_prefix(), vaa_hash]
}

/// The seeds of the peer record for an emitter.
pub open spec fn peer_seeds(emitter_chain: u16, emitter_address: Seq<u8>) -> Seq<Seq<u8>> {
    seq![peer_seed_prefix(), chain_bytes(emitter_chain), emitter_address]
}

/// Where the message with digest `vaa_hash` is posted under the messaging
/// program named in `ctx`, if the ledger derives such an address.
pub open spec fn expected_message_key(ctx: Context, vaa_hash: Seq<u8>) -> Option<Seq<u8>> {
    derived_key(program_address(message_seeds(vaa_hash), ctx.accounts.wormhole_program@))
}

/// Where this program keeps the peer record for the emitter of the message
/// in `ctx`, if the ledger derives such an address.
pub open spec fn expected_peer_key(ctx: Context) -> Option<Seq<u8>> {
    derived_key(
        program_address(
            peer_seeds(ctx.accounts.vaa.meta.emitter_chain, ctx.accounts.vaa.meta.emitter_address@),
            ctx.program_id@,
        ),
    )
}

/// The outcome of validating `ctx`, given the address at which the message
/// must be posted and the address at which the emitter's peer record must
/// lie. The checks come in this order and the first that fails decides.
pub open spec fn context_check(
    ctx: Context,
    message_key: Option<Seq<u8>>,
    peer_key: Option<Seq<u8>>,
) -> Result<(), TokenBridgeRelayerError> {
    let accounts = ctx.accounts;
    if message_key != Some(accounts.vaa.key@) {
        Err(TokenBridgeRelayerError::MessageKeyMismatch)
    } else if accounts.vaa.transfer.to_address@ != ctx.program_id@ {
        Err(TokenBridgeRelayerError::InvalidTransferToAddress)
    } else if accounts.vaa.transfer.to_chain != CHAIN_ID_SOLANA {
        Err(TokenBridgeRelayerError::InvalidTransferToChain)
    } else if !accounts.token_bridge_claim.data_is_empty {
        Err(TokenBridgeRelayerError::AlreadyRedeemed)
    } else if accounts.recipient@ != recipient_of(accounts.vaa.message)@ {
        Err(TokenBridgeRelayerError::InvalidRecipient)
    } else if peer_key != Some(accounts.peer@) {
        Err(TokenBridgeRelayerError::PeerKeyMismatch)
    } else {
        Ok(())
    }
}

/// The seeds of the account that holds the message with digest `vaa_hash`.
pub fn message_seed_list(vaa_hash: &[u8; 32]) -> (seeds: Vec<Vec<u8>>)
    ensures
        seeds_view(seeds@) == message_seeds(vaa_hash@),
{
    let prefix: Vec<u8> = vec![80u8, 111u8, 115u8, 116u8, 101u8, 100u8, 86u8, 65u8, 65u8];
    let digest: Vec<u8> = bytes_to_vec(vaa_hash);
    let mut seeds: Vec<Vec<u8>> = Vec::new();
    seeds.push(prefix);
    seeds.push(digest);
    proof {
        assert(prefix@ =~= posted_vaa_seed_prefix());
        assert(seeds_view(seeds@) =~= message_seeds(vaa_hash@));
    }
    seeds
}

/// The seeds of the peer record for an emitter.
pub fn peer_seed_list(emitter_chain: u16, emitter_address: &Address) -> (seeds: Vec<Vec<u8>>)
    ensures
        seeds_view(seeds@) == peer_seeds(emitter_chain, emitter_address@),
{
    let prefix: Vec<u8> = vec![112u8, 101u8, 101u8, 114u8];
    let high: u8 = (emitter_chain / 256) as u8;
    let low: u8 = (emitter_chain % 256) as u8;
    let chain: Vec<u8> = vec![high, low];
    let emitter: Vec<u8> = emitter_address.to_vec();
    let mut seeds: Vec<Vec<u8>> = Vec::new();
    seeds.push(prefix);
    seeds.push(chain);
    seeds.push(emitter);
    proof {
        assert(prefix@ =~= peer_seed_prefix());
        assert(chain@ =~= chain_bytes(emitter_chain));
        assert(seeds_view(seeds@) =~= peer_seeds(emitter_chain, emitter_address@));
    }
    seeds
}

/// Whether `derived` is present and is the address `key`.
fn is_key(derived: &Option<Address>, key: &Address) -> (same: bool)
    ensures
        same == (key_view(*derived) == Some(key@)),
{
    match derived {
        Some(address) => *address == *key,
        None => false,
    }
}

/// Validates `ctx` against the address at which the message must be posted
/// and the address at which the emitter's peer record must lie; `None`
/// stands for an address that cannot be derived, which no account has.
///
/// In order: the message account is the expected one; the message is for
/// this program; it is for this chain; its claim record is still empty; the
/// recipient account is the recipient it names; the peer account is the
/// expected one.
pub fn check_context(
    ctx: &Context,
    message_key: Option<Address>,
    peer_key: Option<Address>,
) -> (outcome: Result<(), TokenBridgeRelayerError>)
    ensures
        outcome == context_check(*ctx, key_view(message_key), key_view(peer_key)),
{
    let accounts = &ctx.accounts;
    if !is_key(&message_key, &accounts.vaa.key) {
        return Err(TokenBridgeRelayerError::MessageKeyMismatch);
    }
    if accounts.vaa.transfer.to_address != ctx.program_id {
        return Err(TokenBridgeRelayerError::InvalidTransferToAddress);
    }
    if accounts.vaa.transfer.to_chain != CHAIN_ID_SOLANA {
        return Err(TokenBridgeRelayerError::InvalidTransferToChain);
    }
    if !accounts.token_bridge_claim.data_is_empty {
        return Err(TokenBridgeRelayerError::AlreadyRedeemed);
    }
    let recipient = match accounts.vaa.message {
        RelayerMessage::V0 { recipient, .. } => recipient,
    };
    if accounts.recipient != recipient {
        return Err(TokenBridgeRelayerError::InvalidRecipient);
    }
    if !is_key(&peer_key, &accounts.peer) {
        return Err(TokenBridgeRelayerError::PeerKeyMismatch);
    }
    Ok(())
}

/// The address at which the message with digest `vaa_hash` must be posted.
pub fn derive_message_key(ctx: &Context, vaa_hash: &[u8; 32]) -> (key: Option<Address>)
    ensures
        key_view(key) == expected_message_key(*ctx, vaa_hash@),
{
    let seeds = message_seed_list(vaa_hash);
    let derived = try_find_program_address(&seeds, &ctx.accounts.wormhole_program);
    match derived {
        Some((key, _)) => Some(key),
        None => None,
    }
}

/// The address at which the peer record of the message's emitter must lie.
pub fn derive_peer_key(ctx: &Context) -> (key: Option<Address>)
    ensures
        key_view(key) == expected_peer_key(*ctx),
{
    let meta = &ctx.accounts.vaa.meta;
    let seeds = peer_seed_list(meta.emitter_chain, &meta.emitter_address);
    let derived = try_find_program_address(&seeds, &ctx.program_id);
    match derived {
        Some((key, _)) => Some(key),
        None => None,
    }
}

/// Validates the accounts of a completion for the message with digest
/// `vaa_hash`: derives the two expected addresses and checks `ctx` against
/// them as [`check_context`] does.
pub fn validate(ctx: &Context, vaa_hash: &[u8; 32]) -> (outcome: Result<
    (),
    TokenBridgeRelayerError,
>)
    ensures
        outcome == context_check(
            *ctx,
            expected_message_key(*ctx, vaa_hash@),
            expected_peer_key(*ctx),
        ),
{
    let message_key = derive_message_key(ctx, vaa_hash);
    let peer_key = derive_peer_key(ctx);
    check_context(ctx, message_key, peer_key)
}

} // verus!
