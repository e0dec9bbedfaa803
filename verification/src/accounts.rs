//! The records that one completion of a transfer works on, as plain values.

use crate::address::Address;
use crate::message::RelayerMessage;
use vstd::prelude::*;

verus! {

/// What the messaging layer recorded about where a message came from.
#[derive(Clone, Copy, Debug, PartialEq, Eq)]
pub struct PostedVaaMeta {
    /// Chain of the emitter.
    pub emitter_chain: u16,
    /// Address of the emitter on its chain.
    pub emitter_address: Address,
}

/// The token bridge's part of a transfer message.
#[derive(Clone, Copy, Debug, PartialEq, Eq)]
pub struct TransferHeader {
    /// Amount of tokens that the transfer bridges.
    pub amount: u64,
    /// Address of the asset on its chain of origin.
    pub token_address: Address,
    /// Chain of origin of the asset.
    pub token_chain: u16,
    /// Final destination of the transfer: the program that may redeem it.
    pub to_address: Address,
    /// Chain of the destination.
    pub to_chain: u16,
    /// Sender of the transfer on the source chain.
    pub from_address: Address,
}

/// A posted and already verified transfer message that carries a relayer
/// payload.
#[derive(Clone, Copy, Debug, PartialEq, Eq)]
pub struct PostedRelayerMessage {
    /// Address of the account that holds the message.
    pub key: Address,
    pub meta: PostedVaaMeta,
    pub transfer: TransferHeader,
    pub message: RelayerMessage,
}

/// The mint of the asset being bridged.
#[derive(Clone, Copy, Debug, PartialEq, Eq)]
pub struct MintAccount {
    pub key: Address,
    /// The authority that may mint, where the mint has one.
    pub mint_authority: Option<Address>,
}

/// The token bridge's claim record for one message.
#[derive(Clone, Copy, Debug, PartialEq, Eq)]
pub struct ClaimAccount {
    pub key: Address,
    /// Whether the record holds no data yet: the message is unredeemed.
    pub data_is_empty: bool,
}

/// The accounts of one completion.
#[derive(Clone, Copy, Debug, PartialEq, Eq)]
pub struct CompleteTransfer {
    /// Pays for the completion and for the gas dropoff.
    pub payer: Address,
    /// This relayer's configuration, the authority of every redemption.
    pub tbr_config: Address,
    pub mint: MintAccount,
    /// The recipient's own token account for the mint.
    pub recipient_token_account: Address,
    /// The recipient, who may differ from the payer.
    pub recipient: Address,
    /// The verified message.
    pub vaa: PostedRelayerMessage,
    /// Token account that exists during this completion only.
    pub temporary_account: Address,
    /// The registered peer for the message's emitter.
    pub peer: Address,
    pub token_bridge_config: Address,
    pub token_bridge_claim: ClaimAccount,
    pub token_bridge_foreign_endpoint: Address,
    /// Native transfers only.
    pub token_bridge_custody: Option<Address>,
    /// Native transfers only.
    pub token_bridge_custody_signer: Option<Address>,
    /// Wrapped transfers only.
    pub token_bridge_mint_authority: Option<Address>,
    /// Wrapped transfers only.
    pub token_bridge_wrapped_meta: Option<Address>,
    pub system_program: Address,
    pub token_program: Address,
    pub wormhole_program: Address,
    pub token_bridge_program: Address,
    pub rent: Address,
}

/// Bump seeds of the derived accounts of a completion.
#[derive(Clone, Copy, Debug, PartialEq, Eq)]
pub struct CompleteTransferBumps {
    pub tbr_config: u8,
}

/// One invocation of the completion: this program's identity, the accounts
/// handed in and their bump seeds.
#[derive(Clone, Copy, Debug, PartialEq, Eq)]
pub struct Context {
    pub program_id: Address,
    pub accounts: CompleteTransfer,
    pub bumps: CompleteTransferBumps,
}

} // verus!
