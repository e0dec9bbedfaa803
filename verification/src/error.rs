//! The reasons for which the relayer refuses to complete a transfer.

use vstd::prelude::*;

verus! {

/// Why a transfer was refused before any collaborator was called.
///
/// Each reason is distinct so that an operator can tell a transfer that is
/// already done from one that is malformed.
#[derive(Clone, Copy, Debug, PartialEq, Eq, Structural)]
pub enum TokenBridgeRelayerError {
    /// The message account is not the one derived from the message digest
    /// under the messaging program.
    MessageKeyMismatch,
    /// The message names another program as its final destination.
    InvalidTransferToAddress,
    /// The message names another chain as its destination.
    InvalidTransferToChain,
    /// The claim record already holds data: the message was redeemed before.
    AlreadyRedeemed,
    /// The recipient account is not the recipient that the message names.
    InvalidRecipient,
    /// The peer account is not the one derived from the message's emitter.
    PeerKeyMismatch,
    /// The optional accounts fit neither a native nor a wrapped transfer, or
    /// disagree with the mint.
    WronglySetOptionalAccounts,
    /// A wrapped transfer names an asset whose origin is another chain.
    InvalidTransferTokenChain,
}

} // verus!
