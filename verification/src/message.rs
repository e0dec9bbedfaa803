//! The relayer's payload inside a token bridge transfer.

use crate::address::Address;
use vstd::prelude::*;

verus! {

/// Native currency base units per unit of gas dropoff on the wire.
pub const GAS_DROPOFF_SCALE: u64 = 1000;

/// The relayer's payload, by version. One version exists.
#[derive(Clone, Copy, Debug, PartialEq, Eq)]
pub enum RelayerMessage {
    V0 {
        /// Gas dropoff in wire units, a thousand base units each.
        gas_dropoff_amount: u32,
        /// The address that is to receive the tokens and the gas dropoff.
        recipient: Address,
        /// Whether the sender asked for the asset to be unwrapped.
        unwrap_intent: bool,
    },
}

/// What a relayer message asks for, in the ledger's own units.
#[derive(Clone, Copy, Debug, PartialEq, Eq)]
pub struct DecodedMessage {
    /// Gas dropoff in base units of native currency.
    pub gas_dropoff: u64,
    /// The address that is to receive the tokens and the gas dropoff.
    pub recipient: Address,
    /// Carried along for the sender's information; nothing here acts on it.
    pub unwrap_intent: bool,
}

/// The gas dropoff in base units for an amount in wire units.
pub open spec fn denormalized(wire_amount: u32) -> int {
    wire_amount * 1000
}

/// The recipient that a message names.
pub open spec fn recipient_of(message: RelayerMessage) -> Address {
    message->recipient
}

/// The contents of a message with its gas dropoff scaled to base units.
pub open spec fn decoded(message: RelayerMessage) -> DecodedMessage {
    DecodedMessage {
        gas_dropoff: denormalized(message->gas_dropoff_amount) as u64,
        recipient: message->recipient,
        unwrap_intent: message->unwrap_intent,
    }
}

/// Converts a gas dropoff from wire units into base units of native
/// currency.
pub fn denormalize_gas_dropoff(wire_amount: u32) -> (lamports: u64)
    ensures
        lamports == denormalized(wire_amount),
{
    let widened: u64 = wire_amount as u64;
    widened * GAS_DROPOFF_SCALE
}

/// Reads a relayer message and scales its gas dropoff, once.
pub fn decode(message: &RelayerMessage) -> (out: DecodedMessage)
    ensures
        out == decoded(*message),
        out.gas_dropoff == denormalized(message->gas_dropoff_amount),
{
    match message {
        RelayerMessage::V0 { gas_dropoff_amount, recipient, unwrap_intent } => DecodedMessage {
            gas_dropoff: denormalize_gas_dropoff(*gas_dropoff_amount),
            recipient: *recipient,
            unwrap_intent: *unwrap_intent,
        },
    }
}

} // verus!
