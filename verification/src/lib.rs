//! Completion of incoming transfers for a cross-chain token relayer.
//!
//! A transfer arrives as a verified message. Completing it redeems the
//! bridged tokens through the token bridge, hands the recipient a small
//! amount of native currency, and closes the temporary custody account, as
//! one unit of work that either happens whole or not at all.

pub mod accounts;
pub mod address;
pub mod error;
pub mod laws;
pub mod message;
pub mod mode;
pub mod redeem;
pub mod transfer;
pub mod validate;
