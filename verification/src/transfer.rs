//! The completion of one transfer, from validation to the last call.
//!
//! A completion first decides, without touching anything, whether the
//! transfer may be completed and which calls that takes. It then asks for
//! those calls one at a time, in a fixed order: the redemption, the gas
//! dropoff if the message asks for one, and the closing of the temporary
//! account. The caller makes each call and reports how it went. The first
//! failure ends the completion with that failure.

use crate::accounts::Context;
use crate::address::{key_view, Address};
use crate::error::TokenBridgeRelayerError;
use crate::message::{decode, decoded};
use crate::mode::{is_native, mode_resolution};
use crate::redeem::{
    custody_closure_of, gas_dropoff_of, redeemer, redemption_of, token_bridge_complete_native,
    token_bridge_complete_wrapped, Action, CloseAccount, LamportTransfer, Redemption,
};
use crate::validate::{
    check_context, context_check, derive_message_key, derive_peer_key, expected_message_key,
    expected_peer_key, CHAIN_ID_SOLANA,
};
use vstd::prelude::*;

verus! {

/// How far a completion has come. Validation, decoding and the choice of
/// mode happen before the first call, so a completion is first seen at
/// `ModeResolved`; closing the temporary account is the last call, so a
/// completion whose closing succeeded is `Complete`.
#[derive(Clone, Copy, Debug, PartialEq, Eq, Structural)]
pub enum Stage {
    /// The transfer may be completed; the redemption is still to be made.
    ModeResolved,
    /// The tokens are redeemed; the gas dropoff is still to be delivered.
    Redeemed,
    /// Nothing is owed to the recipient any more; the temporary account is
    /// still to be closed.
    GasDelivered,
    /// Every call was made and succeeded.
    Complete,
}

/// The calls of a completion and how far it has come with them.
#[derive(Clone, Copy, Debug, PartialEq, Eq)]
pub struct Run {
    /// The one redemption of this completion.
    pub redemption: Redemption,
    /// The gas dropoff. With no lamports to move, no transfer is asked for.
    pub gas_dropoff: LamportTransfer,
    /// The closing of the temporary account.
    pub closure: CloseAccount,
    pub stage: Stage,
}

impl Run {
    /// A completion waits for a gas dropoff only where there is one to
    /// deliver.
    pub open spec fn wf(self) -> bool {
        self.stage == Stage::Redeemed ==> self.gas_dropoff.lamports > 0
    }

    /// The call that the completion asks for next, if any.
    pub open spec fn pending(self) -> Option<Action> {
        match self.stage {
            Stage::ModeResolved => Some(Action::Redeem(self.redemption)),
            Stage::Redeemed => Some(Action::Transfer(self.gas_dropoff)),
            Stage::GasDelivered => Some(Action::Close(self.closure)),
            Stage::Complete => None,
        }
    }

    /// The stage after the pending call has succeeded.
    pub open spec fn next_stage(self) -> Stage {
        match self.stage {
            Stage::ModeResolved => if self.gas_dropoff.lamports > 0 {
                Stage::Redeemed
            } else {
                Stage::GasDelivered
            },
            Stage::Redeemed => Stage::GasDelivered,
            Stage::GasDelivered => Stage::Complete,
            Stage::Complete => Stage::Complete,
        }
    }

    /// The completion after the pending call has succeeded.
    pub open spec fn advanced(self) -> Run {
        Run { stage: self.next_stage(), ..self }
    }

    /// The completion after the pending call has returned `outcome`: one
    /// stage further on success, ended with the collaborator's own error on
    /// failure.
    pub open spec fn step<E>(self, outcome: Result<(), E>) -> Result<Run, E> {
        match outcome {
            Ok(_) => Ok(self.advanced()),
            Err(e) => Err(e),
        }
    }

    /// The completion after `successes` calls in a row have succeeded.
    pub open spec fn after(self, successes: nat) -> Run
        decreases successes,
    {
        if successes == 0 {
            self
        } else {
            self.advanced().after((successes - 1) as nat)
        }
    }

    /// The calls that have been made and have succeeded so far, in order.
    pub open spec fn performed(self) -> Seq<Action> {
        let redeem = seq![Action::Redeem(self.redemption)];
        let gas = if self.gas_dropoff.lamports > 0 {
            seq![Action::Transfer(self.gas_dropoff)]
        } else {
            Seq::<Action>::empty()
        };
        match self.stage {
            Stage::ModeResolved => Seq::<Action>::empty(),
            Stage::Redeemed => redeem,
            Stage::GasDelivered => redeem + gas,
            Stage::Complete => redeem + gas + seq![Action::Close(self.closure)],
        }
    }
}

/// The calls for `ctx` in the given mode, with none of them made yet.
pub open spec fn planned(ctx: Context, native: bool) -> Run {
    Run {
        redemption: redemption_of(ctx, native),
        gas_dropoff: gas_dropoff_of(ctx, decoded(ctx.accounts.vaa.message).gas_dropoff),
        closure: custody_closure_of(ctx),
        stage: Stage::ModeResolved,
    }
}

/// How a completion of `ctx` starts, given the address at which the message
/// must be posted and the address at which the emitter's peer record must
/// lie: refused by validation, refused for its mode, refused because a
/// wrapped asset has its origin on another chain, or ready for its first
/// call.
pub open spec fn transfer_start(
    ctx: Context,
    message_key: Option<Seq<u8>>,
    peer_key: Option<Seq<u8>>,
) -> Result<Run, TokenBridgeRelayerError> {
    match context_check(ctx, message_key, peer_key) {
        Err(e) => Err(e),
        Ok(_) => match mode_resolution(ctx.accounts) {
            Err(e) => Err(e),
            Ok(native) => if !native && ctx.accounts.vaa.transfer.token_chain != CHAIN_ID_SOLANA {
                Err(TokenBridgeRelayerError::InvalidTransferTokenChain)
            } else {
                Ok(planned(ctx, native))
            },
        },
    }
}

/// A completion under way. It can only be made by starting one, and only
/// moves forward.
#[derive(Debug)]
pub struct Execution {
    run: Run,
}

impl View for Execution {
    type V = Run;

    closed spec fn view(&self) -> Run {
        self.run
    }
}

impl Execution {
    #[verifier::type_invariant]
    spec fn well_formed(self) -> bool {
        self.run.wf()
    }

    /// The calls of this completion and its stage.
    pub fn run(&self) -> (run: Run)
        ensures
            run == self@,
            run.wf(),
    {
        proof {
            use_type_invariant(self);
        }
        self.run
    }

    /// How far this completion has come.
    pub fn stage(&self) -> (stage: Stage)
        ensures
            stage == self@.stage,
    {
        self.run.stage
    }

    /// Whether every call was made and succeeded.
    pub fn is_complete(&self) -> (done: bool)
        ensures
            done == (self@.stage == Stage::Complete),
            done == (self@.pending() is None),
    {
        match self.run.stage {
            Stage::Complete => true,
            _ => false,
        }
    }

    /// The call to make next: the redemption first, then the gas dropoff if
    /// there are lamports to deliver, then the closing of the temporary
    /// account. `None` once the completion is complete.
    pub fn pending(&self) -> (action: Option<Action>)
        ensures
            action == self@.pending(),
    {
        match self.run.stage {
            Stage::ModeResolved => Some(Action::Redeem(self.run.redemption)),
            Stage::Redeemed => Some(Action::Transfer(self.run.gas_dropoff)),
            Stage::GasDelivered => Some(Action::Close(self.run.closure)),
            Stage::Complete => None,
        }
    }

    /// Takes the outcome of the pending call. On success the completion
    /// moves one stage on, past the gas dropoff where there is none to
    /// deliver. On failure it ends, and the collaborator's error comes back
    /// as it was given. A complete completion stays complete.
    pub fn advance<E>(self, outcome: Result<(), E>) -> (next: Result<Execution, E>)
        ensures
            match next {
                Ok(execution) => self@.step(outcome) == Ok::<Run, E>(execution@),
                Err(e) => self@.step(outcome) == Err::<Run, E>(e),
            },
            next matches Ok(execution) ==> execution@.performed() == (match self@.pending() {
                Some(action) => self@.performed().push(action),
                None => self@.performed(),
            }),
    {
        proof {
            use_type_invariant(&self);
        }
        match outcome {
            Err(e) => Err(e),
            Ok(_) => {
                let stage = match self.run.stage {
                    Stage::ModeResolved => if self.run.gas_dropoff.lamports > 0 {
                        Stage::Redeemed
                    } else {
                        Stage::GasDelivered
                    },
                    Stage::Redeemed => Stage::GasDelivered,
                    Stage::GasDelivered => Stage::Complete,
                    Stage::Complete => Stage::Complete,
                };
                let run = Run {
                    redemption: self.run.redemption,
                    gas_dropoff: self.run.gas_dropoff,
                    closure: self.run.closure,
                    stage,
                };
                proof {
                    performed_grows_by_pending(self.run);
                }
                Ok(Execution { run })
            },
        }
    }
}

/// A successful call adds exactly itself to the calls made so far: no call
/// is skipped, repeated or made out of order.
pub proof fn performed_grows_by_pending(run: Run)
    requires
        run.wf(),
    ensures
        run.advanced().wf(),
        run.advanced().performed() == (match run.pending() {
            Some(action) => run.performed().push(action),
            None => run.performed(),
        }),
{
    match run.pending() {
        Some(action) => {
            assert(run.advanced().performed() =~= run.performed().push(action));
        },
        None => {},
    }
}

/// Starts the completion of the transfer in `ctx`, given the address at
/// which the message must be posted and the address at which the emitter's
/// peer record must lie; `None` stands for an address that cannot be
/// derived.
///
/// Validates the accounts, reads the message, resolves the mode and, for a
/// wrapped asset, requires that its origin is this chain. Nothing is asked
/// of any collaborator before all of that has passed.
pub fn begin_transfer(
    ctx: &Context,
    message_key: Option<Address>,
    peer_key: Option<Address>,
) -> (outcome: Result<Execution, TokenBridgeRelayerError>)
    ensures
        match outcome {
            Ok(execution) => transfer_start(*ctx, key_view(message_key), key_view(peer_key)) == Ok::<
                Run,
                TokenBridgeRelayerError,
            >(execution@),
            Err(e) => transfer_start(*ctx, key_view(message_key), key_view(peer_key)) == Err::<
                Run,
                TokenBridgeRelayerError,
            >(e),
        },
{
    match check_context(ctx, message_key, peer_key) {
        Err(e) => {
            return Err(e);
        },
        Ok(_) => {},
    }
    let message = decode(&ctx.accounts.vaa.message);
    let signer = redeemer(ctx);
    let native = match is_native(ctx) {
        Err(e) => {
            return Err(e);
        },
        Ok(native) => native,
    };
    let redemption = if native {
        Redemption::Native(token_bridge_complete_native(ctx, &signer))
    } else {
        if ctx.accounts.vaa.transfer.token_chain != CHAIN_ID_SOLANA {
            return Err(TokenBridgeRelayerError::InvalidTransferTokenChain);
        }
        Redemption::Wrapped(token_bridge_complete_wrapped(ctx, &signer))
    };
    let run = Run {
        redemption,
        gas_dropoff: LamportTransfer {
            program: ctx.accounts.system_program,
            from: ctx.accounts.payer,
            to: ctx.accounts.recipient,
            lamports: message.gas_dropoff,
        },
        closure: CloseAccount {
            program: ctx.accounts.token_program,
            account: ctx.accounts.temporary_account,
            destination: ctx.accounts.payer,
            authority: signer,
        },
        stage: Stage::ModeResolved,
    };
    Ok(Execution { run })
}

/// Starts the completion of the transfer in `ctx` for the message with
/// digest `vaa_hash`.
///
/// Derives the address at which that message must be posted under the
/// messaging program, and the address of the peer record for the message's
/// emitter under this program, and goes on as [`begin_transfer`] does.
pub fn complete_transfer(ctx: &Context, vaa_hash: &[u8; 32]) -> (outcome: Result<
    Execution,
    TokenBridgeRelayerError,
>)
    ensures
        match outcome {
            Ok(execution) => transfer_start(
                *ctx,
                expected_message_key(*ctx, vaa_hash@),
                expected_peer_key(*ctx),
            ) == Ok::<Run, TokenBridgeRelayerError>(execution@),
            Err(e) => transfer_start(
                *ctx,
                expected_message_key(*ctx, vaa_hash@),
                expected_peer_key(*ctx),
            ) == Err::<Run, TokenBridgeRelayerError>(e),
        },
{
    let message_key = derive_message_key(ctx, vaa_hash);
    let peer_key = derive_peer_key(ctx);
    begin_transfer(ctx, message_key, peer_key)
}

} // verus!
