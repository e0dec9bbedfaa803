//! What holds of every completion, proved from the definitions that the
//! contracts of this crate are stated in.

use crate::accounts::{ClaimAccount, CompleteTransfer, Context};
use crate::address::address_is_its_bytes;
use crate::error::TokenBridgeRelayerError;
use crate::message::{denormalized, recipient_of};
use crate::mode::{mint_is_native, mode_resolution};
use crate::redeem::{Action, Redemption};
use crate::transfer::{transfer_start, Run, Stage};
use crate::validate::{context_check, CHAIN_ID_SOLANA};
use vstd::prelude::*;

verus! {

/// `ctx` as a second submission finds it once the message has been
/// redeemed: the same accounts, with a claim record that holds data.
pub open spec fn resubmitted(ctx: Context) -> Context {
    Context {
        accounts: CompleteTransfer {
            token_bridge_claim: ClaimAccount {
                data_is_empty: false,
                ..ctx.accounts.token_bridge_claim
            },
            ..ctx.accounts
        },
        ..ctx
    }
}

/// A transfer is completed once. Where a completion of `ctx` starts, a
/// second submission of the same accounts after the redemption is refused
/// as already redeemed, before any call is asked for.
pub proof fn replay_is_refused(
    ctx: Context,
    message_key: Option<Seq<u8>>,
    peer_key: Option<Seq<u8>>,
)
    requires
        transfer_start(ctx, message_key, peer_key) is Ok,
    ensures
        transfer_start(resubmitted(ctx), message_key, peer_key) == Err::<
            Run,
            TokenBridgeRelayerError,
        >(TokenBridgeRelayerError::AlreadyRedeemed),
{
}

/// A claim record that holds data never lets a completion start, whatever
/// else the accounts hold.
pub proof fn claimed_message_never_starts(
    ctx: Context,
    message_key: Option<Seq<u8>>,
    peer_key: Option<Seq<u8>>,
)
    requires
        !ctx.accounts.token_bridge_claim.data_is_empty,
    ensures
        transfer_start(ctx, message_key, peer_key) is Err,
{
}

/// The mode is resolved exactly where the optional accounts and the mint
/// agree: native where the custody account and the custody signer alone are
/// present and the mint has no authority, wrapped where the mint authority
/// and the wrapped metadata alone are present and the mint has an
/// authority. Every other choice of accounts, a partial one too, and every
/// disagreement with the mint is refused as wrongly set optional accounts.
pub proof fn mode_agreement(accounts: CompleteTransfer)
    ensures
        ({
            let native_shape = accounts.token_bridge_custody is Some
                && accounts.token_bridge_custody_signer is Some
                && accounts.token_bridge_mint_authority is None
                && accounts.token_bridge_wrapped_meta is None;
            let wrapped_shape = accounts.token_bridge_custody is None
                && accounts.token_bridge_custody_signer is None
                && accounts.token_bridge_mint_authority is Some
                && accounts.token_bridge_wrapped_meta is Some;
            let native_mint = accounts.mint.mint_authority is None;
            let refused = Err::<bool, TokenBridgeRelayerError>(
                TokenBridgeRelayerError::WronglySetOptionalAccounts,
            );
            &&& native_shape && native_mint ==> mode_resolution(accounts) == Ok::<
                bool,
                TokenBridgeRelayerError,
            >(true)
            &&& wrapped_shape && !native_mint ==> mode_resolution(accounts) == Ok::<
                bool,
                TokenBridgeRelayerError,
            >(false)
            &&& native_shape && !native_mint ==> mode_resolution(accounts) == refused
            &&& wrapped_shape && native_mint ==> mode_resolution(accounts) == refused
            &&& !native_shape && !wrapped_shape ==> mode_resolution(accounts) == refused
        }),
        mint_is_native(accounts.mint.mint_authority) == (accounts.mint.mint_authority is None),
{
}

/// Successes change the stage of a completion and nothing else, and keep
/// it well formed.
pub proof fn calls_are_fixed_at_the_start(run: Run, successes: nat)
    requires
        run.wf(),
    ensures
        run.after(successes).wf(),
        run.after(successes).redemption == run.redemption,
        run.after(successes).gas_dropoff == run.gas_dropoff,
        run.after(successes).closure == run.closure,
    decreases successes,
{
    if successes > 0 {
        calls_are_fixed_at_the_start(run.advanced(), (successes - 1) as nat);
    }
}

/// Three successes complete any completion, and a complete one stays so.
pub proof fn three_successes_complete(run: Run, successes: nat)
    requires
        successes >= 3,
    ensures
        run.after(successes).stage == Stage::Complete,
    decreases successes,
{
    reveal_with_fuel(Run::after, 4);
    if successes > 3 {
        three_successes_complete(run.advanced(), (successes - 1) as nat);
    }
}

/// Where the redeemed tokens go. A native redemption pays into the
/// temporary account, a wrapped one straight into the recipient's token
/// account, and the mode decides which of the two is asked for. Either way
/// the completion is complete only once the temporary account has been
/// closed, with its rent returned to the payer, as the last call made.
pub proof fn redeemed_tokens_are_routed_by_mode(
    ctx: Context,
    message_key: Option<Seq<u8>>,
    peer_key: Option<Seq<u8>>,
)
    requires
        transfer_start(ctx, message_key, peer_key) is Ok,
    ensures
        ({
            let run = transfer_start(ctx, message_key, peer_key)->Ok_0;
            let done = run.after(3);
            &&& match run.redemption {
                Redemption::Native(call) => {
                    &&& mode_resolution(ctx.accounts) == Ok::<bool, TokenBridgeRelayerError>(true)
                    &&& call.accounts.to == ctx.accounts.temporary_account
                    &&& Some(call.accounts.custody) == ctx.accounts.token_bridge_custody
                },
                Redemption::Wrapped(call) => {
                    &&& mode_resolution(ctx.accounts) == Ok::<bool, TokenBridgeRelayerError>(false)
                    &&& call.accounts.to == ctx.accounts.recipient_token_account
                    &&& Some(call.accounts.wrapped_mint) == Some(ctx.accounts.mint.key)
                },
            }
            &&& run.closure.account == ctx.accounts.temporary_account
            &&& run.closure.destination == ctx.accounts.payer
            &&& run.closure.authority.address == ctx.accounts.tbr_config
            &&& done.stage == Stage::Complete
            &&& done.performed().first() == Action::Redeem(run.redemption)
            &&& done.performed().last() == Action::Close(run.closure)
        }),
{
    let run = transfer_start(ctx, message_key, peer_key)->Ok_0;
    three_successes_complete(run, 3);
    calls_are_fixed_at_the_start(run, 3);
}

/// The gas dropoff is scaled once: at every point of a completion, a
/// transfer of native currency is asked for only where the message carries
/// a gas dropoff, and then it moves a thousand lamports for each unit on
/// the wire from the payer to the recipient. A message that carries none
/// never leads to a transfer, not even to one of nothing.
pub proof fn gas_dropoff_is_denormalized(
    ctx: Context,
    message_key: Option<Seq<u8>>,
    peer_key: Option<Seq<u8>>,
    successes: nat,
)
    requires
        transfer_start(ctx, message_key, peer_key) is Ok,
    ensures
        ({
            let run = transfer_start(ctx, message_key, peer_key)->Ok_0.after(successes);
            let wire_amount = ctx.accounts.vaa.message->gas_dropoff_amount;
            &&& run.gas_dropoff.lamports == denormalized(wire_amount)
            &&& run.gas_dropoff.lamports == wire_amount * 1000
            &&& run.pending() matches Some(Action::Transfer(transfer)) ==> {
                &&& wire_amount > 0
                &&& transfer.lamports == wire_amount * 1000
                &&& transfer.from == ctx.accounts.payer
                &&& transfer.to == ctx.accounts.recipient
            }
            &&& wire_amount == 0 ==> !(run.pending() matches Some(Action::Transfer(_)))
            &&& wire_amount == 0 ==> forall|transfer|
                !run.performed().contains(Action::Transfer(transfer))
        }),
{
    let start = transfer_start(ctx, message_key, peer_key)->Ok_0;
    calls_are_fixed_at_the_start(start, successes);
}

/// The recipient is bound to the message. A recipient account other than
/// the one that the message names never lets a completion start; where the
/// checks that come before pass, the refusal is that of an invalid
/// recipient.
pub proof fn recipient_binding(
    ctx: Context,
    message_key: Option<Seq<u8>>,
    peer_key: Option<Seq<u8>>,
)
    requires
        ctx.accounts.recipient != recipient_of(ctx.accounts.vaa.message),
    ensures
        transfer_start(ctx, message_key, peer_key) is Err,
        message_key == Some(ctx.accounts.vaa.key@) && ctx.accounts.vaa.transfer.to_address@
            == ctx.program_id@ && ctx.accounts.vaa.transfer.to_chain == CHAIN_ID_SOLANA
            && ctx.accounts.token_bridge_claim.data_is_empty ==> transfer_start(
            ctx,
            message_key,
            peer_key,
        ) == Err::<Run, TokenBridgeRelayerError>(TokenBridgeRelayerError::InvalidRecipient),
{
    let named = recipient_of(ctx.accounts.vaa.message);
    if ctx.accounts.recipient@ == named@ {
        address_is_its_bytes(ctx.accounts.recipient, named);
    }
}

/// Only registered peers are heard. Where the peer account handed in is
/// not the peer record of the message's emitter, or the emitter has no
/// derivable record at all, no completion starts, so no redemption is ever
/// asked for; where the checks that come before pass, the refusal is that
/// of a peer key mismatch.
pub proof fn peer_authentication(
    ctx: Context,
    message_key: Option<Seq<u8>>,
    peer_key: Option<Seq<u8>>,
)
    requires
        peer_key != Some(ctx.accounts.peer@),
    ensures
        transfer_start(ctx, message_key, peer_key) is Err,
        context_check(ctx, message_key, Some(ctx.accounts.peer@)) is Ok ==> transfer_start(
            ctx,
            message_key,
            peer_key,
        ) == Err::<Run, TokenBridgeRelayerError>(TokenBridgeRelayerError::PeerKeyMismatch),
{
}

/// The first failure ends a completion. Whatever call fails, the
/// completion ends with the collaborator's error as it was given and asks
/// for nothing more; the temporary account's closing in particular is
/// never asked for after a failed gas dropoff, and has not been made
/// before it.
pub proof fn failure_ends_the_completion<E>(run: Run, error: E)
    requires
        run.wf(),
    ensures
        run.step(Err::<(), E>(error)) == Err::<Run, E>(error),
        run.stage != Stage::Complete ==> !run.performed().contains(Action::Close(run.closure)),
        run.pending() matches Some(Action::Transfer(_)) ==> run.performed() == seq![
            Action::Redeem(run.redemption),
        ],
{
}

/// A completion does all of its calls or reports a failure: it is complete
/// exactly where nothing is pending, and then the calls made are the
/// redemption, the gas dropoff where the message carries one, and the
/// closing of the temporary account, in that order.
pub proof fn complete_means_every_call_made(run: Run)
    requires
        run.wf(),
    ensures
        run.stage == Stage::Complete <==> run.pending() is None,
        run.stage == Stage::Complete ==> run.performed() == if run.gas_dropoff.lamports > 0 {
            seq![
                Action::Redeem(run.redemption),
                Action::Transfer(run.gas_dropoff),
                Action::Close(run.closure),
            ]
        } else {
            seq![Action::Redeem(run.redemption), Action::Close(run.closure)]
        },
{
    if run.stage == Stage::Complete {
        if run.gas_dropoff.lamports > 0 {
            assert(run.performed() =~= seq![
                Action::Redeem(run.redemption),
                Action::Transfer(run.gas_dropoff),
                Action::Close(run.closure),
            ]);
        } else {
            assert(run.performed() =~= seq![
                Action::Redeem(run.redemption),
                Action::Close(run.closure),
            ]);
        }
    }
}

} // verus!
