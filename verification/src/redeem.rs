//! The calls that a completion asks of its collaborators.
//!
//! Nothing here talks to the ledger. Each function says which call is to be
//! made, on which accounts and under which authority; making the call is
//! the caller's part.

use crate::accounts::Context;
use crate::address::{seeds_view, Address};
use vstd::prelude::*;

verus! {

/// Seed of the relayer's configuration address: the text `redeemer`.
pub open spec fn redeemer_seed_prefix() -> Seq<u8> {
    seq![114u8, 101u8, 100u8, 101u8, 101u8, 109u8, 101u8, 114u8]
}

/// An address that this program controls, with the bump seed that proves
/// it: the program signs for the address by naming the seeds from which the
/// ledger derives it.
#[derive(Clone, Copy, Debug, PartialEq, Eq)]
pub struct Authority {
    pub address: Address,
    pub bump: u8,
}

impl Authority {
    /// The seeds that derive the address: the fixed seed, then the bump.
    pub open spec fn seeds(self) -> Seq<Seq<u8>> {
        seq![redeemer_seed_prefix(), seq![self.bump]]
    }

    /// The seeds to sign with, as the ledger takes them.
    pub fn signer_seeds(&self) -> (seeds: Vec<Vec<u8>>)
        ensures
            seeds_view(seeds@) == self.seeds(),
    {
        let prefix: Vec<u8> = vec![114u8, 101u8, 100u8, 101u8, 101u8, 109u8, 101u8, 114u8];
        let bump: Vec<u8> = vec![self.bump];
        let mut seeds: Vec<Vec<u8>> = Vec::new();
        seeds.push(prefix);
        seeds.push(bump);
        proof {
            assert(prefix@ =~= redeemer_seed_prefix());
            assert(bump@ =~= seq![self.bump]);
            assert(seeds_view(seeds@) =~= self.seeds());
        }
        seeds
    }
}

/// The relayer's configuration as the authority of a completion.
pub open spec fn redeemer_of(ctx: Context) -> Authority {
    Authority { address: ctx.accounts.tbr_config, bump: ctx.bumps.tbr_config }
}

/// The relayer's configuration as the authority of a completion.
pub fn redeemer(ctx: &Context) -> (authority: Authority)
    ensures
        authority == redeemer_of(*ctx),
{
    Authority { address: ctx.accounts.tbr_config, bump: ctx.bumps.tbr_config }
}

/// Accounts of the token bridge's redemption of a native asset.
#[derive(Clone, Copy, Debug, PartialEq, Eq)]
pub struct CompleteTransferNativeWithPayload {
    pub payer: Address,
    pub config: Address,
    pub vaa: Address,
    pub claim: Address,
    pub foreign_endpoint: Address,
    /// The token account that receives the released tokens.
    pub to: Address,
    pub redeemer: Address,
    pub custody: Address,
    pub mint: Address,
    pub custody_signer: Address,
    pub rent: Address,
    pub system_program: Address,
    pub token_program: Address,
    pub wormhole_program: Address,
}

/// Accounts of the token bridge's redemption of a wrapped asset.
#[derive(Clone, Copy, Debug, PartialEq, Eq)]
pub struct CompleteTransferWrappedWithPayload {
    pub payer: Address,
    pub config: Address,
    pub vaa: Address,
    pub claim: Address,
    pub foreign_endpoint: Address,
    /// The token account that receives the minted tokens.
    pub to: Address,
    pub redeemer: Address,
    pub wrapped_mint: Address,
    pub wrapped_metadata: Address,
    pub mint_authority: Address,
    pub rent: Address,
    pub system_program: Address,
    pub token_program: Address,
    pub wormhole_program: Address,
}

/// A redemption of a native asset: the program to call, its accounts, and
/// the authority that signs.
#[derive(Clone, Copy, Debug, PartialEq, Eq)]
pub struct NativeRedemption {
    pub program: Address,
    pub accounts: CompleteTransferNativeWithPayload,
    pub signer: Authority,
}

/// A redemption of a wrapped asset: the program to call, its accounts, and
/// the authority that signs.
#[derive(Clone, Copy, Debug, PartialEq, Eq)]
pub struct WrappedRedemption {
    pub program: Address,
    pub accounts: CompleteTransferWrappedWithPayload,
    pub signer: Authority,
}

/// One of the two redemptions. A completion asks for exactly one.
#[derive(Clone, Copy, Debug, PartialEq, Eq)]
pub enum Redemption {
    Native(NativeRedemption),
    Wrapped(WrappedRedemption),
}

/// A transfer of native currency by the system program.
#[derive(Clone, Copy, Debug, PartialEq, Eq)]
pub struct LamportTransfer {
    pub program: Address,
    pub from: Address,
    pub to: Address,
    pub lamports: u64,
}

/// The closing of a token account by the token program; what the account
/// held in rent goes to `destination`.
#[derive(Clone, Copy, Debug, PartialEq, Eq)]
pub struct CloseAccount {
    pub program: Address,
    pub account: Address,
    pub destination: Address,
    pub authority: Authority,
}

/// A call that a completion asks its caller to make.
#[derive(Clone, Copy, Debug, PartialEq, Eq)]
pub enum Action {
    Redeem(Redemption),
    Transfer(LamportTransfer),
    Close(CloseAccount),
}

/// The native redemption for `ctx`: the released tokens go to the temporary
/// account, under the authority `signer`.
pub open spec fn native_redemption(ctx: Context, signer: Authority) -> NativeRedemption
    recommends
        ctx.accounts.token_bridge_custody is Some,
        ctx.accounts.token_bridge_custody_signer is Some,
{
    let accounts = ctx.accounts;
    NativeRedemption {
        program: accounts.token_bridge_program,
        accounts: CompleteTransferNativeWithPayload {
            payer: accounts.payer,
            config: accounts.token_bridge_config,
            vaa: accounts.vaa.key,
            claim: accounts.token_bridge_claim.key,
            foreign_endpoint: accounts.token_bridge_foreign_endpoint,
            to: accounts.temporary_account,
            redeemer: accounts.tbr_config,
            custody: accounts.token_bridge_custody->0,
            mint: accounts.mint.key,
            custody_signer: accounts.token_bridge_custody_signer->0,
            rent: accounts.rent,
            system_program: accounts.system_program,
            token_program: accounts.token_program,
            wormhole_program: accounts.wormhole_program,
        },
        signer,
    }
}

/// The wrapped redemption for `ctx`: the minted tokens go straight to the
/// recipient's token account, under the authority `signer`.
pub open spec fn wrapped_redemption(ctx: Context, signer: Authority) -> WrappedRedemption
    recommends
        ctx.accounts.token_bridge_wrapped_meta is Some,
        ctx.accounts.token_bridge_mint_authority is Some,
{
    let accounts = ctx.accounts;
    WrappedRedemption {
        program: accounts.token_bridge_program,
        accounts: CompleteTransferWrappedWithPayload {
            payer: accounts.payer,
            config: accounts.token_bridge_config,
            vaa: accounts.vaa.key,
            claim: accounts.token_bridge_claim.key,
            foreign_endpoint: accounts.token_bridge_foreign_endpoint,
            to: accounts.recipient_token_account,
            redeemer: accounts.tbr_config,
            wrapped_mint: accounts.mint.key,
            wrapped_metadata: accounts.token_bridge_wrapped_meta->0,
            mint_authority: accounts.token_bridge_mint_authority->0,
            rent: accounts.rent,
            system_program: accounts.system_program,
            token_program: accounts.token_program,
            wormhole_program: accounts.wormhole_program,
        },
        signer,
    }
}

/// The redemption for `ctx` in the given mode.
pub open spec fn redemption_of(ctx: Context, native: bool) -> Redemption {
    if native {
        Redemption::Native(native_redemption(ctx, redeemer_of(ctx)))
    } else {
        Redemption::Wrapped(wrapped_redemption(ctx, redeemer_of(ctx)))
    }
}

/// The transfer of `lamports` from the payer to the recipient.
pub open spec fn gas_dropoff_of(ctx: Context, lamports: u64) -> LamportTransfer {
    LamportTransfer {
        program: ctx.accounts.system_program,
        from: ctx.accounts.payer,
        to: ctx.accounts.recipient,
        lamports,
    }
}

/// The closing of the temporary account, with its rent going back to the
/// payer, under the relayer's configuration.
pub open spec fn custody_closure_of(ctx: Context) -> CloseAccount {
    CloseAccount {
        program: ctx.accounts.token_program,
        account: ctx.accounts.temporary_account,
        destination: ctx.accounts.payer,
        authority: redeemer_of(ctx),
    }
}

/// Prepares the redemption of a native asset. The tokens that the bridge
/// releases go to the temporary account, never straight to the recipient.
///
/// The custody account and the custody signer must be present.
pub fn token_bridge_complete_native(ctx: &Context, signer: &Authority) -> (call: NativeRedemption)
    requires
        ctx.accounts.token_bridge_custody is Some,
        ctx.accounts.token_bridge_custody_signer is Some,
    ensures
        call == native_redemption(*ctx, *signer),
        call.accounts.to == ctx.accounts.temporary_account,
        call.accounts.redeemer == ctx.accounts.tbr_config,
{
    let accounts = &ctx.accounts;
    let token_bridge_custody = accounts.token_bridge_custody.unwrap();
    let token_bridge_custody_signer = accounts.token_bridge_custody_signer.unwrap();
    NativeRedemption {
        program: accounts.token_bridge_program,
        accounts: CompleteTransferNativeWithPayload {
            payer: accounts.payer,
            config: accounts.token_bridge_config,
            vaa: accounts.vaa.key,
            claim: accounts.token_bridge_claim.key,
            foreign_endpoint: accounts.token_bridge_foreign_endpoint,
            to: accounts.temporary_account,
            redeemer: accounts.tbr_config,
            custody: token_bridge_custody,
            mint: accounts.mint.key,
            custody_signer: token_bridge_custody_signer,
            rent: accounts.rent,
            system_program: accounts.system_program,
            token_program: accounts.token_program,
            wormhole_program: accounts.wormhole_program,
        },
        signer: *signer,
    }
}

/// Prepares the redemption of a wrapped asset. The tokens that the bridge
/// mints go straight to the recipient's token account.
///
/// The mint authority and the wrapped metadata must be present.
pub fn token_bridge_complete_wrapped(ctx: &Context, signer: &Authority) -> (call:
    WrappedRedemption)
    requires
        ctx.accounts.token_bridge_wrapped_meta is Some,
        ctx.accounts.token_bridge_mint_authority is Some,
    ensures
        call == wrapped_redemption(*ctx, *signer),
        call.accounts.to == ctx.accounts.recipient_token_account,
        call.accounts.redeemer == ctx.accounts.tbr_config,
{
    let accounts = &ctx.accounts;
    let token_bridge_wrapped_meta = accounts.token_bridge_wrapped_meta.unwrap();
    let token_bridge_mint_authority = accounts.token_bridge_mint_authority.unwrap();
    WrappedRedemption {
        program: accounts.token_bridge_program,
        accounts: CompleteTransferWrappedWithPayload {
            payer: accounts.payer,
            config: accounts.token_bridge_config,
            vaa: accounts.vaa.key,
            claim: accounts.token_bridge_claim.key,
            foreign_endpoint: accounts.token_bridge_foreign_endpoint,
            to: accounts.recipient_token_account,
            redeemer: accounts.tbr_config,
            wrapped_mint: accounts.mint.key,
            wrapped_metadata: token_bridge_wrapped_meta,
            mint_authority: token_bridge_mint_authority,
            rent: accounts.rent,
            system_program: accounts.system_program,
            token_program: accounts.token_program,
            wormhole_program: accounts.wormhole_program,
        },
        signer: *signer,
    }
}

} // verus!
