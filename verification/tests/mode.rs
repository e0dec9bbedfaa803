use token_bridge_relayer::accounts::{
    ClaimAccount, CompleteTransfer, CompleteTransferBumps, Context, MintAccount,
    PostedRelayerMessage, PostedVaaMeta, TransferHeader,
};
use token_bridge_relayer::address::Address;
use token_bridge_relayer::error::TokenBridgeRelayerError;
use token_bridge_relayer::message::RelayerMessage;
use token_bridge_relayer::mode::{check_native, is_native};

fn key(n: u8) -> Address {
    Address::new([n; 32])
}

fn present(flag: bool, n: u8) -> Option<Address> {
    if flag {
        Some(key(n))
    } else {
        None
    }
}

/// A context with the given optional accounts present and the given mint
/// authority; the mode reads nothing else.
fn shaped(
    mint_authority: bool,
    wrapped_meta: bool,
    custody: bool,
    custody_signer: bool,
    mint_has_authority: bool,
) -> Context {
    Context {
        program_id: key(200),
        accounts: CompleteTransfer {
            payer: key(1),
            tbr_config: key(2),
            mint: MintAccount { key: key(3), mint_authority: present(mint_has_authority, 13) },
            recipient_token_account: key(4),
            recipient: key(5),
            vaa: PostedRelayerMessage {
                key: key(6),
                meta: PostedVaaMeta { emitter_chain: 2, emitter_address: key(33) },
                transfer: TransferHeader {
                    amount: 10,
                    token_address: key(3),
                    token_chain: 1,
                    to_address: key(200),
                    to_chain: 1,
                    from_address: key(34),
                },
                message: RelayerMessage::V0 {
                    gas_dropoff_amount: 0,
                    recipient: key(5),
                    unwrap_intent: true,
                },
            },
            temporary_account: key(7),
            peer: key(8),
            token_bridge_config: key(9),
            token_bridge_claim: ClaimAccount { key: key(10), data_is_empty: true },
            token_bridge_foreign_endpoint: key(11),
            token_bridge_custody: present(custody, 21),
            token_bridge_custody_signer: present(custody_signer, 22),
            token_bridge_mint_authority: present(mint_authority, 23),
            token_bridge_wrapped_meta: present(wrapped_meta, 24),
            system_program: key(15),
            token_program: key(16),
            wormhole_program: key(17),
            token_bridge_program: key(18),
            rent: key(19),
        },
        bumps: CompleteTransferBumps { tbr_config: 254 },
    }
}

const WRONG: Result<bool, TokenBridgeRelayerError> =
    Err(TokenBridgeRelayerError::WronglySetOptionalAccounts);

#[test]
fn native_shape_with_native_mint_is_native() {
    assert_eq!(is_native(&shaped(false, false, true, true, false)), Ok(true));
}

#[test]
fn wrapped_shape_with_wrapped_mint_is_wrapped() {
    assert_eq!(is_native(&shaped(true, true, false, false, true)), Ok(false));
}

#[test]
fn native_shape_with_wrapped_mint_is_refused() {
    assert_eq!(is_native(&shaped(false, false, true, true, true)), WRONG);
}

#[test]
fn wrapped_shape_with_native_mint_is_refused() {
    assert_eq!(is_native(&shaped(true, true, false, false, false)), WRONG);
}

#[test]
fn every_other_shape_is_refused() {
    for bits in 0u8..16 {
        let mint_authority = bits & 1 != 0;
        let wrapped_meta = bits & 2 != 0;
        let custody = bits & 4 != 0;
        let custody_signer = bits & 8 != 0;
        let native_shape = bits == 0b1100;
        let wrapped_shape = bits == 0b0011;
        for mint_has_authority in [false, true] {
            let ctx =
                shaped(mint_authority, wrapped_meta, custody, custody_signer, mint_has_authority);
            let expected = if native_shape && !mint_has_authority {
                Ok(true)
            } else if wrapped_shape && mint_has_authority {
                Ok(false)
            } else {
                WRONG
            };
            assert_eq!(is_native(&ctx), expected, "shape {:04b}", bits);
        }
    }
}

#[test]
fn neither_group_is_refused() {
    assert_eq!(is_native(&shaped(false, false, false, false, false)), WRONG);
    assert_eq!(is_native(&shaped(false, false, false, false, true)), WRONG);
}

#[test]
fn both_groups_are_refused() {
    assert_eq!(is_native(&shaped(true, true, true, true, false)), WRONG);
    assert_eq!(is_native(&shaped(true, true, true, true, true)), WRONG);
}

#[test]
fn partial_group_is_refused() {
    assert_eq!(is_native(&shaped(false, false, true, false, false)), WRONG);
    assert_eq!(is_native(&shaped(false, false, false, true, false)), WRONG);
    assert_eq!(is_native(&shaped(true, false, false, false, true)), WRONG);
    assert_eq!(is_native(&shaped(false, true, false, false, true)), WRONG);
    assert_eq!(is_native(&shaped(true, false, true, true, false)), WRONG);
}

#[test]
fn check_native_compares_with_the_mint() {
    assert_eq!(check_native(&None, true), Ok(true));
    assert_eq!(check_native(&Some(key(13)), false), Ok(false));
    assert_eq!(check_native(&None, false), WRONG);
    assert_eq!(check_native(&Some(key(13)), true), WRONG);
}
