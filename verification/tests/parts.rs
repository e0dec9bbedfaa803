use anchor_lang::prelude::Pubkey;
use token_bridge_relayer::address::{bytes_to_vec, Address};
use token_bridge_relayer::message::{
    decode, denormalize_gas_dropoff, DecodedMessage, RelayerMessage, GAS_DROPOFF_SCALE,
};
use token_bridge_relayer::redeem::Authority;
use token_bridge_relayer::validate::{message_seed_list, peer_seed_list};

#[test]
fn addresses_compare_by_their_bytes() {
    let a = Address::new([1u8; 32]);
    let b = Address::new([1u8; 32]);
    let mut bytes = [1u8; 32];
    bytes[0] = 2;
    let c = Address::new(bytes);
    let mut bytes = [1u8; 32];
    bytes[31] = 2;
    let d = Address::new(bytes);
    assert!(a == b);
    assert!(a != c);
    assert!(a != d);
    assert!(c != d);
}

#[test]
fn address_to_vec_keeps_the_bytes() {
    let mut bytes = [0u8; 32];
    for (i, byte) in bytes.iter_mut().enumerate() {
        *byte = i as u8;
    }
    let address = Address::new(bytes);
    assert_eq!(address.bytes, bytes);
    assert_eq!(address.to_vec(), bytes.to_vec());
    assert_eq!(bytes_to_vec(&bytes), bytes.to_vec());
}

#[test]
fn wire_five_is_five_thousand() {
    assert_eq!(denormalize_gas_dropoff(5), 5000);
}

#[test]
fn wire_zero_is_zero() {
    assert_eq!(denormalize_gas_dropoff(0), 0);
}

#[test]
fn wire_one_is_the_scale() {
    assert_eq!(denormalize_gas_dropoff(1), GAS_DROPOFF_SCALE);
    assert_eq!(GAS_DROPOFF_SCALE, 1000);
}

#[test]
fn largest_wire_amount_fits() {
    assert_eq!(denormalize_gas_dropoff(u32::MAX), 4_294_967_295_000u64);
}

#[test]
fn decode_scales_the_gas_dropoff_once() {
    let message = RelayerMessage::V0 {
        gas_dropoff_amount: 5,
        recipient: Address::new([9u8; 32]),
        unwrap_intent: true,
    };
    assert_eq!(
        decode(&message),
        DecodedMessage {
            gas_dropoff: 5000,
            recipient: Address::new([9u8; 32]),
            unwrap_intent: true
        }
    );
}

#[test]
fn decode_keeps_unwrap_intent() {
    for unwrap_intent in [false, true] {
        let message = RelayerMessage::V0 {
            gas_dropoff_amount: 0,
            recipient: Address::new([1u8; 32]),
            unwrap_intent,
        };
        let decoded = decode(&message);
        assert_eq!(decoded.unwrap_intent, unwrap_intent);
        assert_eq!(decoded.gas_dropoff, 0);
        assert_eq!(decoded.recipient, Address::new([1u8; 32]));
    }
}

#[test]
fn message_seeds_are_prefix_and_digest() {
    let digest = [3u8; 32];
    let seeds = message_seed_list(&digest);
    assert_eq!(seeds, vec![b"PostedVAA".to_vec(), digest.to_vec()]);
    assert_eq!(seeds[0], wormhole_anchor_sdk::wormhole::SEED_PREFIX_POSTED_VAA.to_vec());
}

#[test]
fn peer_seeds_are_prefix_chain_and_emitter() {
    let emitter = Address::new([4u8; 32]);
    let seeds = peer_seed_list(0x1234, &emitter);
    assert_eq!(seeds, vec![b"peer".to_vec(), vec![0x12, 0x34], vec![4u8; 32]]);
    let seeds = peer_seed_list(1, &emitter);
    assert_eq!(seeds[1], 1u16.to_be_bytes().to_vec());
    let seeds = peer_seed_list(u16::MAX, &emitter);
    assert_eq!(seeds[1], vec![0xff, 0xff]);
    let seeds = peer_seed_list(256, &emitter);
    assert_eq!(seeds[1], vec![1, 0]);
}

#[test]
fn signer_seeds_are_redeemer_and_bump() {
    let authority = Authority { address: Address::new([2u8; 32]), bump: 253 };
    let seeds = authority.signer_seeds();
    assert_eq!(seeds, vec![b"redeemer".to_vec(), vec![253u8]]);
    assert_eq!(seeds[0], wormhole_anchor_sdk::token_bridge::SEED_PREFIX_REDEEMER.to_vec());
}

#[test]
fn signer_seeds_derive_the_redeemer_address() {
    let program = Pubkey::new_from_array([200u8; 32]);
    let (key, bump) = Pubkey::find_program_address(&[b"redeemer"], &program);
    let authority = Authority { address: Address::new(key.to_bytes()), bump };
    let seeds = authority.signer_seeds();
    let slices: Vec<&[u8]> = seeds.iter().map(|seed| seed.as_slice()).collect();
    let derived = Pubkey::create_program_address(&slices, &program).expect("valid seeds");
    assert_eq!(derived.to_bytes(), authority.address.bytes);
}
