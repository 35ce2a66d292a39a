use alloy_consensus::{SignableTransaction, TxLegacy};
use alloy_primitives::{Address, Bytes, TxKind, U256};
use alloy_signer::SignerSync;
use alloy_signer_local::PrivateKeySigner;
use celo_faucet::crypto::keccak256_bytes;
use celo_faucet::errors::FaucetError;
use celo_faucet::keys::{address_hex, claim_key, parse_address, user_key};
use celo_faucet::tx::TxBuilder;

// A well-known development key, safe to embed in tests.
const TEST_KEY: &str = "ac0974bec39a17e36ba4a6b4d238ff944bacb478cbed5efcae784d7bf4f2ff80";

#[test]
fn builder_rejects_bad_key() {
    assert!(matches!(TxBuilder::new("not a key", 1), Err(FaucetError::InvalidKey)));
    assert!(matches!(TxBuilder::new("0x1234", 1), Err(FaucetError::InvalidKey)));
}

#[test]
fn builder_derives_expected_address() {
    let builder = TxBuilder::new(TEST_KEY, 42220).unwrap();
    let ours = builder.faucet_address();
    let signer: PrivateKeySigner = TEST_KEY.parse().unwrap();
    assert_eq!(ours.as_slice(), signer.address().as_slice());
}

#[test]
fn signing_is_deterministic() {
    let builder = TxBuilder::new(TEST_KEY, 42220).unwrap();
    let to = parse_address("0x1111111111111111111111111111111111111111").unwrap();
    let first = builder
        .build_and_sign(&to, 1_000_000_000_000_000_000, 5, 20_000_000_000, 21000)
        .unwrap();
    let second = builder
        .build_and_sign(&to, 1_000_000_000_000_000_000, 5, 20_000_000_000, 21000)
        .unwrap();
    assert_eq!(first, second);
}

#[test]
fn signed_encoding_matches_reference_implementation() {
    let chain_id: u64 = 42220;
    let nonce: u64 = 5;
    let gas_price: u128 = 20_000_000_000;
    let gas_limit: u64 = 21000;
    let value: u128 = 1_000_000_000_000_000_000;
    let to_str = "0x1111111111111111111111111111111111111111";

    let builder = TxBuilder::new(TEST_KEY, chain_id).unwrap();
    let to = parse_address(to_str).unwrap();
    let ours = builder.build_and_sign(&to, value, nonce, gas_price, gas_limit).unwrap();

    let to_addr: Address = to_str.parse().unwrap();
    let tx = TxLegacy {
        chain_id: Some(chain_id),
        nonce,
        gas_price,
        gas_limit,
        to: TxKind::Call(to_addr),
        value: U256::from(value),
        input: Bytes::new(),
    };
    let signer: PrivateKeySigner = TEST_KEY.parse().unwrap();
    let sig = signer.sign_hash_sync(&tx.signature_hash()).unwrap();
    let signed = tx.into_signed(sig);
    let mut buf: Vec<u8> = Vec::new();
    signed.rlp_encode(&mut buf);
    let expected = format!("0x{}", hex::encode(&buf));

    assert_eq!(ours, expected);
}

#[test]
fn keccak_wrapper_computes_real_digest() {
    let empty: Vec<u8> = Vec::new();
    let digest = keccak256_bytes(empty.as_slice());
    assert_eq!(
        hex::encode(&digest),
        "c5d2460186f7233c927e7db2dcc703c0e500b653ca82273b7bfad8045d85a470"
    );
    let data: Vec<u8> = b"abc".to_vec();
    let digest = keccak256_bytes(data.as_slice());
    assert_eq!(
        hex::encode(&digest),
        "4e03657aea45a94fc7d47ba826c8d667c0d1e6e33a64a036ec44f58fa12d6c45"
    );
}

#[test]
fn parse_address_accepts_both_forms() {
    let with_prefix = parse_address("0x1111111111111111111111111111111111111111").unwrap();
    let bare = parse_address("1111111111111111111111111111111111111111").unwrap();
    assert_eq!(with_prefix, bare);
    assert_eq!(with_prefix, vec![0x11; 20]);
}

#[test]
fn parse_address_rejects_malformed() {
    assert!(matches!(parse_address("xyz"), Err(FaucetError::InvalidAddress)));
    assert!(matches!(parse_address(""), Err(FaucetError::InvalidAddress)));
    assert!(matches!(
        parse_address("0x11111111111111111111111111111111111111"),
        Err(FaucetError::InvalidAddress)
    ));
    assert!(matches!(
        parse_address("0xgg11111111111111111111111111111111111111"),
        Err(FaucetError::InvalidAddress)
    ));
    assert!(matches!(
        parse_address("0X1111111111111111111111111111111111111111"),
        Err(FaucetError::InvalidAddress)
    ));
}

#[test]
fn claim_keys_ignore_casing() {
    let upper = parse_address("0xABCDEF0123456789ABCDEF0123456789ABCDEF01").unwrap();
    let lower = parse_address("0xabcdef0123456789abcdef0123456789abcdef01").unwrap();
    assert_eq!(upper, lower);
    assert_eq!(claim_key(&upper), claim_key(&lower));
    assert_eq!(
        claim_key(&upper).as_str(),
        "addr:0xabcdef0123456789abcdef0123456789abcdef01"
    );
}

#[test]
fn address_hex_renders_lowercase() {
    let addr = parse_address("0xABCDEF0123456789ABCDEF0123456789ABCDEF01").unwrap();
    assert_eq!(address_hex(&addr).as_str(), "0xabcdef0123456789abcdef0123456789abcdef01");
}

#[test]
fn user_keys_render_identities() {
    assert_eq!(user_key(0).as_str(), "tg:0");
    assert_eq!(user_key(12345).as_str(), "tg:12345");
    assert_eq!(user_key(-5).as_str(), "tg:-5");
    assert_eq!(user_key(i64::MIN).as_str(), "tg:-9223372036854775808");
}

#[test]
fn error_status_codes() {
    assert_eq!(FaucetError::InvalidAddress.http_status(), 400);
    assert_eq!(FaucetError::AlreadyClaimed.http_status(), 409);
    assert_eq!(FaucetError::StoreError.http_status(), 500);
    assert_eq!(FaucetError::TransportError(String::from("timeout")).http_status(), 500);
    assert_eq!(FaucetError::SigningFailed.http_status(), 500);
}

#[test]
fn error_messages() {
    assert_eq!(FaucetError::AlreadyClaimed.message().as_str(), "already_sent");
    assert_eq!(FaucetError::InvalidAddress.message().as_str(), "invalid address");
    assert_eq!(
        FaucetError::RpcError(String::from("nonce too low")).message().as_str(),
        "rpc error: nonce too low"
    );
    assert_eq!(
        FaucetError::TransportError(String::from("timeout")).message().as_str(),
        "transport error: timeout"
    );
}
