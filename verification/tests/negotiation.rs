//! Tests of the pre-shared-key negotiation: request shape, ciphertext
//! validation, and decapsulation against the real key-encapsulation
//! implementation.
//!
//! Generating a Classic McEliece key pair takes longer than this
//! harness allows a single test, so the decapsulation tests drive the
//! protocol through `PskNegotiation::from_keys` with explicit key
//! material instead of `begin_psk_exchange`.

use tunnel_negotiation::net::{IpAddress, Ipv4Address, Ipv6Address};
use tunnel_negotiation::params::{PrivateKey, PublicKey};
use tunnel_negotiation::tunnel_config::{
    algorithm_name, complete_psk_exchange, config_service_uri, Error, PskNegotiation,
    CONFIG_SERVICE_PORT, KEM_CIPHERTEXT_LEN, KEM_SECRET_KEY_LEN,
};

#[test]
fn config_service_port_is_fixed() {
    assert_eq!(CONFIG_SERVICE_PORT, 1337);
}

#[test]
fn service_uri_names_address_and_port() {
    let addr = IpAddress::V4(Ipv4Address { o0: 10, o1: 64, o2: 0, o3: 1 });
    assert_eq!(config_service_uri(&addr), "tcp://10.64.0.1:1337".to_string());
    let addr6 = IpAddress::V6(Ipv6Address {
        g0: 0xfc00,
        g1: 0,
        g2: 0,
        g3: 0,
        g4: 0,
        g5: 0,
        g6: 0,
        g7: 1,
    });
    assert_eq!(config_service_uri(&addr6), "tcp://fc00:0:0:0:0:0:0:1:1337".to_string());
}

#[test]
fn algorithm_name_is_the_mceliece_variant() {
    assert_eq!(algorithm_name(), "Classic-McEliece-8192128f".to_string());
}

#[test]
fn error_messages_are_fixed() {
    assert_eq!(
        Error::GrpcConnectError("refused".to_string()).message(),
        "Failed to connect to config service".to_string()
    );
    assert_eq!(
        Error::GrpcError("unavailable".to_string()).message(),
        "RPC failed: unavailable".to_string()
    );
    assert_eq!(
        Error::KeyGenerationFailed.message(),
        "Failed to generate KEM key pair".to_string()
    );
    assert_eq!(
        Error::DecapsulationError.message(),
        "Failed to decapsulate secret".to_string()
    );
    assert_eq!(
        Error::InvalidCiphertext.message(),
        "The service returned an invalid ciphertext".to_string()
    );
}

#[test]
fn request_carries_keys_and_algorithm_name() {
    let wg_pubkey = PublicKey { key: [11u8; 32] };
    let kem_public = vec![13u8; 64];
    let state = test_state();
    let request = state.request(&wg_pubkey, kem_public.clone());
    assert_eq!(request.wg_pubkey, wg_pubkey);
    assert_eq!(request.kem_pubkey.key_data, kem_public);
    assert_eq!(request.kem_pubkey.algorithm_name, "Classic-McEliece-8192128f".to_string());
    // the psk public key is the x25519 public key of the fresh private
    // key, not the private key itself
    let secret = x25519_dalek::StaticSecret::from([21u8; 32]);
    let expected = x25519_dalek::PublicKey::from(&secret);
    assert_eq!(&request.wg_psk_pubkey.key, expected.as_bytes());
    assert_ne!(request.wg_psk_pubkey.key, [21u8; 32]);
}

fn test_state() -> PskNegotiation {
    let kem_secret: Vec<u8> = (0..KEM_SECRET_KEY_LEN).map(|i| (i % 251) as u8).collect();
    PskNegotiation::from_keys(PrivateKey { key: [21u8; 32] }, kem_secret)
}

fn test_ciphertext() -> Vec<u8> {
    (0..KEM_CIPHERTEXT_LEN).map(|i| (i * 7 % 256) as u8).collect()
}

#[test]
fn wrong_length_ciphertext_is_rejected_without_decapsulation() {
    let short = vec![0u8; KEM_CIPHERTEXT_LEN - 1];
    assert!(matches!(
        complete_psk_exchange(test_state(), &short),
        Err(Error::InvalidCiphertext)
    ));
    let long = vec![0u8; KEM_CIPHERTEXT_LEN + 1];
    assert!(matches!(
        complete_psk_exchange(test_state(), &long),
        Err(Error::InvalidCiphertext)
    ));
    let empty = Vec::new();
    assert!(matches!(
        complete_psk_exchange(test_state(), &empty),
        Err(Error::InvalidCiphertext)
    ));
}

#[test]
fn valid_length_ciphertext_is_decapsulated() {
    let ciphertext = test_ciphertext();
    let (private_key, psk) =
        complete_psk_exchange(test_state(), &ciphertext).expect("valid length");
    // the fresh private key is handed back untouched
    assert_eq!(private_key, PrivateKey { key: [21u8; 32] });
    // the pre-shared key is a digest, not a copy of any input
    assert_ne!(&psk.key[..], &ciphertext[..32]);
    assert_ne!(psk.key, [21u8; 32]);
    assert_ne!(psk.key, [0u8; 32]);
}

#[test]
fn repeated_decapsulation_yields_the_same_key() {
    let ciphertext = test_ciphertext();
    let state = test_state();
    let (_, psk1) = complete_psk_exchange(state.clone(), &ciphertext).expect("valid length");
    let (_, psk2) = complete_psk_exchange(state, &ciphertext).expect("valid length");
    assert_eq!(psk1, psk2);
    // a different ciphertext yields a different key
    let mut other = test_ciphertext();
    other[0] ^= 0xff;
    let (_, psk3) = complete_psk_exchange(test_state(), &other).expect("valid length");
    assert_ne!(psk1, psk3);
}

#[test]
fn decapsulation_matches_the_algorithm_directly() {
    // the same secret key and ciphertext, decapsulated by the
    // implementation itself, must give the same pre-shared key
    let ciphertext = test_ciphertext();
    let (_, psk) = complete_psk_exchange(test_state(), &ciphertext).expect("valid length");

    let mut secret_buf = [0u8; 14120];
    for (i, byte) in secret_buf.iter_mut().enumerate() {
        *byte = (i % 251) as u8;
    }
    let secret_key = classic_mceliece_rust::SecretKey::from(&mut secret_buf);
    let ct_buf: [u8; 208] = ciphertext.as_slice().try_into().unwrap();
    let ct = classic_mceliece_rust::Ciphertext::from(ct_buf);
    let shared = classic_mceliece_rust::decapsulate_boxed(&ct, &secret_key);
    assert_eq!(&psk.key, shared.as_array());
}
