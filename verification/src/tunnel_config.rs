//! Post-quantum pre-shared-key negotiation with a relay-side tunnel
//! configuration service.
//!
//! One negotiation is one request/response round trip: a fresh
//! WireGuard key pair and a fresh key-encapsulation key pair are
//! generated, one request carrying the public halves is sent to the
//! service, and the returned ciphertext is validated and decapsulated
//! into the pre-shared key. The transport round trip is performed by
//! the caller between `begin_psk_exchange` and `complete_psk_exchange`;
//! every failure aborts the attempt, and nothing survives to a retry.

use vstd::prelude::*;
use crate::net::{dec_text_u16, ip_text, IpAddress};
use crate::params::{PresharedKey, PrivateKey, PublicKey};

verus! {

/// Port used by the tunnel config service on the relay's
/// tunnel-internal address.
pub const CONFIG_SERVICE_PORT: u16 = 1337;

/// Length in bytes of a ciphertext of the negotiated algorithm.
pub const KEM_CIPHERTEXT_LEN: usize = 208;

/// Length in bytes of a public key of the negotiated algorithm.
pub const KEM_PUBLIC_KEY_LEN: usize = 1357824;

/// Length in bytes of a secret key of the negotiated algorithm.
pub const KEM_SECRET_KEY_LEN: usize = 14120;

/// A negotiation failure. Transport failures are distinct from
/// validation failures, so a caller can tell "relay unreachable" from
/// "relay refused negotiation" from "relay answered nonsense".
#[derive(Clone, PartialEq, Debug)]
pub enum Error {
    /// Failed to connect to the config service.
    GrpcConnectError(String),
    /// The service rejected the call; carries the reported status.
    GrpcError(String),
    /// Failed to generate a key-encapsulation key pair.
    KeyGenerationFailed,
    /// Failed to decapsulate the returned ciphertext.
    DecapsulationError,
    /// The service returned a ciphertext of the wrong length.
    InvalidCiphertext,
}

impl Error {
    /// A short description of the failure.
    pub fn message(&self) -> (r: String)
        ensures
            r@ == match *self {
                Error::GrpcConnectError(_) => "Failed to connect to config service"@,
                Error::GrpcError(status) => "RPC failed: "@ + status@,
                Error::KeyGenerationFailed => "Failed to generate KEM key pair"@,
                Error::DecapsulationError => "Failed to decapsulate secret"@,
                Error::InvalidCiphertext => "The service returned an invalid ciphertext"@,
            },
    {
        match self {
            Error::GrpcConnectError(_) => String::from_str("Failed to connect to config service"),
            Error::GrpcError(status) => {
                let r = String::from_str("RPC failed: ").concat(status.as_str());
                proof {
                    assert(r@ =~= "RPC failed: "@ + status@);
                }
                r
            },
            Error::KeyGenerationFailed => String::from_str("Failed to generate KEM key pair"),
            Error::DecapsulationError => String::from_str("Failed to decapsulate secret"),
            Error::InvalidCiphertext => String::from_str(
                "The service returned an invalid ciphertext",
            ),
        }
    }
}

/// The URI of the config service on a relay's tunnel-internal address:
/// "tcp://", the address text, ":" and the service port.
pub open spec fn service_uri_text(service_address: IpAddress) -> Seq<char> {
    "tcp://"@ + ip_text(service_address) + ":"@ + dec_text_u16(CONFIG_SERVICE_PORT)
}

/// Builds the URI under which the config service is reached on a
/// relay's tunnel-internal address.
pub fn config_service_uri(service_address: &IpAddress) -> (r: String)
    ensures
        r@ == service_uri_text(*service_address),
{
    let r = String::from_str("tcp://").concat(service_address.to_text().as_str());
    let r = r.concat(":");
    let r = crate::net::append_port_text(r, CONFIG_SERVICE_PORT);
    proof {
        assert(r@ =~= service_uri_text(*service_address));
    }
    r
}

/// The name of the key-encapsulation algorithm, as sent to the service.
pub fn algorithm_name() -> (r: String)
    ensures
        r@ == "Classic-McEliece-8192128f"@,
{
    String::from_str("Classic-McEliece-8192128f")
}

/// A key-encapsulation public key with the name of its algorithm.
#[derive(Clone, PartialEq, Debug)]
pub struct KemPubkey {
    pub algorithm_name: String,
    pub key_data: Vec<u8>,
}

/// The one request of a negotiation: the fresh WireGuard public key,
/// the fresh pre-shared-key public key, and the key-encapsulation
/// public key under which the service must encapsulate.
#[derive(Clone, PartialEq, Debug)]
pub struct PskRequest {
    pub wg_pubkey: PublicKey,
    pub wg_psk_pubkey: PublicKey,
    pub kem_pubkey: KemPubkey,
}

/// The public key that belongs to an x25519 private key.
pub uninterp spec fn x25519_public_key(private: [u8; 32]) -> [u8; 32];

/// Relies on x25519_dalek::StaticSecret::random_from_rng: a fresh
/// WireGuard private key drawn from the operating system's randomness.
#[verifier::external_body]
fn wg_new_private_key() -> (r: PrivateKey) {
    let secret = x25519_dalek::StaticSecret::random_from_rng(rand::rngs::OsRng);
    PrivateKey { key: secret.to_bytes() }
}

/// Relies on x25519_dalek::PublicKey::from(&StaticSecret): the public
/// key is base-point multiplication by the clamped private key, a
/// deterministic function of the private key bytes alone.
#[verifier::external_body]
fn wg_public_key(private: &PrivateKey) -> (r: PublicKey)
    ensures
        r.key == x25519_public_key(private.key),
{
    let secret = x25519_dalek::StaticSecret::from(private.key);
    PublicKey { key: *x25519_dalek::PublicKey::from(&secret).as_bytes() }
}

/// What decapsulation yields: the shared secret determined by a secret
/// key and a ciphertext.
pub uninterp spec fn kem_shared_secret(secret: Seq<u8>, ciphertext: Seq<u8>) -> Seq<u8>;

/// Relies on classic_mceliece_rust::keypair_boxed (variant
/// mceliece8192128f): a fresh key-encapsulation key pair drawn from the
/// process randomness, with the documented key lengths.
#[verifier::external_body]
fn kem_generate_keypair() -> (r: (Vec<u8>, Vec<u8>))
    ensures
        r.0@.len() == KEM_PUBLIC_KEY_LEN,
        r.1@.len() == KEM_SECRET_KEY_LEN,
{
    let mut rng = rand::thread_rng();
    let (public, secret) = classic_mceliece_rust::keypair_boxed(&mut rng);
    (public.as_array().to_vec(), secret.as_array().to_vec())
}

/// Relies on classic_mceliece_rust::decapsulate_boxed: the shared
/// secret is a deterministic function of the secret key and the
/// ciphertext alone, 32 bytes long; this variant rejects a mismatched
/// ciphertext implicitly, so the call itself never fails.
#[verifier::external_body]
fn kem_decapsulate(secret: &Vec<u8>, ciphertext: &Vec<u8>) -> (r: PresharedKey)
    requires
        secret@.len() == KEM_SECRET_KEY_LEN,
        ciphertext@.len() == KEM_CIPHERTEXT_LEN,
    ensures
        r.key@ == kem_shared_secret(secret@, ciphertext@),
{
    let mut secret_buf: [u8; 14120] = secret.as_slice().try_into().expect("secret key length");
    let secret_key = classic_mceliece_rust::SecretKey::from(&mut secret_buf);
    let ciphertext_buf: [u8; 208] = ciphertext.as_slice().try_into().expect("ciphertext length");
    let ciphertext = classic_mceliece_rust::Ciphertext::from(ciphertext_buf);
    let shared = classic_mceliece_rust::decapsulate_boxed(&ciphertext, &secret_key);
    PresharedKey { key: *shared.as_array() }
}

/// The secret half of one negotiation: the fresh WireGuard private key
/// and the key-encapsulation secret key. Both are used exactly once,
/// by `complete_psk_exchange`, and never leave this module.
pub struct PskNegotiation {
    wg_psk_privkey: PrivateKey,
    kem_secret: Vec<u8>,
}

impl PskNegotiation {
    /// The fresh WireGuard private key of this negotiation.
    pub closed spec fn psk_private_key(&self) -> PrivateKey {
        self.wg_psk_privkey
    }

    /// The key-encapsulation secret key of this negotiation.
    pub closed spec fn kem_secret_view(&self) -> Seq<u8> {
        self.kem_secret@
    }

    #[verifier::type_invariant]
    spec fn wf(self) -> bool {
        self.kem_secret@.len() == KEM_SECRET_KEY_LEN
    }

    /// Assembles a negotiation from explicit key material. The
    /// key-encapsulation primitive is a narrow capability — generate a
    /// key pair, decapsulate — so key material from another
    /// implementation of the same algorithm can drive the same
    /// protocol steps.
    pub fn from_keys(wg_psk_privkey: PrivateKey, kem_secret: Vec<u8>) -> (r: Self)
        requires
            kem_secret@.len() == KEM_SECRET_KEY_LEN,
        ensures
            r.psk_private_key() == wg_psk_privkey,
            r.kem_secret_view() == kem_secret@,
    {
        PskNegotiation { wg_psk_privkey, kem_secret }
    }

    /// Builds the one request this negotiation sends: the caller's
    /// WireGuard public key, the public key belonging to the fresh
    /// pre-shared-key private key, and the key-encapsulation public
    /// key under the algorithm's name.
    pub fn request(&self, wg_pubkey: &PublicKey, kem_public: Vec<u8>) -> (r: PskRequest)
        ensures
            r.wg_pubkey == *wg_pubkey,
            r.wg_psk_pubkey.key == x25519_public_key(self.psk_private_key().key),
            r.kem_pubkey.algorithm_name@ == "Classic-McEliece-8192128f"@,
            r.kem_pubkey.key_data == kem_public,
    {
        PskRequest {
            wg_pubkey: *wg_pubkey,
            wg_psk_pubkey: wg_public_key(&self.wg_psk_privkey),
            kem_pubkey: KemPubkey { algorithm_name: algorithm_name(), key_data: kem_public },
        }
    }
}

impl Clone for PskNegotiation {
    fn clone(&self) -> (r: Self)
        ensures
            r.psk_private_key() == self.psk_private_key(),
            r.kem_secret_view() == self.kem_secret_view(),
    {
        proof {
            use_type_invariant(self);
        }
        PskNegotiation {
            wg_psk_privkey: self.wg_psk_privkey,
            kem_secret: self.kem_secret.clone(),
        }
    }
}

/// Starts one negotiation: generates a fresh WireGuard key pair (the
/// new key replaces the tunnel's identity; the old key is never
/// reused) and a fresh key-encapsulation key pair, and builds the one
/// request of the exchange. The secret halves stay in the returned
/// state; nothing is cached across negotiations, so every retry starts
/// from here.
pub fn begin_psk_exchange(wg_pubkey: &PublicKey) -> (r: (PskNegotiation, PskRequest))
    ensures
        r.1.wg_pubkey == *wg_pubkey,
        r.1.wg_psk_pubkey.key == x25519_public_key(r.0.psk_private_key().key),
        r.1.kem_pubkey.algorithm_name@ == "Classic-McEliece-8192128f"@,
        r.1.kem_pubkey.key_data@.len() == KEM_PUBLIC_KEY_LEN,
        r.0.kem_secret_view().len() == KEM_SECRET_KEY_LEN,
{
    let wg_psk_privkey = wg_new_private_key();
    let (kem_public, kem_secret) = kem_generate_keypair();
    let state = PskNegotiation { wg_psk_privkey, kem_secret };
    let request = state.request(wg_pubkey, kem_public);
    (state, request)
}

/// Completes one negotiation with the ciphertext the service returned:
/// the ciphertext must have exactly the algorithm's fixed length, and
/// is rejected as `InvalidCiphertext` otherwise, in which case nothing
/// is decapsulated — the decapsulation wrapper cannot be reached
/// without the length check. On success the fresh WireGuard private
/// key and the decapsulated pre-shared key are returned, and the
/// negotiation's secrets are consumed.
pub fn complete_psk_exchange(state: PskNegotiation, ciphertext: &Vec<u8>) -> (r: Result<
    (PrivateKey, PresharedKey),
    Error,
>)
    ensures
        r is Err <==> ciphertext@.len() != KEM_CIPHERTEXT_LEN,
        r matches Err(e) ==> e matches Error::InvalidCiphertext,
        r matches Ok(keys) ==> keys.0 == state.psk_private_key() && keys.1.key@
            == kem_shared_secret(state.kem_secret_view(), ciphertext@),
{
    proof {
        use_type_invariant(&state);
    }
    if ciphertext.len() != KEM_CIPHERTEXT_LEN {
        return Err(Error::InvalidCiphertext);
    }
    let psk = kem_decapsulate(&state.kem_secret, ciphertext);
    Ok((state.wg_psk_privkey, psk))
}

/// Law: decapsulation is deterministic. Repeating it with the same
/// secret key and the same ciphertext yields the same pre-shared key,
/// so a negotiation's outcome is a function of the key material and
/// the service's one response.
pub proof fn lemma_decapsulation_deterministic(
    secret: Seq<u8>,
    ciphertext: Seq<u8>,
    key1: Seq<u8>,
    key2: Seq<u8>,
)
    requires
        key1 == kem_shared_secret(secret, ciphertext),
        key2 == kem_shared_secret(secret, ciphertext),
    ensures
        key1 == key2,
{
}

} // verus!
