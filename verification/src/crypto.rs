//! The cryptographic primitives of the signer, taken from the ECDSA and
//! Keccak implementations that the chain ecosystem uses.  Each is
//! deterministic in its arguments, so its result is given a name that the
//! contracts of the transaction builder speak of.

use vstd::prelude::*;
use alloy_signer::SignerSync;
use alloy_signer_local::PrivateKeySigner;

verus! {

/// The Keccak-256 digest of a byte string.
pub uninterp spec fn keccak_of(data: Seq<u8>) -> Seq<u8>;

/// Whether a hexadecimal string is a well-formed secp256k1 private key.
pub uninterp spec fn key_ok(key: Seq<char>) -> bool;

/// The account address derived from a private key.
pub uninterp spec fn addr_of_key(key: Seq<char>) -> Seq<u8>;

/// The recoverable ECDSA signature (32 bytes `r`, 32 bytes `s`, one parity
/// byte) that the key yields for a 32-byte digest.  The signing scheme
/// derives its nonce deterministically, so this is a function of the key and
/// the digest alone.
pub uninterp spec fn ecdsa_sig_of(key: Seq<char>, digest: Seq<u8>) -> Seq<u8>;

/// Whether the signing backend accepts the key and digest.  Signing is
/// deterministic, so its success, like its value, is a function of the key
/// and the digest alone.
pub uninterp spec fn sign_ok(key: Seq<char>, digest: Seq<u8>) -> bool;

/// Relies on `alloy_primitives::keccak256`: the Keccak-256 digest, 32 bytes,
/// a function of the input alone.
#[verifier::external_body]
pub fn keccak256_bytes(data: &[u8]) -> (r: Vec<u8>)
    ensures
        r@ == keccak_of(data@),
        r@.len() == 32,
{
    alloy_primitives::keccak256(data).to_vec()
}

/// Relies on `str::parse::<PrivateKeySigner>` (hex decoding plus scalar
/// validation, deterministic) and `LocalSigner::address` (the address
/// derived from the key's public point, 20 bytes).
#[verifier::external_body]
pub fn derive_address(key: &str) -> (r: Option<Vec<u8>>)
    ensures
        r is Some <==> key_ok(key@),
        r matches Some(a) ==> a@ == addr_of_key(key@) && a@.len() == 20,
{
    match key.parse::<PrivateKeySigner>() {
        Ok(signer) => Some(signer.address().to_vec()),
        Err(_) => None,
    }
}

/// Relies on `str::parse::<PrivateKeySigner>` (as above) and
/// `SignerSync::sign_hash_sync`, which signs the 32-byte digest with a
/// deterministically derived nonce; `as_rsy` lays the result out as
/// `r || s || parity` with the parity byte 0 or 1.  Both failure paths —
/// the parse and the signing itself — are deterministic in the arguments,
/// so success is `key_ok` together with `sign_ok`.
#[verifier::external_body]
pub fn sign_digest(key: &str, digest: &[u8]) -> (r: Option<Vec<u8>>)
    requires
        digest@.len() == 32,
    ensures
        r is Some <==> (key_ok(key@) && sign_ok(key@, digest@)),
        r matches Some(sig) ==> sig@ == ecdsa_sig_of(key@, digest@) && sig@.len() == 65
            && (sig@[64] == 0 || sig@[64] == 1),
{
    let signer: PrivateKeySigner = match key.parse() {
        Ok(s) => s,
        Err(_) => return None,
    };
    let hash = alloy_primitives::B256::from_slice(digest);
    match signer.sign_hash_sync(&hash) {
        Ok(sig) => Some(sig.as_rsy().to_vec()),
        Err(_) => None,
    }
}

} // verus!
