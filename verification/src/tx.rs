//! The transaction signer: builds a legacy-format transfer from its six
//! inputs, signs it with the funding key under the configured chain's
//! replay protection, and serializes it to the exact wire bytes the node
//! expects.  The encoding is a length-prefixed list of nine fields: nonce,
//! gas price, gas limit, destination, value, input data (empty here), and
//! the three signature components.

use vstd::prelude::*;
use crate::crypto::{addr_of_key, derive_address, ecdsa_sig_of, keccak256_bytes, keccak_of, key_ok,
    sign_digest, sign_ok};
use crate::errors::FaucetError;
use crate::num::hex_chars_of_bytes;
use crate::rlp::{lemma_be_min_len, pow256, rlp_append_bytes, rlp_append_uint, rlp_list,
    rlp_str, rlp_uint, rlp_wrap_list, trim_leading_zeros, trim_zeros};

verus! {

/// The concatenated encodings of the six body fields of a legacy transfer,
/// in their canonical order.
pub open spec fn legacy_fields(
    nonce: nat,
    gas_price: nat,
    gas_limit: nat,
    to: Seq<u8>,
    value: nat,
) -> Seq<u8> {
    rlp_uint(nonce) + rlp_uint(gas_price) + rlp_uint(gas_limit) + rlp_str(to) + rlp_uint(value)
        + rlp_str(Seq::<u8>::empty())
}

/// The unsigned pre-image of a legacy transfer under replay protection: the
/// six body fields followed by the chain id and two empty placeholders,
/// wrapped as a list.
pub open spec fn unsigned_tx_bytes(
    key_chain: nat,
    nonce: nat,
    gas_price: nat,
    gas_limit: nat,
    to: Seq<u8>,
    value: nat,
) -> Seq<u8> {
    rlp_list(
        legacy_fields(nonce, gas_price, gas_limit, to, value) + rlp_uint(key_chain) + rlp_uint(0)
            + rlp_uint(0),
    )
}

/// The digest a legacy transfer is signed over.
pub open spec fn tx_sighash(
    chain_id: nat,
    nonce: nat,
    gas_price: nat,
    gas_limit: nat,
    to: Seq<u8>,
    value: nat,
) -> Seq<u8> {
    keccak_of(unsigned_tx_bytes(chain_id, nonce, gas_price, gas_limit, to, value))
}

/// Whether the signing backend accepts the transfer's digest under `key`:
/// a function of the key, the chain, and the transfer inputs alone, so a
/// dispatch's success does not vary between identical calls.
pub open spec fn tx_sign_ok(
    key: Seq<char>,
    chain_id: nat,
    nonce: nat,
    gas_price: nat,
    gas_limit: nat,
    to: Seq<u8>,
    value: nat,
) -> bool {
    sign_ok(key, tx_sighash(chain_id, nonce, gas_price, gas_limit, to, value))
}

/// The recoverable signature of a legacy transfer under `key`.
pub open spec fn tx_signature(
    key: Seq<char>,
    chain_id: nat,
    nonce: nat,
    gas_price: nat,
    gas_limit: nat,
    to: Seq<u8>,
    value: nat,
) -> Seq<u8> {
    ecdsa_sig_of(key, tx_sighash(chain_id, nonce, gas_price, gas_limit, to, value))
}

/// The wire bytes of the signed transfer: the six body fields followed by
/// the replay-protected recovery indicator and the minimal `r` and `s`
/// components, wrapped as a list.
pub open spec fn signed_tx_bytes(
    key: Seq<char>,
    chain_id: nat,
    nonce: nat,
    gas_price: nat,
    gas_limit: nat,
    to: Seq<u8>,
    value: nat,
) -> Seq<u8> {
    let sig = tx_signature(key, chain_id, nonce, gas_price, gas_limit, to, value);
    let v = 2 * chain_id + 35 + sig[64];
    rlp_list(
        legacy_fields(nonce, gas_price, gas_limit, to, value) + rlp_uint(v as nat) + rlp_str(
            trim_zeros(sig.subrange(0, 32)),
        ) + rlp_str(trim_zeros(sig.subrange(32, 64))),
    )
}

/// The signed transfer as the node's protocol carries it: its wire bytes in
/// `0x`-prefixed lower-case hexadecimal.
pub open spec fn raw_tx_chars(
    key: Seq<char>,
    chain_id: nat,
    nonce: nat,
    gas_price: nat,
    gas_limit: nat,
    to: Seq<u8>,
    value: nat,
) -> Seq<char> {
    "0x"@ + hex_chars_of_bytes(
        signed_tx_bytes(key, chain_id, nonce, gas_price, gas_limit, to, value),
    )
}

/// Signing is deterministic: the raw transaction is a function of the key,
/// the chain, and the six transfer inputs alone, so signing the same tuple
/// twice yields byte-identical output.
pub proof fn lemma_signing_deterministic(
    key: Seq<char>,
    chain_id: nat,
    nonce: nat,
    gas_price: nat,
    gas_limit: nat,
    to: Seq<u8>,
    value: nat,
    r1: Seq<char>,
    r2: Seq<char>,
)
    requires
        r1 == raw_tx_chars(key, chain_id, nonce, gas_price, gas_limit, to, value),
        r2 == raw_tx_chars(key, chain_id, nonce, gas_price, gas_limit, to, value),
    ensures
        r1 == r2,
{
}

/// The funding identity: the validated private key, its derived address,
/// and the chain the signatures are bound to.
pub struct TxBuilder {
    key: String,
    addr: Vec<u8>,
    chain_id: u64,
}

impl TxBuilder {
    /// The key parses, and the cached address is the one it derives.  Every
    /// `TxBuilder` satisfies this: the constructor establishes it and
    /// nothing mutates the fields.
    #[verifier::type_invariant]
    spec fn wf(self) -> bool {
        key_ok(self.key@) && self.addr@ == addr_of_key(self.key@) && self.addr@.len() == 20
    }

    /// The private key this builder signs with.
    pub closed spec fn spec_key(self) -> Seq<char> {
        self.key@
    }

    /// The chain id this builder binds its signatures to.
    pub closed spec fn spec_chain_id(self) -> u64 {
        self.chain_id
    }

    /// Validates the funding key and derives its address.  Succeeds exactly
    /// when the key is well formed.
    pub fn new(private_key: &str, chain_id: u64) -> (r: Result<TxBuilder, FaucetError>)
        ensures
            r is Ok <==> key_ok(private_key@),
            r matches Ok(b) ==> b.spec_chain_id() == chain_id && b.spec_key() == private_key@,
            r matches Err(e) ==> e is InvalidKey,
    {
        match derive_address(private_key) {
            Some(addr) => Ok(TxBuilder { key: String::from_str(private_key), addr, chain_id }),
            None => Err(FaucetError::InvalidKey),
        }
    }

    /// The twenty bytes of the funding account's address.
    pub fn faucet_address(&self) -> (r: Vec<u8>)
        ensures
            r@ == addr_of_key(self.spec_key()),
            r@.len() == 20,
    {
        proof {
            use_type_invariant(&*self);
        }
        let mut out: Vec<u8> = Vec::new();
        let mut i: usize = 0;
        while i < self.addr.len()
            invariant
                i <= self.addr@.len(),
                out@ =~= self.addr@.take(i as int),
            decreases self.addr@.len() - i,
        {
            out.push(self.addr[i]);
            proof {
                assert(out@ =~= self.addr@.take(i as int + 1));
            }
            i = i + 1;
        }
        proof {
            assert(self.addr@.take(self.addr@.len() as int) =~= self.addr@);
        }
        out
    }

    /// Builds, signs and serializes the transfer of `value` to `to` with the
    /// given nonce and gas parameters.  It succeeds exactly when the signing
    /// backend accepts the transfer's digest — a deterministic condition of
    /// the inputs, so two identical calls return the same outcome — and on
    /// success the result is exactly the canonical signed encoding of those
    /// inputs under this identity.
    pub fn build_and_sign(
        &self,
        to: &Vec<u8>,
        value: u128,
        nonce: u64,
        gas_price: u128,
        gas_limit: u64,
    ) -> (r: Result<String, FaucetError>)
        requires
            to@.len() == 20,
        ensures
            r is Ok <==> tx_sign_ok(
                self.spec_key(),
                self.spec_chain_id() as nat,
                nonce as nat,
                gas_price as nat,
                gas_limit as nat,
                to@,
                value as nat,
            ),
            r matches Ok(raw) ==> raw@ == raw_tx_chars(
                self.spec_key(),
                self.spec_chain_id() as nat,
                nonce as nat,
                gas_price as nat,
                gas_limit as nat,
                to@,
                value as nat,
            ),
            r matches Err(e) ==> e is SigningFailed,
    {
        proof {
            use_type_invariant(&*self);
        }
        let ghost gf = legacy_fields(
            nonce as nat,
            gas_price as nat,
            gas_limit as nat,
            to@,
            value as nat,
        );
        let mut unsigned_payload: Vec<u8> = Vec::new();
        append_common_fields(&mut unsigned_payload, to, value, nonce, gas_price, gas_limit);
        rlp_append_uint(&mut unsigned_payload, self.chain_id as u128);
        rlp_append_uint(&mut unsigned_payload, 0);
        rlp_append_uint(&mut unsigned_payload, 0);
        proof {
            assert(unsigned_payload@ =~= gf + rlp_uint(self.chain_id as nat) + rlp_uint(0)
                + rlp_uint(0));
            lemma_field_lengths(
                nonce as nat,
                gas_price as nat,
                gas_limit as nat,
                to@,
                value as nat,
            );
            lemma_rlp_uint_len(self.chain_id as nat);
            lemma_rlp_uint_len(0);
        }
        let unsigned_tx = rlp_wrap_list(&unsigned_payload);
        let digest = keccak256_bytes(unsigned_tx.as_slice());
        proof {
            assert(digest@ == tx_sighash(
                self.spec_chain_id() as nat,
                nonce as nat,
                gas_price as nat,
                gas_limit as nat,
                to@,
                value as nat,
            ));
        }
        let sig = match sign_digest(self.key.as_str(), digest.as_slice()) {
            Some(s) => s,
            None => {
                return Err(FaucetError::SigningFailed);
            },
        };
        let ghost sig_spec = tx_signature(
            self.spec_key(),
            self.spec_chain_id() as nat,
            nonce as nat,
            gas_price as nat,
            gas_limit as nat,
            to@,
            value as nat,
        );
        proof {
            assert(sig@ == sig_spec);
        }
        let parity: u8 = sig[64];
        let v: u128 = (self.chain_id as u128) * 2 + 35 + parity as u128;
        let r_part = sub_bytes(&sig, 0, 32);
        let s_part = sub_bytes(&sig, 32, 64);
        let r_min = trim_leading_zeros(r_part.as_slice());
        let s_min = trim_leading_zeros(s_part.as_slice());
        let mut payload: Vec<u8> = Vec::new();
        append_common_fields(&mut payload, to, value, nonce, gas_price, gas_limit);
        rlp_append_uint(&mut payload, v);
        rlp_append_bytes(&mut payload, r_min.as_slice());
        rlp_append_bytes(&mut payload, s_min.as_slice());
        proof {
            assert(v as nat == 2 * (self.spec_chain_id() as nat) + 35 + sig_spec[64]);
            assert(payload@ =~= gf + rlp_uint(v as nat) + rlp_str(trim_zeros(sig_spec.subrange(0, 32)))
                + rlp_str(trim_zeros(sig_spec.subrange(32, 64))));
            lemma_field_lengths(
                nonce as nat,
                gas_price as nat,
                gas_limit as nat,
                to@,
                value as nat,
            );
            lemma_rlp_uint_len(v as nat);
        }
        let signed_tx = rlp_wrap_list(&payload);
        let mut out = String::from_str("0x");
        crate::num::push_hex_bytes(&mut out, &signed_tx);
        Ok(out)
    }
}

/// Appends the six body fields of the transfer to `buf`.
fn append_common_fields(
    buf: &mut Vec<u8>,
    to: &Vec<u8>,
    value: u128,
    nonce: u64,
    gas_price: u128,
    gas_limit: u64,
)
    requires
        to@.len() == 20,
    ensures
        final (buf)@ == old(buf)@ + legacy_fields(
            nonce as nat,
            gas_price as nat,
            gas_limit as nat,
            to@,
            value as nat,
        ),
{
    rlp_append_uint(buf, nonce as u128);
    rlp_append_uint(buf, gas_price);
    rlp_append_uint(buf, gas_limit as u128);
    rlp_append_bytes(buf, to.as_slice());
    rlp_append_uint(buf, value);
    let empty: Vec<u8> = Vec::new();
    rlp_append_bytes(buf, empty.as_slice());
    proof {
        assert(empty@ =~= Seq::<u8>::empty());
        assert(buf@ =~= old(buf)@ + legacy_fields(
            nonce as nat,
            gas_price as nat,
            gas_limit as nat,
            to@,
            value as nat,
        ));
    }
}

/// Every encoded quantity of a transfer is at most 17 bytes.
proof fn lemma_rlp_uint_len(n: nat)
    requires
        n <= u128::MAX,
    ensures
        rlp_uint(n).len() <= 17,
{
    assert((u128::MAX as nat) < pow256(16)) by {
        reveal_with_fuel(pow256, 17);
    }
    lemma_be_min_len(n, 16);
}

/// The six body fields together stay far below a list's short-form bound.
proof fn lemma_field_lengths(
    nonce: nat,
    gas_price: nat,
    gas_limit: nat,
    to: Seq<u8>,
    value: nat,
)
    requires
        nonce <= u128::MAX,
        gas_price <= u128::MAX,
        gas_limit <= u128::MAX,
        value <= u128::MAX,
        to.len() == 20,
    ensures
        legacy_fields(nonce, gas_price, gas_limit, to, value).len() <= 90,
{
    lemma_rlp_uint_len(nonce);
    lemma_rlp_uint_len(gas_price);
    lemma_rlp_uint_len(gas_limit);
    lemma_rlp_uint_len(value);
}

/// Copies `v[a..b]` out as a fresh vector.
fn sub_bytes(v: &Vec<u8>, a: usize, b: usize) -> (r: Vec<u8>)
    requires
        a <= b <= v@.len(),
    ensures
        r@ == v@.subrange(a as int, b as int),
{
    let mut out: Vec<u8> = Vec::new();
    let mut i: usize = a;
    while i < b
        invariant
            a <= i <= b <= v@.len(),
            out@ =~= v@.subrange(a as int, i as int),
        decreases b - i,
    {
        out.push(v[i]);
        proof {
            assert(out@ =~= v@.subrange(a as int, i as int + 1));
        }
        i = i + 1;
    }
    out
}

} // verus!
