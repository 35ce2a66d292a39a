//! The error taxonomy of the faucet: every stage of a dispatch reports its
//! failure as one of these variants, so callers can distinguish a malformed
//! request, a repeated claim, and the several infrastructure failures.

use vstd::prelude::*;

verus! {

/// Why a dispatch (or the construction of the service) failed.
///
/// `TransportError` and `RpcError` carry the message reported by the remote
/// node or the transport layer; the other variants are fully local.
#[derive(Debug, Clone)]
pub enum FaucetError {
    /// The destination string is not a well-formed chain address.
    InvalidAddress,
    /// The destination address has already been served.
    AlreadyClaimed,
    /// The chain node could not be reached (timeout, connection failure).
    TransportError(String),
    /// The chain node answered with a protocol-level error.
    RpcError(String),
    /// The durable claim ledger failed to read or write.
    StoreError,
    /// The signing backend rejected the prepared digest.
    SigningFailed,
    /// The configured transfer amount is not a valid decimal integer.
    InvalidAmount,
    /// The configured funding key is not a valid private key.
    InvalidKey,
}

/// The text that `FaucetError::message` returns for each variant.
pub open spec fn error_text(e: FaucetError) -> Seq<char> {
    match e {
        FaucetError::InvalidAddress => "invalid address"@,
        FaucetError::AlreadyClaimed => "already_sent"@,
        FaucetError::TransportError(m) => "transport error: "@ + m@,
        FaucetError::RpcError(m) => "rpc error: "@ + m@,
        FaucetError::StoreError => "store error"@,
        FaucetError::SigningFailed => "signing failed"@,
        FaucetError::InvalidAmount => "invalid amount"@,
        FaucetError::InvalidKey => "invalid private key"@,
    }
}

/// The HTTP status that the ingress endpoint answers with for each failure:
/// a malformed address is the caller's fault, a repeated claim is a
/// conflict, and everything else is the service's failure.
pub open spec fn http_status_of(e: FaucetError) -> u16 {
    match e {
        FaucetError::InvalidAddress => 400,
        FaucetError::AlreadyClaimed => 409,
        _ => 500,
    }
}

impl FaucetError {
    /// The HTTP status code this failure is reported with.
    pub fn http_status(&self) -> (r: u16)
        ensures
            r == http_status_of(*self),
    {
        match self {
            FaucetError::InvalidAddress => 400,
            FaucetError::AlreadyClaimed => 409,
            _ => 500,
        }
    }

    /// A human-readable description of the failure.
    pub fn message(&self) -> (r: String)
        ensures
            r@ == error_text(*self),
    {
        match self {
            FaucetError::InvalidAddress => String::from_str("invalid address"),
            FaucetError::AlreadyClaimed => String::from_str("already_sent"),
            FaucetError::TransportError(m) => String::from_str("transport error: ").concat(
                m.as_str(),
            ),
            FaucetError::RpcError(m) => String::from_str("rpc error: ").concat(m.as_str()),
            FaucetError::StoreError => String::from_str("store error"),
            FaucetError::SigningFailed => String::from_str("signing failed"),
            FaucetError::InvalidAmount => String::from_str("invalid amount"),
            FaucetError::InvalidKey => String::from_str("invalid private key"),
        }
    }
}

} // verus!
