//! A token-dispensing service for a blockchain test network: a funded
//! account transfers a fixed amount to any address that asks, at most once
//! per address.  This crate holds the verified core — address validation
//! and claim keys, the wire encoding, the transaction signer, and the
//! dispatch coordinator's state machine; a thin runner around it performs
//! the store, gate and node I/O that the machine asks for.

pub mod chat;
pub mod config;
pub mod crypto;
pub mod dispatch;
pub mod errors;
pub mod keys;
pub mod num;
pub mod rlp;
pub mod tx;
