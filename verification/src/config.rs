//! The service's startup configuration.  Reading the process environment is
//! the runner's business; the values land here as plain fields, and the
//! numeric ones are parsed with the verified numeral parsers of this crate.

use vstd::prelude::*;

verus! {

/// Everything the faucet needs at startup.
#[derive(Clone, Debug)]
pub struct Config {
    /// The chain node's JSON-RPC endpoint.
    pub rpc_url: String,
    /// The chain the signatures are bound to.
    pub chain_id: u64,
    /// The funding account's private key, in hexadecimal.
    pub faucet_private_key: String,
    /// The fixed transfer amount, as a decimal string in the smallest unit.
    /// The service accepts amounts up to `u128::MAX` of those units.
    pub faucet_amount_wei: String,
    /// The address the HTTP endpoint listens on.
    pub bind_addr: String,
    /// The filesystem path of the durable claim ledger.
    pub state_path: String,
    /// The chat bot's token, if the chat channel is enabled.
    pub telegram_bot_token: Option<String>,
    /// Whether log output is structured.
    pub tracing_json: bool,
}

} // verus!
