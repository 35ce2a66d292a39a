//! The dispatch coordinator: one state machine per request, driving a
//! dispatch from address validation through the claim check, the send gate,
//! parameter fetching, signing, broadcast and claim recording.  The machine
//! decides; the runner around it performs the store reads, the send gate, and the
//! node calls, and hands the outcome of each back as an event.
//!
//! Every step that touches the account's nonce sequence — fetching
//! parameters, signing, broadcasting — happens only while the machine is in
//! a gate-holding state, and the machine asks for the send gate's release on
//! every path out of those states, so a runner that obeys the actions
//! serializes the nonce-dependent section across concurrent requests.

use vstd::prelude::*;
use crate::crypto::{addr_of_key, key_ok};
use crate::errors::FaucetError;
use crate::keys::{addr_bytes_of, addr_claim_key, addr_hex_chars, address_hex, claim_key,
    parse_address, valid_address};
use crate::num::{dec_val, parse_dec_u128, quantity_hex, quantity_hex_chars};
use crate::tx::{raw_tx_chars, tx_sign_ok, TxBuilder};

verus! {

use vstd::string::StringSliceAdditionalSpecFns;

/// The gas limit a transfer falls back to when estimation fails.
pub const DEFAULT_GAS_LIMIT: u64 = 21000;

/// Where a dispatch stands.  `to` is always the destination's twenty bytes.
pub enum DispatchState {
    /// The claim ledger is being consulted.
    CheckingClaim { to: Vec<u8> },
    /// The request is waiting for the send gate.
    AwaitingGate { to: Vec<u8> },
    /// Holding the send gate; nonce and gas parameters are being fetched.
    FetchingParams { to: Vec<u8> },
    /// Holding the send gate; the transfer is ready to be signed.
    Signing { to: Vec<u8>, nonce: u64, gas_price: u128, gas_limit: u64 },
    /// Holding the send gate; the signed transfer is being broadcast.
    Broadcasting { to: Vec<u8>, raw_tx: String },
    /// The send gate is released; the claim is being recorded.
    RecordingClaim { to: Vec<u8>, tx_hash: String },
    /// The dispatch succeeded.
    Done { tx_hash: String },
    /// The dispatch failed; no further work happens.
    Aborted { reason: FaucetError },
}

/// What the runner must do to produce the next event.
pub enum DispatchAction {
    /// Ask the claim ledger whether `key` is present.
    CheckClaim { key: String },
    /// Acquire the send gate.
    AcquireGate,
    /// Fetch the pending nonce of `from`, the gas price, and a gas estimate
    /// for the transfer of `value` from `from` to `to`.
    FetchParams { from: String, to: String, value: String },
    /// Hand the machine a `Proceed` event so it signs.
    Sign,
    /// Broadcast the signed transfer.
    Broadcast { raw_tx: String },
    /// Release the send gate, then record the claim under `key`.
    ReleaseGateThenRecord { key: String },
    /// Release the send gate; the dispatch is over.
    ReleaseGateThenFinish,
    /// The dispatch is over.
    Finish,
    /// The event did not belong to the current state; nothing to do.
    Idle,
}

/// What the runner observed.
pub enum DispatchEvent {
    /// The claim ledger answered the check.
    ClaimChecked { claimed: bool },
    /// The claim ledger failed to answer.
    ClaimCheckFailed,
    /// The send gate is held.
    GateAcquired,
    /// Nonce and gas price arrived; the estimate is `None` when estimation
    /// failed, which is not fatal.
    Params { nonce: u64, gas_price: u128, gas_estimate: Option<u64> },
    /// Nonce or gas price could not be fetched.
    ParamsFailed { transport: bool, message: String },
    /// Proceed with signing.
    Proceed,
    /// The node accepted the broadcast and returned a hash.
    BroadcastOk { tx_hash: String },
    /// The broadcast failed.
    BroadcastFailed { transport: bool, message: String },
    /// The claim record was durably written.
    ClaimRecorded,
    /// The claim record could not be written (funds have already moved).
    ClaimRecordFailed,
}

/// Two errors with the same variant and message.
pub open spec fn err_eq(a: FaucetError, b: FaucetError) -> bool {
    match (a, b) {
        (FaucetError::InvalidAddress, FaucetError::InvalidAddress) => true,
        (FaucetError::AlreadyClaimed, FaucetError::AlreadyClaimed) => true,
        (FaucetError::TransportError(m1), FaucetError::TransportError(m2)) => m1@ == m2@,
        (FaucetError::RpcError(m1), FaucetError::RpcError(m2)) => m1@ == m2@,
        (FaucetError::StoreError, FaucetError::StoreError) => true,
        (FaucetError::SigningFailed, FaucetError::SigningFailed) => true,
        (FaucetError::InvalidAmount, FaucetError::InvalidAmount) => true,
        (FaucetError::InvalidKey, FaucetError::InvalidKey) => true,
        _ => false,
    }
}

/// Two states that carry the same information.
pub open spec fn state_eq(a: DispatchState, b: DispatchState) -> bool {
    match (a, b) {
        (DispatchState::CheckingClaim { to: t1 }, DispatchState::CheckingClaim { to: t2 }) => t1@
            == t2@,
        (DispatchState::AwaitingGate { to: t1 }, DispatchState::AwaitingGate { to: t2 }) => t1@
            == t2@,
        (DispatchState::FetchingParams { to: t1 }, DispatchState::FetchingParams { to: t2 }) => t1@
            == t2@,
        (
            DispatchState::Signing { to: t1, nonce: n1, gas_price: g1, gas_limit: l1 },
            DispatchState::Signing { to: t2, nonce: n2, gas_price: g2, gas_limit: l2 },
        ) => t1@ == t2@ && n1 == n2 && g1 == g2 && l1 == l2,
        (
            DispatchState::Broadcasting { to: t1, raw_tx: r1 },
            DispatchState::Broadcasting { to: t2, raw_tx: r2 },
        ) => t1@ == t2@ && r1@ == r2@,
        (
            DispatchState::RecordingClaim { to: t1, tx_hash: h1 },
            DispatchState::RecordingClaim { to: t2, tx_hash: h2 },
        ) => t1@ == t2@ && h1@ == h2@,
        (DispatchState::Done { tx_hash: h1 }, DispatchState::Done { tx_hash: h2 }) => h1@ == h2@,
        (DispatchState::Aborted { reason: r1 }, DispatchState::Aborted { reason: r2 }) => err_eq(
            r1,
            r2,
        ),
        _ => false,
    }
}

/// A state the machine itself can produce: every destination it carries is
/// a full twenty-byte address.
pub open spec fn state_wf(s: DispatchState) -> bool {
    match s {
        DispatchState::CheckingClaim { to } => to@.len() == 20,
        DispatchState::AwaitingGate { to } => to@.len() == 20,
        DispatchState::FetchingParams { to } => to@.len() == 20,
        DispatchState::Signing { to, nonce, gas_price, gas_limit } => to@.len() == 20,
        DispatchState::Broadcasting { to, raw_tx } => to@.len() == 20,
        DispatchState::RecordingClaim { to, tx_hash } => to@.len() == 20,
        DispatchState::Done { tx_hash } => true,
        DispatchState::Aborted { reason } => true,
    }
}

/// Is the machine inside the nonce-critical section, holding the send gate?
pub open spec fn holds_gate(s: DispatchState) -> bool {
    s is FetchingParams || s is Signing || s is Broadcasting
}

/// Does the action reach out to the chain node?
pub open spec fn is_network_action(a: DispatchAction) -> bool {
    a is FetchParams || a is Broadcast
}

/// Does the action release the send gate?
pub open spec fn releases_gate(a: DispatchAction) -> bool {
    a is ReleaseGateThenRecord || a is ReleaseGateThenFinish
}

/// The faucet service: the funding identity and the fixed transfer amount.
/// One instance serves every ingress channel.
pub struct FaucetService {
    builder: TxBuilder,
    amount: u128,
}

impl FaucetService {
    /// The funding private key.
    pub closed spec fn spec_key(self) -> Seq<char> {
        self.builder.spec_key()
    }

    /// The configured chain id.
    pub closed spec fn spec_chain_id(self) -> u64 {
        self.builder.spec_chain_id()
    }

    /// The fixed transfer amount in the smallest unit.
    pub closed spec fn spec_amount(self) -> u128 {
        self.amount
    }

    /// Validates the funding key and the configured amount.  Succeeds
    /// exactly when the key is well formed and the amount is a decimal
    /// numeral of at most `u128::MAX` smallest units — far beyond any
    /// faucet's transfer, so the width costs nothing; a larger numeral is
    /// rejected as `InvalidAmount`.  The key is checked first.
    pub fn new(private_key: &str, chain_id: u64, amount_wei: &str) -> (r: Result<
        FaucetService,
        FaucetError,
    >)
        ensures
            r is Ok <==> (key_ok(private_key@) && amount_wei.spec_bytes().len() > 0
                && crate::num::all_dec(amount_wei.spec_bytes()) && dec_val(amount_wei.spec_bytes())
                <= u128::MAX),
            r matches Ok(s) ==> s.spec_key() == private_key@ && s.spec_chain_id() == chain_id
                && s.spec_amount() as nat == dec_val(amount_wei.spec_bytes()),
            !key_ok(private_key@) ==> (r matches Err(e) && e is InvalidKey),
            r matches Err(e) ==> e is InvalidKey || e is InvalidAmount,
    {
        let builder = match TxBuilder::new(private_key, chain_id) {
            Ok(b) => b,
            Err(_) => {
                return Err(FaucetError::InvalidKey);
            },
        };
        let amount = match parse_dec_u128(amount_wei) {
            Some(a) => a,
            None => {
                return Err(FaucetError::InvalidAmount);
            },
        };
        Ok(FaucetService { builder, amount })
    }

    /// The twenty bytes of the funding account's address.
    pub fn faucet_address(&self) -> (r: Vec<u8>)
        ensures
            r@ == addr_of_key(self.spec_key()),
    {
        self.builder.faucet_address()
    }

    /// Starts a dispatch: validates the destination.  A malformed address
    /// aborts at once, before any store or network access; a well-formed one
    /// moves to the claim check, whose key is derived from the address's
    /// bytes alone, never its casing.
    pub fn begin_dispatch(&self, to_address: &str) -> (r: (DispatchState, DispatchAction))
        ensures
            valid_address(to_address.spec_bytes()) ==> ({
                &&& r.0 matches DispatchState::CheckingClaim { to } && to@ == addr_bytes_of(
                    to_address.spec_bytes(),
                )
                &&& r.1 matches DispatchAction::CheckClaim { key } && key@ == addr_claim_key(
                    addr_bytes_of(to_address.spec_bytes()),
                )
            }),
            !valid_address(to_address.spec_bytes()) ==> ({
                &&& r.0 matches DispatchState::Aborted { reason } && reason is InvalidAddress
                &&& r.1 is Finish
            }),
            state_wf(r.0),
    {
        match parse_address(to_address) {
            Ok(to) => {
                let key = claim_key(&to);
                (DispatchState::CheckingClaim { to }, DispatchAction::CheckClaim { key })
            },
            Err(_) => (
                DispatchState::Aborted { reason: FaucetError::InvalidAddress },
                DispatchAction::Finish,
            ),
        }
    }

    /// The machine's transition relation: what `step` produces from a state
    /// and an event.  Every arm pins the next state and action; the signing
    /// arm turns on the backend's deterministic acceptance of the digest,
    /// so the whole relation is a function of the inputs.
    pub open spec fn steps_to(
        self,
        s: DispatchState,
        e: DispatchEvent,
        s2: DispatchState,
        a: DispatchAction,
    ) -> bool {
        match (s, e) {
            (DispatchState::CheckingClaim { to }, DispatchEvent::ClaimChecked { claimed }) => {
                if claimed {
                    &&& s2 matches DispatchState::Aborted { reason } && reason is AlreadyClaimed
                    &&& a is Finish
                } else {
                    &&& s2 matches DispatchState::AwaitingGate { to: t2 } && t2@ == to@
                    &&& a is AcquireGate
                }
            },
            (DispatchState::CheckingClaim { to }, DispatchEvent::ClaimCheckFailed) => {
                &&& s2 matches DispatchState::Aborted { reason } && reason is StoreError
                &&& a is Finish
            },
            (DispatchState::AwaitingGate { to }, DispatchEvent::GateAcquired) => {
                &&& s2 matches DispatchState::FetchingParams { to: t2 } && t2@ == to@
                &&& a matches DispatchAction::FetchParams { from, to: to_hex, value }
                    && from@ == addr_hex_chars(addr_of_key(self.spec_key())) && to_hex@
                    == addr_hex_chars(to@) && value@ == quantity_hex_chars(
                    self.spec_amount() as nat,
                )
            },
            (
                DispatchState::FetchingParams { to },
                DispatchEvent::Params { nonce, gas_price, gas_estimate },
            ) => {
                &&& s2 matches DispatchState::Signing {
                    to: t2,
                    nonce: n2,
                    gas_price: g2,
                    gas_limit: l2,
                } && t2@ == to@ && n2 == nonce && g2 == gas_price && l2 == (match gas_estimate {
                    Some(g) => g,
                    None => DEFAULT_GAS_LIMIT,
                })
                &&& a is Sign
            },
            (
                DispatchState::FetchingParams { to },
                DispatchEvent::ParamsFailed { transport, message },
            ) => {
                &&& s2 matches DispatchState::Aborted { reason } && (if transport {
                    reason matches FaucetError::TransportError(m) && m@ == message@
                } else {
                    reason matches FaucetError::RpcError(m) && m@ == message@
                })
                &&& a is ReleaseGateThenFinish
            },
            (
                DispatchState::Signing { to, nonce, gas_price, gas_limit },
                DispatchEvent::Proceed,
            ) => {
                if tx_sign_ok(
                    self.spec_key(),
                    self.spec_chain_id() as nat,
                    nonce as nat,
                    gas_price as nat,
                    gas_limit as nat,
                    to@,
                    self.spec_amount() as nat,
                ) {
                    &&& s2 matches DispatchState::Broadcasting { to: t2, raw_tx } && t2@ == to@
                        && raw_tx@ == raw_tx_chars(
                        self.spec_key(),
                        self.spec_chain_id() as nat,
                        nonce as nat,
                        gas_price as nat,
                        gas_limit as nat,
                        to@,
                        self.spec_amount() as nat,
                    )
                    &&& a matches DispatchAction::Broadcast { raw_tx: r2 } && r2@ == raw_tx_chars(
                        self.spec_key(),
                        self.spec_chain_id() as nat,
                        nonce as nat,
                        gas_price as nat,
                        gas_limit as nat,
                        to@,
                        self.spec_amount() as nat,
                    )
                } else {
                    &&& s2 matches DispatchState::Aborted { reason } && reason is SigningFailed
                    &&& a is ReleaseGateThenFinish
                }
            },
            (DispatchState::Broadcasting { to, raw_tx }, DispatchEvent::BroadcastOk { tx_hash }) => {
                if tx_hash@.len() > 0 {
                    &&& s2 matches DispatchState::RecordingClaim { to: t2, tx_hash: h2 } && t2@
                        == to@ && h2@ == tx_hash@
                    &&& a matches DispatchAction::ReleaseGateThenRecord { key } && key@
                        == addr_claim_key(to@)
                } else {
                    &&& s2 matches DispatchState::Aborted { reason } && reason is RpcError
                    &&& a is ReleaseGateThenFinish
                }
            },
            (
                DispatchState::Broadcasting { to, raw_tx },
                DispatchEvent::BroadcastFailed { transport, message },
            ) => {
                &&& s2 matches DispatchState::Aborted { reason } && (if transport {
                    reason matches FaucetError::TransportError(m) && m@ == message@
                } else {
                    reason matches FaucetError::RpcError(m) && m@ == message@
                })
                &&& a is ReleaseGateThenFinish
            },
            (DispatchState::RecordingClaim { to, tx_hash }, DispatchEvent::ClaimRecorded) => {
                &&& s2 matches DispatchState::Done { tx_hash: h2 } && h2@ == tx_hash@
                &&& a is Finish
            },
            (DispatchState::RecordingClaim { to, tx_hash }, DispatchEvent::ClaimRecordFailed) => {
                &&& s2 matches DispatchState::Done { tx_hash: h2 } && h2@ == tx_hash@
                &&& a is Finish
            },
            (DispatchState::Done { tx_hash }, _) => {
                &&& s2 matches DispatchState::Done { tx_hash: h2 } && h2@ == tx_hash@
                &&& a is Finish
            },
            (DispatchState::Aborted { reason }, _) => {
                &&& s2 matches DispatchState::Aborted { reason: r2 } && err_eq(r2, reason)
                &&& a is Finish
            },
            (s1, _) => state_eq(s2, s1) && a is Idle,
        }
    }

    /// Drives the machine one step.  The result is always within the
    /// transition relation, so every law proved of `steps_to` holds of what
    /// this returns.
    pub fn step(&self, s: DispatchState, e: DispatchEvent) -> (r: (DispatchState, DispatchAction))
        requires
            state_wf(s),
        ensures
            self.steps_to(s, e, r.0, r.1),
            state_wf(r.0),
    {
        match (s, e) {
            (DispatchState::CheckingClaim { to }, DispatchEvent::ClaimChecked { claimed }) => {
                if claimed {
                    (
                        DispatchState::Aborted { reason: FaucetError::AlreadyClaimed },
                        DispatchAction::Finish,
                    )
                } else {
                    (DispatchState::AwaitingGate { to }, DispatchAction::AcquireGate)
                }
            },
            (DispatchState::CheckingClaim { to }, DispatchEvent::ClaimCheckFailed) => (
                DispatchState::Aborted { reason: FaucetError::StoreError },
                DispatchAction::Finish,
            ),
            (DispatchState::AwaitingGate { to }, DispatchEvent::GateAcquired) => {
                let faucet_addr = self.builder.faucet_address();
                let from = address_hex(&faucet_addr);
                let to_hex = address_hex(&to);
                let value = quantity_hex(self.amount);
                (
                    DispatchState::FetchingParams { to },
                    DispatchAction::FetchParams { from, to: to_hex, value },
                )
            },
            (
                DispatchState::FetchingParams { to },
                DispatchEvent::Params { nonce, gas_price, gas_estimate },
            ) => {
                let gas_limit: u64 = match gas_estimate {
                    Some(g) => g,
                    None => DEFAULT_GAS_LIMIT,
                };
                (
                    DispatchState::Signing { to, nonce, gas_price, gas_limit },
                    DispatchAction::Sign,
                )
            },
            (
                DispatchState::FetchingParams { to },
                DispatchEvent::ParamsFailed { transport, message },
            ) => {
                let reason = if transport {
                    FaucetError::TransportError(message)
                } else {
                    FaucetError::RpcError(message)
                };
                (DispatchState::Aborted { reason }, DispatchAction::ReleaseGateThenFinish)
            },
            (
                DispatchState::Signing { to, nonce, gas_price, gas_limit },
                DispatchEvent::Proceed,
            ) => {
                match self.builder.build_and_sign(&to, self.amount, nonce, gas_price, gas_limit) {
                    Ok(raw_tx) => {
                        let raw_copy = raw_tx.clone();
                        (
                            DispatchState::Broadcasting { to, raw_tx },
                            DispatchAction::Broadcast { raw_tx: raw_copy },
                        )
                    },
                    Err(_) => (
                        DispatchState::Aborted { reason: FaucetError::SigningFailed },
                        DispatchAction::ReleaseGateThenFinish,
                    ),
                }
            },
            (DispatchState::Broadcasting { to, raw_tx }, DispatchEvent::BroadcastOk { tx_hash }) => {
                if tx_hash.as_str().is_empty() {
                    (
                        DispatchState::Aborted {
                            reason: FaucetError::RpcError(
                                String::from_str("empty transaction hash"),
                            ),
                        },
                        DispatchAction::ReleaseGateThenFinish,
                    )
                } else {
                    let key = claim_key(&to);
                    (
                        DispatchState::RecordingClaim { to, tx_hash },
                        DispatchAction::ReleaseGateThenRecord { key },
                    )
                }
            },
            (
                DispatchState::Broadcasting { to, raw_tx },
                DispatchEvent::BroadcastFailed { transport, message },
            ) => {
                let reason = if transport {
                    FaucetError::TransportError(message)
                } else {
                    FaucetError::RpcError(message)
                };
                (DispatchState::Aborted { reason }, DispatchAction::ReleaseGateThenFinish)
            },
            (DispatchState::RecordingClaim { to, tx_hash }, DispatchEvent::ClaimRecorded) => (
                DispatchState::Done { tx_hash },
                DispatchAction::Finish,
            ),
            (DispatchState::RecordingClaim { to, tx_hash }, DispatchEvent::ClaimRecordFailed) => (
                DispatchState::Done { tx_hash },
                DispatchAction::Finish,
            ),
            (st @ DispatchState::Done { .. }, _) => (st, DispatchAction::Finish),
            (st @ DispatchState::Aborted { .. }, _) => (st, DispatchAction::Finish),
            (st, _) => (st, DispatchAction::Idle),
        }
    }
    /// A run of one dispatch: each event takes state `i` to state `i + 1`,
    /// emitting action `i`.
    pub open spec fn trace_ok(
        self,
        states: Seq<DispatchState>,
        events: Seq<DispatchEvent>,
        actions: Seq<DispatchAction>,
    ) -> bool {
        &&& states.len() == events.len() + 1
        &&& actions.len() == events.len()
        &&& forall|i: int|
            0 <= i < events.len() ==> self.steps_to(states[i], events[i], states[i + 1], actions[i])
    }

    /// The send gate discipline, step by step: every network action is emitted
    /// in a gate-holding state; the only way into the critical section is
    /// the send gate grant from `AwaitingGate`; and every way out of it asks the
    /// runner to release the send gate.  A runner that performs the actions as
    /// asked therefore serializes the nonce-fetch, signing and broadcast of
    /// all concurrent dispatches through the one gate.
    pub proof fn lemma_gate_discipline(
        self,
        s: DispatchState,
        e: DispatchEvent,
        s2: DispatchState,
        a: DispatchAction,
    )
        requires
            self.steps_to(s, e, s2, a),
        ensures
            is_network_action(a) ==> holds_gate(s2),
            a is Sign ==> holds_gate(s2),
            !holds_gate(s) && holds_gate(s2) ==> s is AwaitingGate && e is GateAcquired,
            holds_gate(s) && !holds_gate(s2) ==> releases_gate(a),
    {
    }

    /// An aborted dispatch stays aborted, and from the abort on no network,
    /// signing or claim action is ever emitted.
    pub proof fn lemma_aborted_stays_aborted(
        self,
        states: Seq<DispatchState>,
        events: Seq<DispatchEvent>,
        actions: Seq<DispatchAction>,
        k: int,
    )
        requires
            self.trace_ok(states, events, actions),
            0 <= k < states.len(),
            states[k] is Aborted,
        ensures
            forall|i: int| k <= i < states.len() ==> states[i] is Aborted,
            forall|i: int|
                k <= i < actions.len() ==> !is_network_action(actions[i]) && !(actions[i] is Sign)
                    && !(actions[i] is CheckClaim) && !(actions[i] is ReleaseGateThenRecord),
        decreases states.len() - k,
    {
        if k + 1 < states.len() {
            assert(self.steps_to(states[k], events[k], states[k + 1], actions[k]));
            assert(states[k + 1] is Aborted);
            self.lemma_aborted_stays_aborted(states, events, actions, k + 1);
        }
    }

    /// An already-served destination is turned away at the claim check:
    /// the dispatch aborts with `AlreadyClaimed`, and over the whole rest of
    /// the run not one network call and not one signing operation is asked
    /// for.
    pub proof fn lemma_already_claimed_dispatch(
        self,
        states: Seq<DispatchState>,
        events: Seq<DispatchEvent>,
        actions: Seq<DispatchAction>,
    )
        requires
            self.trace_ok(states, events, actions),
            states.len() >= 2,
            states[0] is CheckingClaim,
            events[0] matches DispatchEvent::ClaimChecked { claimed } && claimed,
        ensures
            states[1] matches DispatchState::Aborted { reason } && reason is AlreadyClaimed,
            forall|i: int|
                0 <= i < actions.len() ==> !is_network_action(actions[i]) && !(actions[i] is Sign),
    {
        assert(self.steps_to(states[0], events[0], states[1], actions[0]));
        self.lemma_aborted_stays_aborted(states, events, actions, 1);
        assert forall|i: int|
            0 <= i < actions.len() implies !is_network_action(actions[i]) && !(actions[i]
            is Sign) by {
            if i == 0 {
                assert(actions[0] is Finish);
            }
        }
    }

    /// Gas-estimation failure is not fatal: the transfer goes on to signing
    /// with the default gas limit in place of the estimate.
    pub proof fn lemma_gas_fallback(
        self,
        s: DispatchState,
        e: DispatchEvent,
        s2: DispatchState,
        a: DispatchAction,
    )
        requires
            self.steps_to(s, e, s2, a),
            s is FetchingParams,
            e matches DispatchEvent::Params { nonce, gas_price, gas_estimate } && gas_estimate
                is None,
        ensures
            s2 matches DispatchState::Signing { to, nonce, gas_price, gas_limit } && gas_limit
                == DEFAULT_GAS_LIMIT,
            a is Sign,
    {
    }
}

/// Does the action record the claim for destination `to0`?
pub open spec fn is_record_action(a: DispatchAction, to0: Seq<u8>) -> bool {
    a matches DispatchAction::ReleaseGateThenRecord { key } && key@ == addr_claim_key(to0)
}

/// Was the claim recorded for destination `to0` among the first `upto`
/// actions?
pub open spec fn recorded_for(actions: Seq<DispatchAction>, upto: int, to0: Seq<u8>) -> bool {
    exists|i: int| 0 <= i < upto && is_record_action(#[trigger] actions[i], to0)
}

/// What every reachable state of a dispatch for destination `to0`
/// satisfies: the destination is carried through unchanged, and a hash is
/// only ever carried once it is known non-empty.
pub open spec fn dispatch_inv(s: DispatchState, to0: Seq<u8>) -> bool {
    match s {
        DispatchState::CheckingClaim { to } => to@ == to0,
        DispatchState::AwaitingGate { to } => to@ == to0,
        DispatchState::FetchingParams { to } => to@ == to0,
        DispatchState::Signing { to, nonce, gas_price, gas_limit } => to@ == to0,
        DispatchState::Broadcasting { to, raw_tx } => to@ == to0,
        DispatchState::RecordingClaim { to, tx_hash } => to@ == to0 && tx_hash@.len() > 0,
        DispatchState::Done { tx_hash } => tx_hash@.len() > 0,
        DispatchState::Aborted { reason } => true,
    }
}

impl FaucetService {
    /// The run invariant: every state of a dispatch for `to0` satisfies
    /// `dispatch_inv`, and the machine reaches the recording and done
    /// states only after asking for the claim record under `to0`'s key.
    pub proof fn lemma_run_invariant(
        self,
        states: Seq<DispatchState>,
        events: Seq<DispatchEvent>,
        actions: Seq<DispatchAction>,
        to0: Seq<u8>,
        j: int,
    )
        requires
            self.trace_ok(states, events, actions),
            states[0] matches DispatchState::CheckingClaim { to } && to@ == to0,
            0 <= j < states.len(),
        ensures
            dispatch_inv(states[j], to0),
            (states[j] is RecordingClaim || states[j] is Done) ==> recorded_for(actions, j, to0),
        decreases j,
    {
        if j > 0 {
            self.lemma_run_invariant(states, events, actions, to0, j - 1);
            assert(self.steps_to(states[j - 1], events[j - 1], states[j], actions[j - 1]));
            if (states[j - 1] is RecordingClaim || states[j - 1] is Done) {
                let i = choose|i: int| 0 <= i < j - 1 && is_record_action(#[trigger] actions[i], to0);
                if (states[j] is RecordingClaim || states[j] is Done) {
                    assert(0 <= i < j && is_record_action(actions[i], to0));
                }
            } else if states[j] is RecordingClaim {
                assert(is_record_action(actions[j - 1], to0));
            }
        }
    }

    /// A dispatch that ends in success has a non-empty transaction hash and
    /// has, at some step of the run, recorded the claim under its
    /// destination's key.
    pub proof fn lemma_success_records_claim(
        self,
        states: Seq<DispatchState>,
        events: Seq<DispatchEvent>,
        actions: Seq<DispatchAction>,
        to0: Seq<u8>,
    )
        requires
            self.trace_ok(states, events, actions),
            states.len() > 0,
            states[0] matches DispatchState::CheckingClaim { to } && to@ == to0,
            states.last() is Done,
        ensures
            states.last() matches DispatchState::Done { tx_hash } && tx_hash@.len() > 0,
            recorded_for(actions, actions.len() as int, to0),
    {
        self.lemma_run_invariant(states, events, actions, to0, states.len() - 1);
        assert(states.last() == states[states.len() - 1]);
    }
}

} // verus!
