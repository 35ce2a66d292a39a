use celo_faucet::config::Config;
use celo_faucet::dispatch::{DispatchAction, DispatchEvent, DispatchState, FaucetService};
use celo_faucet::errors::FaucetError;
use celo_faucet::tx::TxBuilder;

// A well-known development key, safe to embed in tests.
const TEST_KEY: &str = "ac0974bec39a17e36ba4a6b4d238ff944bacb478cbed5efcae784d7bf4f2ff80";
const DEST: &str = "0x1111111111111111111111111111111111111111";
const AMOUNT: &str = "1000000000000000000";

fn service() -> FaucetService {
    FaucetService::new(TEST_KEY, 42220, AMOUNT).unwrap()
}

#[test]
fn service_rejects_bad_inputs() {
    assert!(matches!(
        FaucetService::new("nope", 1, AMOUNT),
        Err(FaucetError::InvalidKey)
    ));
    assert!(matches!(
        FaucetService::new(TEST_KEY, 1, "12x"),
        Err(FaucetError::InvalidAmount)
    ));
    assert!(matches!(
        FaucetService::new(TEST_KEY, 1, ""),
        Err(FaucetError::InvalidAmount)
    ));
}

#[test]
fn invalid_address_aborts_immediately() {
    let svc = service();
    let (state, action) = svc.begin_dispatch("not-an-address");
    assert!(matches!(
        state,
        DispatchState::Aborted { reason: FaucetError::InvalidAddress }
    ));
    assert!(matches!(action, DispatchAction::Finish));
}

#[test]
fn already_claimed_aborts_without_network_work() {
    let svc = service();
    let (state, action) = svc.begin_dispatch(DEST);
    assert!(matches!(action, DispatchAction::CheckClaim { .. }));
    let (state, action) = svc.step(state, DispatchEvent::ClaimChecked { claimed: true });
    assert!(matches!(
        state,
        DispatchState::Aborted { reason: FaucetError::AlreadyClaimed }
    ));
    assert!(matches!(action, DispatchAction::Finish));
    // the machine stays silent from here on
    let (state, action) = svc.step(state, DispatchEvent::GateAcquired);
    assert!(matches!(state, DispatchState::Aborted { .. }));
    assert!(matches!(action, DispatchAction::Finish));
}

#[test]
fn case_differing_request_uses_same_claim_key() {
    let svc = service();
    let (_, a1) = svc.begin_dispatch("0xABCDEF0123456789ABCDEF0123456789ABCDEF01");
    let (_, a2) = svc.begin_dispatch("0xabcdef0123456789abcdef0123456789abcdef01");
    let k1 = match a1 {
        DispatchAction::CheckClaim { key } => key,
        _ => panic!("expected a claim check"),
    };
    let k2 = match a2 {
        DispatchAction::CheckClaim { key } => key,
        _ => panic!("expected a claim check"),
    };
    assert_eq!(k1, k2);
}

#[test]
fn gas_estimation_failure_falls_back_to_default() {
    let svc = service();
    let (state, _) = svc.begin_dispatch(DEST);
    let (state, _) = svc.step(state, DispatchEvent::ClaimChecked { claimed: false });
    let (state, _) = svc.step(state, DispatchEvent::GateAcquired);
    let (state, action) = svc.step(
        state,
        DispatchEvent::Params { nonce: 5, gas_price: 20_000_000_000, gas_estimate: None },
    );
    match &state {
        DispatchState::Signing { gas_limit, .. } => assert_eq!(*gas_limit, 21000),
        _ => panic!("expected the signing state"),
    }
    assert!(matches!(action, DispatchAction::Sign));
    // and the dispatch still goes on to a broadcast
    let (state, action) = svc.step(state, DispatchEvent::Proceed);
    assert!(matches!(state, DispatchState::Broadcasting { .. }));
    assert!(matches!(action, DispatchAction::Broadcast { .. }));
}

#[test]
fn full_dispatch_scenario() {
    let svc = service();

    // begin: validation and the claim-check request
    let (state, action) = svc.begin_dispatch(DEST);
    assert!(matches!(state, DispatchState::CheckingClaim { .. }));
    match &action {
        DispatchAction::CheckClaim { key } => {
            assert_eq!(key.as_str(), "addr:0x1111111111111111111111111111111111111111")
        },
        _ => panic!("expected a claim check"),
    }

    // unclaimed: the machine asks for the send gate
    let (state, action) = svc.step(state, DispatchEvent::ClaimChecked { claimed: false });
    assert!(matches!(state, DispatchState::AwaitingGate { .. }));
    assert!(matches!(action, DispatchAction::AcquireGate));

    // gate held: the machine asks for the chain parameters
    let (state, action) = svc.step(state, DispatchEvent::GateAcquired);
    assert!(matches!(state, DispatchState::FetchingParams { .. }));
    match &action {
        DispatchAction::FetchParams { from, to, value } => {
            assert_eq!(from.as_str(), "0xf39fd6e51aad88f6f4ce6ab8827279cfffb92266");
            assert_eq!(to.as_str(), DEST);
            assert_eq!(value.as_str(), "0xde0b6b3a7640000");
        },
        _ => panic!("expected a parameter fetch"),
    }

    // parameters arrive; the machine signs with nonce 5
    let (state, action) = svc.step(
        state,
        DispatchEvent::Params { nonce: 5, gas_price: 20_000_000_000, gas_estimate: Some(21000) },
    );
    match &state {
        DispatchState::Signing { nonce, gas_price, gas_limit, .. } => {
            assert_eq!(*nonce, 5);
            assert_eq!(*gas_price, 20_000_000_000);
            assert_eq!(*gas_limit, 21000);
        },
        _ => panic!("expected the signing state"),
    }
    assert!(matches!(action, DispatchAction::Sign));

    let (state, action) = svc.step(state, DispatchEvent::Proceed);
    let raw = match &action {
        DispatchAction::Broadcast { raw_tx } => raw_tx.clone(),
        _ => panic!("expected a broadcast"),
    };
    assert!(matches!(state, DispatchState::Broadcasting { .. }));
    // the broadcast bytes are exactly the deterministic signed encoding
    let builder = TxBuilder::new(TEST_KEY, 42220).unwrap();
    let to = celo_faucet::keys::parse_address(DEST).unwrap();
    let expected = builder
        .build_and_sign(&to, 1_000_000_000_000_000_000, 5, 20_000_000_000, 21000)
        .unwrap();
    assert_eq!(raw, expected);

    // broadcast succeeds: release the send gate, record the claim
    let (state, action) = svc.step(
        state,
        DispatchEvent::BroadcastOk { tx_hash: String::from("0xfeedbead") },
    );
    assert!(matches!(state, DispatchState::RecordingClaim { .. }));
    match &action {
        DispatchAction::ReleaseGateThenRecord { key } => {
            assert_eq!(key.as_str(), "addr:0x1111111111111111111111111111111111111111")
        },
        _ => panic!("expected the claim record"),
    }

    // the record is written: the dispatch is done with the hash
    let (state, action) = svc.step(state, DispatchEvent::ClaimRecorded);
    match &state {
        DispatchState::Done { tx_hash } => assert_eq!(tx_hash.as_str(), "0xfeedbead"),
        _ => panic!("expected success"),
    }
    assert!(matches!(action, DispatchAction::Finish));

    // a second dispatch to the same address is turned away at the check
    let (state2, _) = svc.begin_dispatch(DEST);
    let (state2, action2) = svc.step(state2, DispatchEvent::ClaimChecked { claimed: true });
    assert!(matches!(
        state2,
        DispatchState::Aborted { reason: FaucetError::AlreadyClaimed }
    ));
    assert!(matches!(action2, DispatchAction::Finish));
}

#[test]
fn broadcast_failure_releases_gate() {
    let svc = service();
    let (state, _) = svc.begin_dispatch(DEST);
    let (state, _) = svc.step(state, DispatchEvent::ClaimChecked { claimed: false });
    let (state, _) = svc.step(state, DispatchEvent::GateAcquired);
    let (state, _) = svc.step(
        state,
        DispatchEvent::Params { nonce: 0, gas_price: 1, gas_estimate: Some(21000) },
    );
    let (state, _) = svc.step(state, DispatchEvent::Proceed);
    let (state, action) = svc.step(
        state,
        DispatchEvent::BroadcastFailed {
            transport: false,
            message: String::from("nonce too low"),
        },
    );
    match &state {
        DispatchState::Aborted { reason: FaucetError::RpcError(m) } => {
            assert_eq!(m.as_str(), "nonce too low")
        },
        _ => panic!("expected an rpc failure"),
    }
    assert!(matches!(action, DispatchAction::ReleaseGateThenFinish));
}

#[test]
fn params_transport_failure_releases_gate() {
    let svc = service();
    let (state, _) = svc.begin_dispatch(DEST);
    let (state, _) = svc.step(state, DispatchEvent::ClaimChecked { claimed: false });
    let (state, _) = svc.step(state, DispatchEvent::GateAcquired);
    let (state, action) = svc.step(
        state,
        DispatchEvent::ParamsFailed { transport: true, message: String::from("timeout") },
    );
    assert!(matches!(
        state,
        DispatchState::Aborted { reason: FaucetError::TransportError(_) }
    ));
    assert!(matches!(action, DispatchAction::ReleaseGateThenFinish));
}

#[test]
fn record_failure_still_returns_hash() {
    let svc = service();
    let (state, _) = svc.begin_dispatch(DEST);
    let (state, _) = svc.step(state, DispatchEvent::ClaimChecked { claimed: false });
    let (state, _) = svc.step(state, DispatchEvent::GateAcquired);
    let (state, _) = svc.step(
        state,
        DispatchEvent::Params { nonce: 0, gas_price: 1, gas_estimate: Some(21000) },
    );
    let (state, _) = svc.step(state, DispatchEvent::Proceed);
    let (state, _) = svc.step(
        state,
        DispatchEvent::BroadcastOk { tx_hash: String::from("0xcafe") },
    );
    let (state, _) = svc.step(state, DispatchEvent::ClaimRecordFailed);
    match &state {
        DispatchState::Done { tx_hash } => assert_eq!(tx_hash.as_str(), "0xcafe"),
        _ => panic!("expected success despite the record failure"),
    }
}

#[test]
fn empty_broadcast_hash_is_an_error() {
    let svc = service();
    let (state, _) = svc.begin_dispatch(DEST);
    let (state, _) = svc.step(state, DispatchEvent::ClaimChecked { claimed: false });
    let (state, _) = svc.step(state, DispatchEvent::GateAcquired);
    let (state, _) = svc.step(
        state,
        DispatchEvent::Params { nonce: 0, gas_price: 1, gas_estimate: Some(21000) },
    );
    let (state, _) = svc.step(state, DispatchEvent::Proceed);
    let (state, action) = svc.step(state, DispatchEvent::BroadcastOk { tx_hash: String::new() });
    assert!(matches!(state, DispatchState::Aborted { reason: FaucetError::RpcError(_) }));
    assert!(matches!(action, DispatchAction::ReleaseGateThenFinish));
}

#[test]
fn mismatched_event_is_ignored() {
    let svc = service();
    let (state, _) = svc.begin_dispatch(DEST);
    let (state, action) = svc.step(state, DispatchEvent::GateAcquired);
    assert!(matches!(state, DispatchState::CheckingClaim { .. }));
    assert!(matches!(action, DispatchAction::Idle));
}

#[test]
fn config_holds_plain_values() {
    let cfg = Config {
        rpc_url: String::from("http://localhost:8545"),
        chain_id: 42220,
        faucet_private_key: String::from(TEST_KEY),
        faucet_amount_wei: String::from(AMOUNT),
        bind_addr: String::from("0.0.0.0:8080"),
        state_path: String::from("./state"),
        telegram_bot_token: None,
        tracing_json: false,
    };
    assert_eq!(cfg.chain_id, 42220);
    let copy = cfg.clone();
    assert_eq!(copy.rpc_url.as_str(), "http://localhost:8545");
}
