use celo_faucet::chat::{begin_chat, chat_step, ChatAction, ChatEvent, ChatState};
use celo_faucet::errors::FaucetError;

const DEST: &str = "0x1111111111111111111111111111111111111111";

#[test]
fn non_address_message_is_answered_at_once() {
    let (state, action) = begin_chat("hello there", 7);
    assert!(matches!(state, ChatState::Finished));
    match &action {
        ChatAction::Reply { text } => {
            assert_eq!(text.as_str(), "please send a 0x-prefixed address to receive tokens")
        },
        _ => panic!("expected a reply"),
    }
    // too short, and missing the marker
    let (state, _) = begin_chat("0x1111", 7);
    assert!(matches!(state, ChatState::Finished));
    let (state, _) = begin_chat("111111111111111111111111111111111111111111", 7);
    assert!(matches!(state, ChatState::Finished));
}

#[test]
fn address_message_checks_the_identity_first() {
    let (state, action) = begin_chat(DEST, 12345);
    match &state {
        ChatState::CheckingUser { address, user_key } => {
            assert_eq!(address.as_str(), DEST);
            assert_eq!(user_key.as_str(), "tg:12345");
        },
        _ => panic!("expected the identity check"),
    }
    match &action {
        ChatAction::CheckUser { key } => assert_eq!(key.as_str(), "tg:12345"),
        _ => panic!("expected the identity check"),
    }
}

#[test]
fn served_identity_is_refused_before_any_dispatch() {
    let (state, _) = begin_chat(DEST, 9);
    let (state, action) = chat_step(state, ChatEvent::UserChecked { claimed: true });
    assert!(matches!(state, ChatState::Finished));
    match &action {
        ChatAction::Reply { text } => {
            assert_eq!(text.as_str(), "you have already received tokens from this faucet")
        },
        _ => panic!("expected the refusal"),
    }
}

#[test]
fn unserved_identity_dispatches() {
    let (state, _) = begin_chat(DEST, 9);
    let (state, action) = chat_step(state, ChatEvent::UserChecked { claimed: false });
    assert!(matches!(state, ChatState::Dispatching { .. }));
    match &action {
        ChatAction::Dispatch { address } => assert_eq!(address.as_str(), DEST),
        _ => panic!("expected a dispatch"),
    }
}

#[test]
fn identity_check_failure_still_dispatches() {
    let (state, _) = begin_chat(DEST, 9);
    let (state, action) = chat_step(state, ChatEvent::UserCheckFailed);
    assert!(matches!(state, ChatState::Dispatching { .. }));
    assert!(matches!(action, ChatAction::Dispatch { .. }));
}

#[test]
fn successful_dispatch_marks_the_identity() {
    let (state, _) = begin_chat(DEST, 42);
    let (state, _) = chat_step(state, ChatEvent::UserChecked { claimed: false });
    let (state, action) = chat_step(
        state,
        ChatEvent::DispatchFinished { outcome: Ok(String::from("0xfeedbead")) },
    );
    assert!(matches!(state, ChatState::Finished));
    match &action {
        ChatAction::MarkUserThenReply { key, text } => {
            assert_eq!(key.as_str(), "tg:42");
            assert_eq!(text.as_str(), "tokens sent, transaction hash: 0xfeedbead");
        },
        _ => panic!("expected the identity claim"),
    }
}

#[test]
fn failed_dispatch_replies_by_reason() {
    let cases: Vec<(FaucetError, &str)> = vec![
        (
            FaucetError::AlreadyClaimed,
            "this address has already received tokens from the faucet",
        ),
        (FaucetError::InvalidAddress, "invalid address"),
        (
            FaucetError::TransportError(String::from("timeout")),
            "failed to send tokens, please try again later",
        ),
        (FaucetError::StoreError, "failed to send tokens, please try again later"),
    ];
    for (err, expected) in cases {
        let (state, _) = begin_chat(DEST, 1);
        let (state, _) = chat_step(state, ChatEvent::UserChecked { claimed: false });
        let (state, action) = chat_step(state, ChatEvent::DispatchFinished { outcome: Err(err) });
        assert!(matches!(state, ChatState::Finished));
        match &action {
            ChatAction::Reply { text } => assert_eq!(text.as_str(), expected),
            _ => panic!("expected a reply"),
        }
    }
}

#[test]
fn finished_conversation_ignores_events() {
    let (state, _) = begin_chat("nope", 1);
    let (state, action) = chat_step(state, ChatEvent::UserChecked { claimed: false });
    assert!(matches!(state, ChatState::Finished));
    assert!(matches!(action, ChatAction::Idle));
}
