//! The chat channel's decisions: one small machine per incoming message,
//! enforcing one claim per chat identity on top of the dispatch machine's
//! one claim per address.  The runner performs the ledger lookups and runs
//! the dispatch; this machine decides what to check, whether to dispatch,
//! when to mark the identity as served, and what to reply.

use vstd::prelude::*;
use crate::errors::FaucetError;
use crate::keys::{user_claim_key, user_key};

verus! {

use vstd::string::StringSliceAdditionalSpecFns;

/// The shape test the chat channel applies before anything else: a
/// `0x`-led, 42-byte message is treated as an address claim request.
pub open spec fn chat_address_shape(s: Seq<u8>) -> bool {
    s.len() == 42 && s[0] == 0x30 && s[1] == 0x78
}

/// Where a chat conversation stands.
pub enum ChatState {
    /// The identity's own claim record is being consulted.
    CheckingUser { address: String, user_key: String },
    /// The address dispatch is running.
    Dispatching { user_key: String },
    /// The conversation is over.
    Finished,
}

/// What the runner must do to produce the next event.
pub enum ChatAction {
    /// Ask the claim ledger whether the identity's `key` is present.
    CheckUser { key: String },
    /// Run a dispatch for `address` and report its outcome.
    Dispatch { address: String },
    /// Record the identity's claim under `key`, then send `text`.
    MarkUserThenReply { key: String, text: String },
    /// Send `text`; nothing else to do.
    Reply { text: String },
    /// The event did not belong to the current state; nothing to do.
    Idle,
}

/// What the runner observed.
pub enum ChatEvent {
    /// The claim ledger answered the identity check.
    UserChecked { claimed: bool },
    /// The claim ledger failed to answer; the address-level check still
    /// guards the dispatch, so the request proceeds.
    UserCheckFailed,
    /// The dispatch ended with this outcome.
    DispatchFinished { outcome: Result<String, FaucetError> },
}

/// The reply to a message that does not look like an address.
pub open spec fn invalid_format_text() -> Seq<char> {
    "please send a 0x-prefixed address to receive tokens"@
}

/// The reply to an identity that was already served.
pub open spec fn served_user_text() -> Seq<char> {
    "you have already received tokens from this faucet"@
}

/// The reply to a successful dispatch with hash `h`.
pub open spec fn success_text(h: Seq<char>) -> Seq<char> {
    "tokens sent, transaction hash: "@ + h
}

/// The reply to a failed dispatch, by its reason.
pub open spec fn dispatch_error_text(e: FaucetError) -> Seq<char> {
    match e {
        FaucetError::AlreadyClaimed => "this address has already received tokens from the faucet"@,
        FaucetError::InvalidAddress => "invalid address"@,
        _ => "failed to send tokens, please try again later"@,
    }
}

/// The chat machine's transition relation: a function of the state and the
/// event.
pub open spec fn chat_steps_to(
    s: ChatState,
    e: ChatEvent,
    s2: ChatState,
    a: ChatAction,
) -> bool {
    match (s, e) {
        (ChatState::CheckingUser { address, user_key: uk }, ChatEvent::UserChecked { claimed }) => {
            if claimed {
                &&& s2 is Finished
                &&& a matches ChatAction::Reply { text } && text@ == served_user_text()
            } else {
                &&& s2 matches ChatState::Dispatching { user_key: k2 } && k2@ == uk@
                &&& a matches ChatAction::Dispatch { address: a2 } && a2@ == address@
            }
        },
        (ChatState::CheckingUser { address, user_key: uk }, ChatEvent::UserCheckFailed) => {
            &&& s2 matches ChatState::Dispatching { user_key: k2 } && k2@ == uk@
            &&& a matches ChatAction::Dispatch { address: a2 } && a2@ == address@
        },
        (ChatState::Dispatching { user_key: uk }, ChatEvent::DispatchFinished { outcome }) => {
            match outcome {
                Ok(h) => {
                    &&& s2 is Finished
                    &&& a matches ChatAction::MarkUserThenReply { key, text } && key@ == uk@
                        && text@ == success_text(h@)
                },
                Err(err) => {
                    &&& s2 is Finished
                    &&& a matches ChatAction::Reply { text } && text@ == dispatch_error_text(err)
                },
            }
        },
        (s1, _) => s2 is Finished && a is Idle,
    }
}

/// Starts a conversation turn: a message of the right shape moves to the
/// identity check under the identity's own claim key; anything else is
/// answered at once, with no ledger or dispatch work.
pub fn begin_chat(text: &str, user_id: i64) -> (r: (ChatState, ChatAction))
    ensures
        chat_address_shape(text.spec_bytes()) ==> ({
            &&& r.0 matches ChatState::CheckingUser { address, user_key: uk } && address@ == text@
                && uk@ == user_claim_key(user_id as int)
            &&& r.1 matches ChatAction::CheckUser { key } && key@ == user_claim_key(
                user_id as int,
            )
        }),
        !chat_address_shape(text.spec_bytes()) ==> ({
            &&& r.0 is Finished
            &&& r.1 matches ChatAction::Reply { text: t } && t@ == invalid_format_text()
        }),
{
    let b: &[u8] = text.as_bytes();
    if b.len() == 42 && b[0] == 0x30 && b[1] == 0x78 {
        let key = user_key(user_id);
        let key_copy = key.clone();
        (
            ChatState::CheckingUser { address: String::from_str(text), user_key: key },
            ChatAction::CheckUser { key: key_copy },
        )
    } else {
        (
            ChatState::Finished,
            ChatAction::Reply {
                text: String::from_str("please send a 0x-prefixed address to receive tokens"),
            },
        )
    }
}

/// Drives the chat machine one step.
pub fn chat_step(s: ChatState, e: ChatEvent) -> (r: (ChatState, ChatAction))
    ensures
        chat_steps_to(s, e, r.0, r.1),
{
    match (s, e) {
        (ChatState::CheckingUser { address, user_key: uk }, ChatEvent::UserChecked { claimed }) => {
            if claimed {
                (
                    ChatState::Finished,
                    ChatAction::Reply {
                        text: String::from_str("you have already received tokens from this faucet"),
                    },
                )
            } else {
                (ChatState::Dispatching { user_key: uk }, ChatAction::Dispatch { address })
            }
        },
        (ChatState::CheckingUser { address, user_key: uk }, ChatEvent::UserCheckFailed) => (
            ChatState::Dispatching { user_key: uk },
            ChatAction::Dispatch { address },
        ),
        (ChatState::Dispatching { user_key: uk }, ChatEvent::DispatchFinished { outcome }) => {
            match outcome {
                Ok(h) => {
                    let text = String::from_str("tokens sent, transaction hash: ").concat(
                        h.as_str(),
                    );
                    (ChatState::Finished, ChatAction::MarkUserThenReply { key: uk, text })
                },
                Err(err) => {
                    let text = match err {
                        FaucetError::AlreadyClaimed => String::from_str(
                            "this address has already received tokens from the faucet",
                        ),
                        FaucetError::InvalidAddress => String::from_str("invalid address"),
                        _ => String::from_str("failed to send tokens, please try again later"),
                    };
                    (ChatState::Finished, ChatAction::Reply { text })
                },
            }
        },
        _ => (ChatState::Finished, ChatAction::Idle),
    }
}

/// One claim per chat identity: an identity the ledger already holds is
/// refused before any dispatch, the identity's claim is recorded exactly
/// with a successful dispatch's reply, and a finished conversation never
/// asks for anything again.
pub proof fn lemma_served_user_not_dispatched(
    s: ChatState,
    e: ChatEvent,
    s2: ChatState,
    a: ChatAction,
)
    requires
        chat_steps_to(s, e, s2, a),
    ensures
        ({
            &&& s is CheckingUser
            &&& e matches ChatEvent::UserChecked { claimed } && claimed
        }) ==> (s2 is Finished && !(a is Dispatch) && !(a is MarkUserThenReply)),
        a is MarkUserThenReply ==> ({
            &&& s is Dispatching
            &&& e matches ChatEvent::DispatchFinished { outcome } && outcome is Ok
        }),
        s is Finished ==> (s2 is Finished && a is Idle),
{
}

} // verus!
