use gm::operation::{generate_ai_response, GmMessage, GmOperation};
use gm::{AccountOwner, ChainId, GmState, MessageContent};

fn who(n: u128) -> AccountOwner {
    AccountOwner::Address32(n, 0)
}

fn text(s: &str) -> MessageContent {
    MessageContent { message_type: "text".to_string(), content: s.to_string() }
}

const APP: AccountOwner = AccountOwner::Reserved(7);

fn owned() -> GmState {
    let mut state = GmState::create_empty();
    state.set_owner(who(100), who(101));
    state
}

fn gm(sender: AccountOwner, recipient: AccountOwner, body: &str) -> GmOperation {
    GmOperation::Gm { sender, recipient, content: text(body), inviter: None }
}

#[test]
fn nothing_happens_without_owner() {
    let mut state = GmState::create_empty();
    let sent = state.execute_operation(gm(who(1), who(2), "hi"), ChainId(0, 1), 10, APP, None);
    assert!(sent.is_empty());
    assert_eq!(state.get_total_messages(), 0);
}

#[test]
fn greeting_is_recorded_and_announced() {
    let mut state = owned();
    let c = ChainId(0, 1);
    let sent = state.execute_operation(gm(who(1), who(2), "hi"), c, 10, APP, None);
    assert_eq!(
        sent,
        vec![GmMessage::Gm { sender: who(1), recipient: Some(who(2)), timestamp: 10, content: text("hi") }]
    );
    assert_eq!(state.get_total_messages(), 1);
    assert_eq!(state.get_received_events(c, &who(2)).len(), 1);
}

#[test]
fn invalid_content_is_dropped() {
    let mut state = owned();
    let sent = state.execute_operation(gm(who(1), who(2), "buy scam coins"), ChainId(0, 1), 10, APP, None);
    assert!(sent.is_empty());
    assert_eq!(state.get_total_messages(), 0);
}

#[test]
fn sender_in_cooldown_is_dropped() {
    let mut state = owned();
    let c = ChainId(0, 1);
    assert!(state.set_cooldown_enabled(&who(100), true));
    assert_eq!(state.execute_operation(gm(who(1), who(2), "a"), c, 10, APP, None).len(), 1);
    assert!(state.execute_operation(gm(who(1), who(2), "b"), c, 20, APP, None).is_empty());
    assert_eq!(state.get_total_messages(), 1);
}

#[test]
fn greeting_to_application_gets_reply() {
    let mut state = owned();
    let c = ChainId(0, 1);
    let sent = state.execute_operation(gm(who(1), APP, "hello"), c, 10, APP, None);
    let reply = text(&generate_ai_response("", 200));
    assert_eq!(
        sent,
        vec![
            GmMessage::Gm { sender: who(1), recipient: Some(APP), timestamp: 10, content: text("hello") },
            GmMessage::Gm { sender: APP, recipient: Some(who(1)), timestamp: 10, content: reply },
        ]
    );
    assert_eq!(state.get_total_messages(), 2);
    assert_eq!(state.get_wallet_messages(&APP), 1);
}

#[test]
fn ai_chat_records_reply() {
    let mut state = owned();
    let c = ChainId(0, 1);
    let op = GmOperation::AIChat { sender: who(1), recipient: who(2), prompt: "help".to_string(), max_tokens: Some(3) };
    let sent = state.execute_operation(op, c, 10, APP, None);
    let reply = text(&generate_ai_response("", 3));
    assert_eq!(sent, vec![GmMessage::Gm { sender: who(1), recipient: Some(who(2)), timestamp: 10, content: reply }]);
    assert_eq!(state.get_total_messages(), 1);
}

#[test]
fn admin_operations_act_for_signer() {
    let mut state = owned();
    let c = ChainId(0, 1);
    let op = GmOperation::SetCooldownEnabled { caller: who(100), enabled: true };
    state.execute_operation(op.clone(), c, 10, APP, None);
    assert!(!state.is_cooldown_enabled());
    state.execute_operation(op.clone(), c, 10, APP, Some(who(5)));
    assert!(!state.is_cooldown_enabled());
    state.execute_operation(op, c, 10, APP, Some(who(100)));
    assert!(state.is_cooldown_enabled());
    let add = GmOperation::AddWhitelistAddress { caller: who(100), address: who(5) };
    state.execute_operation(add, c, 10, APP, Some(who(100)));
    assert!(state.is_whitelisted(&who(5)));
    let remove = GmOperation::RemoveWhitelistAddress { caller: who(5), address: who(100) };
    state.execute_operation(remove, c, 10, APP, Some(who(5)));
    assert!(!state.is_whitelisted(&who(100)));
}

#[test]
fn profile_and_claim_operations() {
    let mut state = owned();
    let c = ChainId(0, 1);
    let op = GmOperation::SetUserProfile { user: who(1), name: Some("n".to_string()), avatar: None };
    assert!(state.execute_operation(op, c, 10, APP, None).is_empty());
    assert_eq!(state.get_user_profile(&who(1)).name, Some("n".to_string()));
    let claim = GmOperation::ClaimInvitationRewards { sender: who(1) };
    assert!(state.execute_operation(claim, c, 10, APP, None).is_empty());
    assert_eq!(state.get_total_messages(), 0);
}

#[test]
fn zero_timestamp_greeting_is_dropped() {
    let mut state = owned();
    assert!(state.execute_operation(gm(who(1), who(2), "x"), ChainId(0, 1), 0, APP, None).is_empty());
    assert_eq!(state.get_total_messages(), 0);
}

#[test]
fn instantiate_once() {
    let mut state = GmState::create_empty();
    assert!(state.instantiate(APP, who(9)));
    assert_eq!(state.owner, Some(APP));
    assert!(state.is_whitelisted(&APP));
    assert!(state.is_whitelisted(&who(9)));
    assert!(!state.instantiate(who(1), who(2)));
    assert_eq!(state.owner, Some(APP));
}

#[test]
fn message_from_other_chain_is_recorded() {
    let mut state = GmState::create_empty();
    let c = ChainId(0, 1);
    let ok = GmMessage::Gm { sender: who(1), recipient: None, timestamp: 10, content: text("hi") };
    assert!(state.execute_message(ok, c));
    let bad = GmMessage::Gm { sender: who(1), recipient: None, timestamp: 11, content: text("<iframe x>") };
    assert!(!state.execute_message(bad, c));
    assert_eq!(state.get_total_messages(), 1);
}
