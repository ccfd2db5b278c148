use gm::operation::GmOperation;
use gm::service::{
    check_profile_input, simple_verify_signature, GmRecord, LeaderboardInvitationUser,
    ProfileInputError, SendGmError, SignatureData, UserProfileInput,
};
use gm::{AccountOwner, ChainId, GmState, MessageContent};

fn who(n: u128) -> AccountOwner {
    AccountOwner::Address20(0, n)
}

fn text(s: &str) -> MessageContent {
    MessageContent { message_type: "text".to_string(), content: s.to_string() }
}

fn data(sender: &str) -> SignatureData {
    SignatureData {
        sender: sender.to_string(),
        recipient: None,
        chain_id: "c".to_string(),
        timestamp: 1,
        nonce: 0,
        content: None,
    }
}

const SENDER: &str = "a0916f957038344afff8c117b0a568562f73f0f2";

#[test]
fn signature_format_checks() {
    let r = simple_verify_signature(&data(""), "abcdef0123");
    assert!(!r.success);
    assert_eq!(r.message, "Sender address cannot be empty");
    let r = simple_verify_signature(&data("0xa0916f957038344afff8c117b0a568562f73f0f2"), "abcdef0123");
    assert_eq!(r.message, "Invalid sender address format");
    let r = simple_verify_signature(&data("abcdef"), "abcdef0123");
    assert_eq!(r.message, "Sender address is too short");
    let r = simple_verify_signature(&data(SENDER), "abcdef012");
    assert_eq!(r.message, "Invalid signature format");
    let r = simple_verify_signature(&data(SENDER), "abcdef012z");
    assert_eq!(r.message, "Invalid signature format (contains non-hex characters)");
    assert_eq!(r.verified_sender, None);
    let r = simple_verify_signature(&data(SENDER), "ABCDEF0123");
    assert!(r.success);
    assert_eq!(r.message, "Signature format verification successful");
    assert_eq!(r.verified_sender, Some(SENDER.to_string()));
}

#[test]
fn profile_input_checks() {
    let ok = UserProfileInput { name: Some("n".repeat(50)), avatar: Some("https://a/b.png".to_string()) };
    assert_eq!(check_profile_input(&ok), Ok(()));
    let long = UserProfileInput { name: Some("n".repeat(51)), avatar: None };
    assert_eq!(check_profile_input(&long), Err(ProfileInputError::NameTooLong));
    assert_eq!(ProfileInputError::NameTooLong.message(), "Name too long, maximum 50 characters");
    let bad = UserProfileInput { name: None, avatar: Some("ftp://a/b.png".to_string()) };
    assert_eq!(check_profile_input(&bad), Err(ProfileInputError::AvatarNotHttp));
    assert_eq!(ProfileInputError::AvatarNotHttp.message(), "Avatar must be a valid HTTP or HTTPS URL");
    let empty = UserProfileInput { name: None, avatar: None };
    assert_eq!(check_profile_input(&empty), Ok(()));
}

#[test]
fn prepare_needs_an_owner() {
    let state = GmState::create_empty();
    let r = state.prepare_gm(who(1), None, text("hi"), None);
    assert_eq!(r, Err(SendGmError::OwnerNotSet));
    assert_eq!(SendGmError::OwnerNotSet.message(), "Contract owner not initialized");
}

#[test]
fn prepare_fills_defaults() {
    let mut state = GmState::create_empty();
    let owner = who(100);
    state.set_owner(owner, who(101));
    let op = state.prepare_gm(who(1), None, text(" "), Some(who(1))).unwrap();
    assert_eq!(
        op,
        GmOperation::Gm { sender: who(1), recipient: owner, content: text("GMicrochains"), inviter: None }
    );
    let op = state.prepare_gm(who(1), Some(who(2)), text("hey"), Some(who(3))).unwrap();
    assert_eq!(
        op,
        GmOperation::Gm { sender: who(1), recipient: who(2), content: text("hey"), inviter: Some(who(3)) }
    );
}

#[test]
fn self_inviter_kept_once_attributed() {
    let mut state = GmState::create_empty();
    state.set_owner(who(100), who(101));
    let c = ChainId(1, 1);
    state.record_gm(c, who(1), None, 5, text("x"), Some(who(2))).unwrap();
    let op = state.prepare_gm(who(1), Some(who(2)), text("x"), Some(who(1))).unwrap();
    assert_eq!(op, GmOperation::Gm { sender: who(1), recipient: who(2), content: text("x"), inviter: Some(who(1)) });
}

#[test]
fn display_lists_carry_profiles() {
    let mut state = GmState::create_empty();
    let c = ChainId(0, 1);
    state.set_user_profile(&who(1), Some("one".to_string()), None);
    state.set_user_profile(&who(2), None, Some("https://p/2".to_string()));
    state.record_gm(c, who(1), Some(who(2)), 10, text(""), None).unwrap();
    state.record_gm(c, who(1), None, 20, text("later"), None).unwrap();
    let sent = state.get_gm_events(c, who(1));
    assert_eq!(sent.len(), 2);
    assert_eq!(sent[0].timestamp, 20);
    assert_eq!(sent[0].recipient, None);
    assert_eq!(sent[0].recipient_name, None);
    assert_eq!(sent[1].content, text("GMicrochains"));
    assert_eq!(sent[1].sender_name, Some("one".to_string()));
    assert_eq!(sent[1].recipient_avatar, Some("https://p/2".to_string()));
    assert_eq!(sent[1].nonce, 0);
    let received = state.get_received_gm_events(c, who(2));
    assert_eq!(received.len(), 1);
    assert_eq!(received[0].sender, who(1));
    assert_eq!(received[0].recipient, Some(who(2)));
    let all = state.get_all_gm_events();
    assert_eq!(all.len(), 2);
    assert_eq!(all[0].timestamp, 20);
    assert_eq!(all[1].timestamp, 10);
    assert_eq!(state.get_gm_record(c, who(1)), Some(GmRecord { owner: who(1), timestamp: 20 }));
    assert_eq!(state.get_gm_record(c, who(2)), None);
}

#[test]
fn top_invitors_list() {
    let mut state = GmState::create_empty();
    let c = ChainId(0, 1);
    state.record_gm(c, who(10), None, 5, text("x"), Some(who(1))).unwrap();
    assert_eq!(state.get_top_invitors(3), vec![LeaderboardInvitationUser { user: who(1), count: 30 }]);
    assert!(state.get_top_invitors(0).is_empty());
}
