use gm::buckets::{DAY_MICROS, HOUR_MICROS};
use gm::cooldown::COOLDOWN_MICROS;
use gm::records::SentEntry;
use gm::service::Notifications;
use gm::{AccountOwner, ChainId, GmState, MessageContent, RecordError};

fn who(n: u128) -> AccountOwner {
    AccountOwner::Address32(0, n)
}

fn chain(n: u128) -> ChainId {
    ChainId(0, n)
}

fn text(s: &str) -> MessageContent {
    MessageContent { message_type: "text".to_string(), content: s.to_string() }
}

fn record(state: &mut GmState, c: ChainId, sender: AccountOwner, t: u64, inviter: Option<AccountOwner>) {
    state.record_gm(c, sender, Some(who(999)), t, text("gm"), inviter).unwrap();
}

#[test]
fn two_events_newest_first() {
    let mut state = GmState::create_empty();
    let (c, s) = (chain(1), who(1));
    state.record_gm(c, s, None, 1_000_000, text("first"), None).unwrap();
    state.record_gm(c, s, None, 2_000_000, text("second"), None).unwrap();
    assert_eq!(state.get_total_messages(), 2);
    assert_eq!(state.get_wallet_messages(&s), 2);
    let events = state.get_events(c, &s);
    assert_eq!(events.len(), 2);
    assert_eq!(events[0], SentEntry { recipient: None, timestamp: 2_000_000, content: text("second") });
    assert_eq!(events[1], SentEntry { recipient: None, timestamp: 1_000_000, content: text("first") });
}

#[test]
fn record_counts_once() {
    let mut state = GmState::create_empty();
    let (c, d, s, r) = (chain(1), chain(2), who(1), who(2));
    state.record_gm(c, s, Some(r), 5, text("hi"), None).unwrap();
    state.record_gm(d, r, Some(s), 6, text("hi"), None).unwrap();
    assert_eq!(state.get_total_messages(), 2);
    assert_eq!(state.get_chain_messages(&c), 1);
    assert_eq!(state.get_chain_messages(&d), 1);
    assert_eq!(state.get_wallet_messages(&s), 1);
    assert_eq!(state.get_wallet_messages(&r), 1);
    assert_eq!(state.get_last_gm(c, &s), Some(5));
    assert_eq!(state.get_received_events(c, &r).len(), 1);
    assert_eq!(state.get_received_events(c, &r)[0].sender, s);
}

#[test]
fn zero_timestamp_is_refused() {
    let mut state = GmState::create_empty();
    let (c, s) = (chain(1), who(1));
    assert_eq!(state.record_gm(c, s, None, 0, text("x"), Some(who(2))), Err(RecordError::InvalidTimestamp));
    assert_eq!(state.get_total_messages(), 0);
    assert_eq!(state.get_wallet_messages(&s), 0);
    assert_eq!(state.get_last_gm(c, &s), None);
    assert!(state.get_events(c, &s).is_empty());
    assert_eq!(state.get_invitation_record(who(2)).len(), 0);
    assert_eq!(state.get_daily_stats(c, 0, 0), vec![(0, 0)]);
}

#[test]
fn absent_keys_read_as_defaults() {
    let state = GmState::create_empty();
    let (c, a) = (chain(7), who(7));
    assert_eq!(state.get_chain_messages(&c), 0);
    assert_eq!(state.get_wallet_messages(&a), 0);
    assert_eq!(state.get_last_gm(c, &a), None);
    assert!(state.get_events(c, &a).is_empty());
    assert!(state.get_received_events(c, &a).is_empty());
    assert_eq!(state.get_user_profile(&a), gm::UserProfile { name: None, avatar: None });
    assert_eq!(state.get_user_invitation_rewards(a), 0);
    assert_eq!(state.get_invitation_stats(a), None);
    assert_eq!(state.get_user_rank(&a), 0);
    assert_eq!(state.get_invitation_rank(&a), 0);
    assert!(!state.is_whitelisted(&a));
}

#[test]
fn first_inviter_is_permanent() {
    let mut state = GmState::create_empty();
    let (c, invitee, a, b) = (chain(1), who(1), who(2), who(3));
    record(&mut state, c, invitee, 10, Some(a));
    assert_eq!(state.get_user_invitation_rewards(a), 30);
    record(&mut state, c, invitee, 20, Some(b));
    let records = state.get_invitation_record(a);
    assert_eq!(records.len(), 1);
    assert_eq!(records[0].inviter, a);
    assert_eq!(records[0].invitee, invitee);
    assert_eq!(records[0].invited_at, 10);
    assert_eq!(state.get_user_invitation_rewards(a), 40);
    assert_eq!(state.get_invitation_stats(a).unwrap().total_invited, 1);
    assert_eq!(state.get_invitation_stats(a).unwrap().last_reward_time, Some(20));
    assert_eq!(state.get_invitation_stats(b), None);
    assert!(state.get_invitation_record(b).is_empty());
}

#[test]
fn repeat_event_without_inviter_rewards_first_inviter() {
    let mut state = GmState::create_empty();
    let (c, invitee, a) = (chain(1), who(1), who(2));
    record(&mut state, c, invitee, 10, Some(a));
    record(&mut state, c, invitee, 11, None);
    record(&mut state, c, invitee, 12, None);
    assert_eq!(state.get_user_invitation_rewards(a), 50);
    assert_eq!(state.get_invitation_stats(a).unwrap().total_invited, 1);
}

#[test]
fn first_referral_rewards_inviter() {
    let mut state = GmState::create_empty();
    let (c, a) = (chain(1), who(2));
    record(&mut state, c, who(10), 10, Some(a));
    record(&mut state, c, who(11), 11, Some(a));
    let stats = state.get_invitation_stats(a).unwrap();
    assert_eq!(stats.total_invited, 2);
    assert_eq!(stats.total_rewards, 60);
    let records = state.get_invitation_record(a);
    assert_eq!(records.len(), 2);
    assert_eq!(records[0].invitee, who(11));
    assert_eq!(records[1].invitee, who(10));
    assert!(records[0].rewarded);
    assert_eq!(records[0].rewarded_at, Some(11));
}

#[test]
fn self_referral_is_ignored() {
    let mut state = GmState::create_empty();
    let (c, i) = (chain(1), who(1));
    record(&mut state, c, i, 10, Some(i));
    assert_eq!(state.get_invitation_stats(i), None);
    assert_eq!(state.get_user_invitation_rewards(i), 0);
    assert!(state.get_invitation_record(i).is_empty());
    // With no record, a later inviter still counts as the first one.
    record(&mut state, c, i, 20, Some(who(2)));
    assert_eq!(state.get_user_invitation_rewards(who(2)), 30);
}

#[test]
fn cooldown_window() {
    let mut state = GmState::create_empty();
    let (c, admin, s) = (chain(1), who(100), who(1));
    state.set_owner(admin, who(101));
    assert!(state.set_cooldown_enabled(&admin, true));
    assert!(state.is_cooldown_enabled());
    assert_eq!(state.is_in_cooldown(c, &s, 5), (false, None));
    let t = 1_000_000;
    record(&mut state, c, s, t, None);
    assert_eq!(state.is_in_cooldown(c, &s, t), (true, Some(COOLDOWN_MICROS)));
    assert_eq!(state.is_in_cooldown(c, &s, t + 1_000), (true, Some(COOLDOWN_MICROS - 1_000)));
    assert_eq!(state.is_in_cooldown(c, &s, t + COOLDOWN_MICROS - 1), (true, Some(1)));
    assert_eq!(state.is_in_cooldown(c, &s, t + COOLDOWN_MICROS), (false, None));
    // Another chain keeps its own window.
    assert_eq!(state.is_in_cooldown(chain(2), &s, t + 1), (false, None));
}

#[test]
fn cooldown_disabled_never_blocks() {
    let mut state = GmState::create_empty();
    let (c, s) = (chain(1), who(1));
    record(&mut state, c, s, 1_000, None);
    assert_eq!(state.is_in_cooldown(c, &s, 1_001), (false, None));
}

#[test]
fn allow_list_is_exempt_and_administers() {
    let mut state = GmState::create_empty();
    let (c, admin, other) = (chain(1), who(100), who(5));
    assert!(!state.set_cooldown_enabled(&admin, true));
    assert!(!state.is_cooldown_enabled());
    state.set_owner(admin, who(101));
    assert!(state.is_whitelisted(&admin));
    assert!(state.is_whitelisted(&who(101)));
    assert!(state.set_cooldown_enabled(&who(101), true));
    record(&mut state, c, admin, 10, None);
    assert_eq!(state.is_in_cooldown(c, &admin, 11), (false, None));
    assert!(!state.add_whitelist(&other, other));
    assert!(!state.is_whitelisted(&other));
    assert!(state.add_whitelist(&admin, other));
    assert!(state.is_whitelisted(&other));
    assert!(state.remove_whitelist(&other, admin));
    assert!(!state.is_whitelisted(&admin));
    assert!(!state.set_cooldown_enabled(&admin, false));
    assert!(state.is_cooldown_enabled());
}

#[test]
fn top_users_served_from_cache_within_an_hour() {
    let mut state = GmState::create_empty();
    let c = chain(1);
    record(&mut state, c, who(1), 10, None);
    record(&mut state, c, who(2), 11, None);
    record(&mut state, c, who(2), 12, None);
    let now = 5_000_000_000;
    let first = state.get_top_users(10, now);
    assert_eq!(first, vec![(who(2), 2), (who(1), 1)]);
    record(&mut state, c, who(1), 13, None);
    record(&mut state, c, who(1), 14, None);
    let second = state.get_top_users(10, now + HOUR_MICROS - 1);
    assert_eq!(second, first);
    assert_eq!(state.get_top_users(1, now + 5), vec![(who(2), 2)]);
    let third = state.get_top_users(10, now + HOUR_MICROS);
    assert_eq!(third, vec![(who(1), 3), (who(2), 2)]);
}

#[test]
fn empty_cache_is_recomputed() {
    let mut state = GmState::create_empty();
    let c = chain(1);
    assert!(state.get_top_users(5, 100).is_empty());
    record(&mut state, c, who(3), 10, None);
    assert_eq!(state.get_top_users(5, 101), vec![(who(3), 1)]);
    assert_eq!(state.get_top_chains(5, 101), vec![(c, 1)]);
}

#[test]
fn equal_counts_keep_scan_order() {
    let mut state = GmState::create_empty();
    record(&mut state, chain(2), who(4), 10, None);
    record(&mut state, chain(1), who(3), 11, None);
    record(&mut state, chain(1), who(5), 12, None);
    assert_eq!(state.get_top_users(10, 0), vec![(who(4), 1), (who(3), 1), (who(5), 1)]);
    assert_eq!(state.get_top_chains(10, 0), vec![(chain(1), 2), (chain(2), 1)]);
    assert_eq!(state.get_user_rank(&who(4)), 1);
    assert_eq!(state.get_user_rank(&who(5)), 3);
    assert_eq!(state.get_user_rank(&who(9)), 0);
}

#[test]
fn bucket_range_fills_gaps() {
    let mut state = GmState::create_empty();
    let c = chain(1);
    record(&mut state, c, who(1), HOUR_MICROS + 5, None);
    record(&mut state, c, who(1), 3 * HOUR_MICROS, None);
    record(&mut state, c, who(2), 3 * HOUR_MICROS + 7, None);
    record(&mut state, chain(2), who(2), 3 * HOUR_MICROS + 7, None);
    let hours = state.get_hourly_stats(c, 0, 4);
    assert_eq!(hours, vec![(0, 0), (1, 1), (2, 0), (3, 2), (4, 0)]);
    assert_eq!(state.get_hourly_stats(c, 4, 2), vec![]);
    assert_eq!(state.get_daily_stats(c, 0, 1), vec![(0, 3), (1, 0)]);
    assert_eq!(state.get_monthly_stats(c, 0, 0), vec![(0, 3)]);
    assert_eq!(state.get_hourly_stats(c, u64::MAX, u64::MAX), vec![(u64::MAX, 0)]);
}

#[test]
fn message_trend_covers_period() {
    let mut state = GmState::create_empty();
    let c = chain(1);
    record(&mut state, c, who(1), DAY_MICROS + 1, None);
    record(&mut state, c, who(1), 3 * DAY_MICROS + 1, None);
    let now = 3 * DAY_MICROS + 500;
    assert_eq!(state.get_message_trend(c, 2, now), vec![(1, 1), (2, 0), (3, 1)]);
    assert_eq!(state.get_user_activity_trend(&who(1), 2, now), vec![(1, 1), (2, 0), (3, 1)]);
    assert_eq!(state.get_user_activity_trend(&who(2), 0, now), vec![(3, 0)]);
}

#[test]
fn profile_fields_last_write_wins() {
    let mut state = GmState::create_empty();
    let a = who(1);
    state.set_user_profile(&a, Some("alice".to_string()), None);
    state.set_user_profile(&a, None, Some("https://a/pic.png".to_string()));
    let p = state.get_user_profile(&a);
    assert_eq!(p.name, Some("alice".to_string()));
    assert_eq!(p.avatar, Some("https://a/pic.png".to_string()));
    state.set_user_profile(&a, Some("al".to_string()), None);
    assert_eq!(state.get_user_profile(&a).name, Some("al".to_string()));
}

#[test]
fn invitation_leaderboard() {
    let mut state = GmState::create_empty();
    let c = chain(1);
    record(&mut state, c, who(10), 1, Some(who(1)));
    record(&mut state, c, who(11), 2, Some(who(2)));
    record(&mut state, c, who(11), 3, None);
    assert_eq!(state.get_top_invitation_rewards(10), vec![(who(2), 40), (who(1), 30)]);
    assert_eq!(state.get_top_invitation_rewards(1), vec![(who(2), 40)]);
    assert_eq!(state.get_invitation_rank(&who(1)), 2);
    assert_eq!(state.get_invitation_rank(&who(2)), 1);
}

#[test]
fn stream_events_filtered_and_newest_first() {
    let mut state = GmState::create_empty();
    let (c, d) = (chain(1), chain(2));
    state.store_stream_event(c, 5, "a".to_string());
    state.store_stream_event(c, 9, "b".to_string());
    state.store_stream_event(d, 7, "c".to_string());
    assert_eq!(state.get_stream_events(c, None, None), vec!["b".to_string(), "a".to_string()]);
    assert_eq!(state.get_stream_events(c, Some(6), None), vec!["b".to_string()]);
    assert_eq!(state.get_stream_events(c, None, Some(1)), vec!["b".to_string()]);
    assert_eq!(state.get_latest_events(d, Some(7)), vec!["c".to_string()]);
    assert!(state.get_latest_events(d, Some(8)).is_empty());
}

#[test]
fn poll_sends_events_or_heartbeat() {
    let mut state = GmState::create_empty();
    let c = chain(1);
    assert_eq!(state.poll_notifications(c, None), Notifications::Heartbeat);
    state.store_stream_event(c, 5, "a".to_string());
    assert_eq!(state.poll_notifications(c, None), Notifications::Events(vec!["a".to_string()]));
    assert_eq!(state.poll_notifications(c, Some(6)), Notifications::Heartbeat);
}
