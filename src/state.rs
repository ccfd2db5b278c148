//! The aggregation engine: the whole state, and the one entry point that
//! records a greeting in every part of it at once.
use vstd::prelude::*;

use crate::buckets::{
    bucket_of, bucket_range, counted, is_bucket_range, TimeBuckets, DAY_MICROS, HOUR_MICROS,
    MONTH_MICROS,
};
use crate::cooldown::{check_cooldown, cooldown_status, CooldownConfig};
use crate::counters::Counters;
use crate::ids::{AccountOwner, ChainId, ChainIndex, ChainOwner};
use crate::keyed_map::{count_in, keys_of, KeyedMap};
use crate::leaderboard::{cache_fresh, is_cache_fresh, sorted_counts, LeaderboardCache};
use crate::message::MessageContent;
use crate::ranking::{insert_ranked, keep_prefix, lemma_sort_desc_take, prefix, rank_in, rank_of, sort_desc};
use crate::records::{InvitationRecord, InvitationStats, ReceivedEntry, SentEntry, UserProfile};
use crate::referral::{referral_applied, stats_in, ReferralLedger};
use crate::views::{event_appended, EventViews};

verus! {

/// Why an event was not recorded.
#[derive(Clone, Copy, Debug, PartialEq, Eq, Structural)]
pub enum RecordError {
    /// The event's timestamp is 0.
    InvalidTimestamp,
}

/// The state of the engine.
pub struct GmState {
    /// The account that set the engine up, once it has been.
    pub owner: Option<AccountOwner>,
    /// The time of the last event of each sender on each chain.
    pub last_gm: KeyedMap<ChainOwner, u64>,
    pub counters: Counters,
    pub views: EventViews,
    pub buckets: TimeBuckets,
    pub referrals: ReferralLedger,
    pub cooldown: CooldownConfig,
    pub leaderboard: LeaderboardCache,
    pub user_profiles: KeyedMap<AccountOwner, UserProfile>,
    /// Serialized events per chain, under the microsecond they happened at.
    pub stream_events: KeyedMap<ChainIndex, String>,
}

/// The time of the last event of `owner` on `chain`, where there was one.
pub open spec fn last_seen(m: Map<ChainOwner, u64>, chain: ChainId, owner: AccountOwner) -> Option<
    u64,
> {
    let k = ChainOwner { chain, owner };
    if m.contains_key(k) {
        Some(m[k])
    } else {
        None
    }
}

/// The profile of `a`, empty where it set none.
pub open spec fn profile_in(m: Map<AccountOwner, UserProfile>, a: AccountOwner) -> UserProfile {
    if m.contains_key(a) {
        m[a]
    } else {
        UserProfile { name: None, avatar: None }
    }
}

/// The first day of a trend over `period_days` days that ends on the day of `now`.
pub open spec fn trend_start(period_days: u32, now: u64) -> u64 {
    (now / DAY_MICROS - period_days) as u64
}

/// How many logged events of `user` fall on day `day`.
pub open spec fn activity_count(log: Seq<crate::records::LoggedEvent>, user: AccountOwner, day: u64) -> nat
    decreases log.len(),
{
    if log.len() == 0 {
        0
    } else {
        activity_count(log.drop_last(), user, day) + if log.last().sender == user
            && log.last().timestamp / DAY_MICROS == day {
            1nat
        } else {
            0nat
        }
    }
}

/// The records of the invitees of `inviter`, in the order of `s`.
pub open spec fn records_by(s: Seq<(AccountOwner, InvitationRecord)>, inviter: AccountOwner) -> Seq<
    InvitationRecord,
>
    decreases s.len(),
{
    if s.len() == 0 {
        Seq::empty()
    } else if s.last().1.inviter == inviter {
        records_by(s.drop_last(), inviter).push(s.last().1)
    } else {
        records_by(s.drop_last(), inviter)
    }
}

/// A rank as a `u32`, with `u32::MAX` for any rank beyond it.
pub open spec fn clamp_rank(rank: nat) -> u32 {
    if rank > u32::MAX {
        u32::MAX
    } else {
        rank as u32
    }
}

/// Each inviter with its reward points, in the order of `s`.
pub open spec fn reward_list(s: Seq<(AccountOwner, InvitationStats)>) -> Seq<(AccountOwner, u32)> {
    s.map_values(|e: (AccountOwner, InvitationStats)| (e.0, e.1.total_rewards))
}

/// The stream events of `chain` from `since` on (all of them where `since` is
/// none), each with its time, in the order of `s`.
pub open spec fn stream_items(s: Seq<(ChainIndex, String)>, chain: ChainId, since: Option<u64>) -> Seq<
    (u64, String),
>
    decreases s.len(),
{
    if s.len() == 0 {
        Seq::empty()
    } else {
        let e = s.last();
        let rest = stream_items(s.drop_last(), chain, since);
        if e.0.chain == chain && (since is None || e.0.index >= since->Some_0) {
            rest.push((e.0.index, e.1))
        } else {
            rest
        }
    }
}

/// The payloads of stream items.
pub open spec fn payloads(s: Seq<(u64, String)>) -> Seq<String> {
    s.map_values(|e: (u64, String)| e.1)
}

/// Whether `a` and `b` agree on everything but the leaderboard cache.
pub open spec fn same_but_cache(a: GmState, b: GmState) -> bool {
    &&& a.owner == b.owner
    &&& a.last_gm == b.last_gm
    &&& a.counters == b.counters
    &&& a.views == b.views
    &&& a.buckets == b.buckets
    &&& a.referrals == b.referrals
    &&& a.cooldown == b.cooldown
    &&& a.user_profiles == b.user_profiles
    &&& a.stream_events == b.stream_events
}

/// What a call of `get_top_users` with `limit` at `now` does: a cached list
/// less than an hour old that is not empty is served as it is; otherwise the
/// list is computed afresh from the counts and cached with `now`.
pub open spec fn top_users_served(
    before: GmState,
    after: GmState,
    limit: u32,
    now: u64,
    r: Seq<(AccountOwner, u64)>,
) -> bool {
    &&& same_but_cache(after, before)
    &&& if cache_fresh(before.leaderboard.generated_at, now)
        && before.leaderboard.top_identities@.len() > 0 {
        &&& r == prefix(before.leaderboard.top_identities@, limit as int)
        &&& after == before
    } else {
        &&& after.leaderboard.top_identities@ == sort_desc(before.counters.per_identity.entries())
        &&& after.leaderboard.generated_at == now
        &&& after.leaderboard.top_chains == before.leaderboard.top_chains
        &&& r == prefix(after.leaderboard.top_identities@, limit as int)
    }
}

/// Whether `a` and `b` agree on everything but the cooldown settings.
pub open spec fn same_but_cooldown(a: GmState, b: GmState) -> bool {
    &&& a.owner == b.owner
    &&& a.last_gm == b.last_gm
    &&& a.counters == b.counters
    &&& a.views == b.views
    &&& a.buckets == b.buckets
    &&& a.referrals == b.referrals
    &&& a.leaderboard == b.leaderboard
    &&& a.user_profiles == b.user_profiles
    &&& a.stream_events == b.stream_events
}

/// The state after an event with a timestamp other than 0: every part that
/// an event touches has taken it in, and nothing else has changed.
pub open spec fn event_recorded(
    before: GmState,
    after: GmState,
    chain_id: ChainId,
    sender: AccountOwner,
    recipient: Option<AccountOwner>,
    timestamp: u64,
    content: MessageContent,
    inviter: Option<AccountOwner>,
) -> bool {
    &&& after.last_gm@ == before.last_gm@.insert(ChainOwner { chain: chain_id, owner: sender }, timestamp)
    &&& event_appended(before.views, after.views, chain_id, sender, recipient, timestamp, content)
    &&& after.counters.total == before.counters.total + 1
    &&& after.counters.per_chain@ == before.counters.per_chain@.insert(
        chain_id,
        (count_in(before.counters.per_chain@, chain_id) + 1) as u64,
    )
    &&& after.counters.per_identity@ == before.counters.per_identity@.insert(
        sender,
        (count_in(before.counters.per_identity@, sender) + 1) as u64,
    )
    &&& keys_of(after.counters.per_chain.entries()) == if before.counters.per_chain@.contains_key(
        chain_id,
    ) {
        keys_of(before.counters.per_chain.entries())
    } else {
        keys_of(before.counters.per_chain.entries()).push(chain_id)
    }
    &&& keys_of(after.counters.per_identity.entries()) == if before.counters.per_identity@.contains_key(
        sender,
    ) {
        keys_of(before.counters.per_identity.entries())
    } else {
        keys_of(before.counters.per_identity.entries()).push(sender)
    }
    &&& referral_applied(before.referrals, after.referrals, sender, inviter, timestamp)
    &&& after.buckets.hourly@ == counted(before.buckets.hourly@, bucket_of(chain_id, timestamp, HOUR_MICROS))
    &&& after.buckets.daily@ == counted(before.buckets.daily@, bucket_of(chain_id, timestamp, DAY_MICROS))
    &&& after.buckets.monthly@ == counted(
        before.buckets.monthly@,
        bucket_of(chain_id, timestamp, MONTH_MICROS),
    )
    &&& after.owner == before.owner
    &&& after.cooldown == before.cooldown
    &&& after.leaderboard == before.leaderboard
    &&& after.user_profiles == before.user_profiles
    &&& after.stream_events == before.stream_events
}

/// A copy of a list of plain values.
fn copy_all<T: Copy>(v: &Vec<T>) -> (r: Vec<T>)
    ensures
        r@ == v@,
{
    let mut out: Vec<T> = Vec::new();
    let n = v.len();
    let mut i: usize = 0;
    while i < n
        invariant
            n == v@.len(),
            i <= n,
            out@ == v@.take(i as int),
        decreases n - i,
    {
        out.push(v[i]);
        assert(v@.take(i + 1) =~= v@.take(i as int).push(v@[i as int]));
        i = i + 1;
    }
    assert(v@.take(n as int) =~= v@);
    out
}

impl GmState {
    pub open spec fn wf(&self) -> bool {
        &&& self.last_gm.wf()
        &&& self.counters.wf()
        &&& self.views.wf()
        &&& self.buckets.wf(self.counters.total)
        &&& self.referrals.wf()
        &&& self.cooldown.wf()
        &&& self.user_profiles.wf()
        &&& self.stream_events.wf()
    }

    /// One more event fits: no counter and no reward total would overflow.
    pub open spec fn has_room(&self) -> bool {
        self.counters.total < u64::MAX && self.referrals.has_room()
    }

    /// An engine that has recorded nothing, with the cooldown off and an empty
    /// allow list.
    pub fn create_empty() -> (r: GmState)
        ensures
            r.wf(),
            r.owner is None,
            r.last_gm@ == Map::<ChainOwner, u64>::empty(),
            r.counters.total == 0,
            r.counters.per_chain@ == Map::<ChainId, u64>::empty(),
            r.counters.per_identity@ == Map::<AccountOwner, u64>::empty(),
            r.counters.per_chain.entries().len() == 0,
            r.counters.per_identity.entries().len() == 0,
            r.views.log@ == Seq::<crate::records::LoggedEvent>::empty(),
            forall|k: ChainOwner| r.views.sent_list(k) == Seq::<SentEntry>::empty(),
            forall|k: ChainOwner| r.views.received_list(k) == Seq::<ReceivedEntry>::empty(),
            r.buckets.hourly@ == Map::<ChainIndex, u64>::empty(),
            r.buckets.daily@ == Map::<ChainIndex, u64>::empty(),
            r.buckets.monthly@ == Map::<ChainIndex, u64>::empty(),
            r.referrals.records@ == Map::<AccountOwner, InvitationRecord>::empty(),
            r.referrals.stats@ == Map::<AccountOwner, InvitationStats>::empty(),
            r.referrals.records.entries().len() == 0,
            r.referrals.stats.entries().len() == 0,
            !r.cooldown.enabled,
            r.cooldown.allow_list@ == Map::<AccountOwner, bool>::empty(),
            r.leaderboard.top_identities@.len() == 0,
            r.leaderboard.top_chains@.len() == 0,
            r.leaderboard.generated_at == 0,
            r.user_profiles@ == Map::<AccountOwner, UserProfile>::empty(),
            r.stream_events@ == Map::<ChainIndex, String>::empty(),
            r.stream_events.entries().len() == 0,
    {
        GmState {
            owner: None,
            last_gm: KeyedMap::new(),
            counters: Counters::new(),
            views: EventViews::new(),
            buckets: TimeBuckets::new(),
            referrals: ReferralLedger::new(),
            cooldown: CooldownConfig::new(),
            leaderboard: LeaderboardCache::new(),
            user_profiles: KeyedMap::new(),
            stream_events: KeyedMap::new(),
        }
    }

    /// Records a greeting of `sender` on `chain_id`, with an optional recipient
    /// and an optional inviter, in every part of the state at once.
    ///
    /// A timestamp of 0 is refused with `InvalidTimestamp`, and then nothing
    /// changes.
    pub fn record_gm(
        &mut self,
        chain_id: ChainId,
        sender: AccountOwner,
        recipient: Option<AccountOwner>,
        timestamp: u64,
        content: MessageContent,
        inviter: Option<AccountOwner>,
    ) -> (r: Result<(), RecordError>)
        requires
            old(self).wf(),
            old(self).has_room(),
        ensures
            final(self).wf(),
            timestamp == 0 ==> r == Err::<(), RecordError>(RecordError::InvalidTimestamp) && *final(
                self) == *old(self),
            timestamp != 0 ==> r is Ok && event_recorded(
                *old(self),
                *final(self),
                chain_id,
                sender,
                recipient,
                timestamp,
                content,
                inviter,
            ),
    {
        if timestamp == 0 {
            return Err(RecordError::InvalidTimestamp);
        }
        let bound = self.counters.total;
        self.last_gm.insert(ChainOwner { chain: chain_id, owner: sender }, timestamp);
        self.views.record(chain_id, sender, recipient, timestamp, content);
        self.counters.record(chain_id, sender);
        self.referrals.apply(sender, inviter, timestamp);
        self.buckets.record(chain_id, timestamp, bound);
        Ok(())
    }

    /// Sets the owner, switches the cooldown off and puts the owner and
    /// `default_admin` on the allow list.
    pub fn set_owner(&mut self, owner: AccountOwner, default_admin: AccountOwner)
        requires
            old(self).wf(),
        ensures
            final(self).wf(),
            final(self).owner == Some(owner),
            !final(self).cooldown.enabled,
            final(self).cooldown.allow_list@ == old(self).cooldown.allow_list@.insert(
                default_admin,
                true,
            ).insert(owner, true),
            final(self).last_gm == old(self).last_gm,
            final(self).counters == old(self).counters,
            final(self).views == old(self).views,
            final(self).buckets == old(self).buckets,
            final(self).referrals == old(self).referrals,
            final(self).leaderboard == old(self).leaderboard,
            final(self).user_profiles == old(self).user_profiles,
            final(self).stream_events == old(self).stream_events,
    {
        self.owner = Some(owner);
        self.cooldown.enabled = false;
        self.cooldown.allow_list.insert(default_admin, true);
        self.cooldown.allow_list.insert(owner, true);
    }

    pub fn is_cooldown_enabled(&self) -> (r: bool)
        ensures
            r == self.cooldown.enabled,
    {
        self.cooldown.enabled
    }

    /// Whether `address` is on the allow list. Membership both exempts an
    /// identity from the cooldown and lets it administer the cooldown.
    pub fn is_whitelisted(&self, address: &AccountOwner) -> (r: bool)
        requires
            self.wf(),
        ensures
            r == self.cooldown.authorized(*address),
    {
        self.cooldown.is_authorized(address)
    }

    /// Switches the cooldown on or off, where `caller` is on the allow list.
    pub fn set_cooldown_enabled(&mut self, caller: &AccountOwner, enabled: bool) -> (granted: bool)
        requires
            old(self).wf(),
        ensures
            final(self).wf(),
            granted == old(self).cooldown.authorized(*caller),
            granted ==> final(self).cooldown.enabled == enabled && final(self).cooldown.allow_list
                == old(self).cooldown.allow_list && same_but_cooldown(*final(self), *old(self)),
            !granted ==> *final(self) == *old(self),
    {
        if !self.is_whitelisted(caller) {
            return false;
        }
        self.cooldown.enabled = enabled;
        true
    }

    /// Puts `address` on the allow list, where `caller` is on it.
    pub fn add_whitelist(&mut self, caller: &AccountOwner, address: AccountOwner) -> (granted: bool)
        requires
            old(self).wf(),
        ensures
            final(self).wf(),
            granted == old(self).cooldown.authorized(*caller),
            granted ==> final(self).cooldown.allow_list@ == old(self).cooldown.allow_list@.insert(
                address,
                true,
            ) && final(self).cooldown.enabled == old(self).cooldown.enabled && same_but_cooldown(
                *final(self),
                *old(self),
            ),
            !granted ==> *final(self) == *old(self),
    {
        if !self.is_whitelisted(caller) {
            return false;
        }
        self.cooldown.allow_list.insert(address, true);
        true
    }

    /// Takes `address` off the allow list, where `caller` is on it.
    pub fn remove_whitelist(&mut self, caller: &AccountOwner, address: AccountOwner) -> (granted: bool)
        requires
            old(self).wf(),
        ensures
            final(self).wf(),
            granted == old(self).cooldown.authorized(*caller),
            granted ==> final(self).cooldown.allow_list@ == old(self).cooldown.allow_list@.remove(
                address,
            ) && final(self).cooldown.enabled == old(self).cooldown.enabled && same_but_cooldown(
                *final(self),
                *old(self),
            ),
            !granted ==> *final(self) == *old(self),
    {
        if !self.is_whitelisted(caller) {
            return false;
        }
        self.cooldown.allow_list.remove(&address);
        true
    }

    /// Whether `sender` is blocked on `chain_id` at `current_time`, and for
    /// how many more microseconds.
    pub fn is_in_cooldown(&self, chain_id: ChainId, sender: &AccountOwner, current_time: u64) -> (r: (
        bool,
        Option<u64>,
    ))
        requires
            self.wf(),
        ensures
            r == cooldown_status(
                self.cooldown.enabled,
                self.cooldown.authorized(*sender),
                last_seen(self.last_gm@, chain_id, *sender),
                current_time,
            ),
    {
        let exempt = self.is_whitelisted(sender);
        let last = self.get_last_gm(chain_id, sender);
        check_cooldown(self.cooldown.enabled, exempt, last, current_time)
    }

    pub fn get_total_messages(&self) -> (r: u64)
        ensures
            r == self.counters.total,
    {
        self.counters.total
    }

    /// The number of events on `chain_id`, 0 where there were none.
    pub fn get_chain_messages(&self, chain_id: &ChainId) -> (r: u64)
        requires
            self.wf(),
        ensures
            r == count_in(self.counters.per_chain@, *chain_id),
    {
        self.counters.per_chain.count(chain_id)
    }

    /// The number of events sent by `owner`, 0 where there were none.
    pub fn get_wallet_messages(&self, owner: &AccountOwner) -> (r: u64)
        requires
            self.wf(),
        ensures
            r == count_in(self.counters.per_identity@, *owner),
    {
        self.counters.per_identity.count(owner)
    }

    /// The time of the last event of `owner` on `chain_id`.
    pub fn get_last_gm(&self, chain_id: ChainId, owner: &AccountOwner) -> (r: Option<u64>)
        requires
            self.wf(),
        ensures
            r == last_seen(self.last_gm@, chain_id, *owner),
    {
        match self.last_gm.get(&ChainOwner { chain: chain_id, owner: *owner }) {
            Some(t) => Some(*t),
            None => None,
        }
    }

    /// The events that `sender` sent on `chain_id`, newest first.
    pub fn get_events(&self, chain_id: ChainId, sender: &AccountOwner) -> (r: Vec<SentEntry>)
        requires
            self.wf(),
        ensures
            r@ == self.views.sent_list(ChainOwner { chain: chain_id, owner: *sender }),
    {
        let mut out: Vec<SentEntry> = Vec::new();
        match self.views.sent.get(&ChainOwner { chain: chain_id, owner: *sender }) {
            Some(list) => {
                let n = list.len();
                let mut i: usize = 0;
                while i < n
                    invariant
                        n == list@.len(),
                        i <= n,
                        out@ == list@.take(i as int),
                    decreases n - i,
                {
                    let e = &list[i];
                    out.push(SentEntry { recipient: e.recipient, timestamp: e.timestamp, content: e.content.duplicate() });
                    assert(list@.take(i + 1) =~= list@.take(i as int).push(list@[i as int]));
                    i = i + 1;
                }
                assert(list@.take(n as int) =~= list@);
            },
            None => {},
        }
        out
    }

    /// The events that `recipient` received on `chain_id`, newest first.
    pub fn get_received_events(&self, chain_id: ChainId, recipient: &AccountOwner) -> (r: Vec<
        ReceivedEntry,
    >)
        requires
            self.wf(),
        ensures
            r@ == self.views.received_list(ChainOwner { chain: chain_id, owner: *recipient }),
    {
        let mut out: Vec<ReceivedEntry> = Vec::new();
        match self.views.received.get(&ChainOwner { chain: chain_id, owner: *recipient }) {
            Some(list) => {
                let n = list.len();
                let mut i: usize = 0;
                while i < n
                    invariant
                        n == list@.len(),
                        i <= n,
                        out@ == list@.take(i as int),
                    decreases n - i,
                {
                    let e = &list[i];
                    out.push(ReceivedEntry { sender: e.sender, timestamp: e.timestamp, content: e.content.duplicate() });
                    assert(list@.take(i + 1) =~= list@.take(i as int).push(list@[i as int]));
                    i = i + 1;
                }
                assert(list@.take(n as int) =~= list@);
            },
            None => {},
        }
        out
    }

    /// The event counts of the hours `start_hour..=end_hour` on `chain_id`.
    pub fn get_hourly_stats(&self, chain_id: ChainId, start_hour: u64, end_hour: u64) -> (r: Vec<
        (u64, u64),
    >)
        requires
            self.wf(),
        ensures
            is_bucket_range(r@, self.buckets.hourly@, chain_id, start_hour, end_hour),
    {
        bucket_range(&self.buckets.hourly, chain_id, start_hour, end_hour)
    }

    /// The event counts of the days `start_day..=end_day` on `chain_id`.
    pub fn get_daily_stats(&self, chain_id: ChainId, start_day: u64, end_day: u64) -> (r: Vec<
        (u64, u64),
    >)
        requires
            self.wf(),
        ensures
            is_bucket_range(r@, self.buckets.daily@, chain_id, start_day, end_day),
    {
        bucket_range(&self.buckets.daily, chain_id, start_day, end_day)
    }

    /// The event counts of the months `start_month..=end_month` on `chain_id`.
    pub fn get_monthly_stats(&self, chain_id: ChainId, start_month: u64, end_month: u64) -> (r: Vec<
        (u64, u64),
    >)
        requires
            self.wf(),
        ensures
            is_bucket_range(r@, self.buckets.monthly@, chain_id, start_month, end_month),
    {
        bucket_range(&self.buckets.monthly, chain_id, start_month, end_month)
    }

    /// The daily counts on `chain_id` over the `period_days` days before the
    /// day of `current_time`, and that day itself.
    pub fn get_message_trend(&self, chain_id: ChainId, period_days: u32, current_time: u64) -> (r: Vec<
        (u64, u64),
    >)
        requires
            self.wf(),
            period_days <= current_time / DAY_MICROS,
        ensures
            is_bucket_range(
                r@,
                self.buckets.daily@,
                chain_id,
                trend_start(period_days, current_time),
                current_time / DAY_MICROS,
            ),
    {
        let end_day = current_time / DAY_MICROS;
        let start_day = end_day - period_days as u64;
        self.get_daily_stats(chain_id, start_day, end_day)
    }

    /// The top `limit` identities by message count.
    ///
    /// A cached list less than an hour old that is not empty is served as it
    /// is. Otherwise the list is computed afresh from the counts, with equal
    /// counts in the order of the count map, and cached with `current_time`.
    pub fn get_top_users(&mut self, limit: u32, current_time: u64) -> (r: Vec<(AccountOwner, u64)>)
        requires
            old(self).wf(),
        ensures
            final(self).wf(),
            top_users_served(*old(self), *final(self), limit, current_time, r@),
    {
        if is_cache_fresh(self.leaderboard.generated_at, current_time)
            && self.leaderboard.top_identities.len() > 0 {
            let mut out = copy_all(&self.leaderboard.top_identities);
            keep_prefix(&mut out, limit);
            return out;
        }
        let sorted = sorted_counts(&self.counters.per_identity);
        let mut out = copy_all(&sorted);
        keep_prefix(&mut out, limit);
        self.leaderboard.top_identities = sorted;
        self.leaderboard.generated_at = current_time;
        out
    }

    /// The top `limit` chains by message count, served from the cache as
    /// `get_top_users` is.
    pub fn get_top_chains(&mut self, limit: u32, current_time: u64) -> (r: Vec<(ChainId, u64)>)
        requires
            old(self).wf(),
        ensures
            final(self).wf(),
            same_but_cache(*final(self), *old(self)),
            if cache_fresh(old(self).leaderboard.generated_at, current_time)
                && old(self).leaderboard.top_chains@.len() > 0 {
                &&& r@ == prefix(old(self).leaderboard.top_chains@, limit as int)
                &&& *final(self) == *old(self)
            } else {
                &&& final(self).leaderboard.top_chains@ == sort_desc(
                    old(self).counters.per_chain.entries(),
                )
                &&& final(self).leaderboard.generated_at == current_time
                &&& final(self).leaderboard.top_identities == old(self).leaderboard.top_identities
                &&& r@ == prefix(final(self).leaderboard.top_chains@, limit as int)
            },
    {
        if is_cache_fresh(self.leaderboard.generated_at, current_time)
            && self.leaderboard.top_chains.len() > 0 {
            let mut out = copy_all(&self.leaderboard.top_chains);
            keep_prefix(&mut out, limit);
            return out;
        }
        let sorted = sorted_counts(&self.counters.per_chain);
        let mut out = copy_all(&sorted);
        keep_prefix(&mut out, limit);
        self.leaderboard.top_chains = sorted;
        self.leaderboard.generated_at = current_time;
        out
    }

    /// The 1-based rank of `user` by message count, computed afresh; 0 for an
    /// identity that sent nothing.
    /// A rank past `u32::MAX` reads as `u32::MAX`.
    pub fn get_user_rank(&self, user: &AccountOwner) -> (r: u32)
        requires
            self.wf(),
        ensures
            r == clamp_rank(rank_of(sort_desc(self.counters.per_identity.entries()), *user)),
    {
        let sorted = sorted_counts(&self.counters.per_identity);
        let rank = rank_in(&sorted, user);
        if rank > u32::MAX as usize {
            u32::MAX
        } else {
            rank as u32
        }
    }

    /// The reward points of `user`, 0 where it has none.
    pub fn get_user_invitation_rewards(&self, user: AccountOwner) -> (r: u32)
        requires
            self.wf(),
        ensures
            r == stats_in(self.referrals.stats@, user).total_rewards,
    {
        match self.referrals.stats.get(&user) {
            Some(s) => s.total_rewards,
            None => 0,
        }
    }

    /// The referral stats of `user`, where it has any.
    pub fn get_invitation_stats(&self, user: AccountOwner) -> (r: Option<InvitationStats>)
        requires
            self.wf(),
        ensures
            r == (if self.referrals.stats@.contains_key(user) {
                Some(self.referrals.stats@[user])
            } else {
                None
            }),
    {
        match self.referrals.stats.get(&user) {
            Some(s) => Some(*s),
            None => None,
        }
    }

    /// The records of the invitees of `inviter`, the latest invited first.
    pub fn get_invitation_record(&self, inviter: AccountOwner) -> (r: Vec<InvitationRecord>)
        requires
            self.wf(),
        ensures
            r@ == sort_desc(records_by(self.referrals.records.entries(), inviter)),
    {
        let m = &self.referrals.records;
        let mut out: Vec<InvitationRecord> = Vec::new();
        let n = m.len();
        let mut i: usize = 0;
        while i < n
            invariant
                n == m.entries().len(),
                i <= n,
                out@ == sort_desc(records_by(m.entries().take(i as int), inviter)),
            decreases n - i,
        {
            let e = *m.entry_at(i);
            let ghost s = m.entries().take(i + 1);
            assert(s.drop_last() =~= m.entries().take(i as int));
            if e.1.inviter == inviter {
                assert(records_by(s, inviter).drop_last() =~= records_by(m.entries().take(i as int), inviter));
                insert_ranked(&mut out, e.1);
            }
            i = i + 1;
        }
        assert(m.entries().take(n as int) =~= m.entries());
        out
    }

    /// Every inviter with its reward points, sorted by points with the largest
    /// first; equal points keep the order of the stats map.
    fn sorted_rewards(&self) -> (r: Vec<(AccountOwner, u32)>)
        requires
            self.wf(),
        ensures
            r@ == sort_desc(reward_list(self.referrals.stats.entries())),
    {
        let m = &self.referrals.stats;
        let mut out: Vec<(AccountOwner, u32)> = Vec::new();
        let n = m.len();
        let mut i: usize = 0;
        while i < n
            invariant
                n == m.entries().len(),
                i <= n,
                out@ == sort_desc(reward_list(m.entries().take(i as int))),
            decreases n - i,
        {
            let e = *m.entry_at(i);
            proof {
                assert(reward_list(m.entries().take(i + 1)) =~= reward_list(
                    m.entries().take(i as int),
                ).push((e.0, e.1.total_rewards)));
                lemma_sort_desc_take(reward_list(m.entries().take(i + 1)), i as int);
                assert(reward_list(m.entries().take(i + 1)).take(i + 1) =~= reward_list(
                    m.entries().take(i + 1),
                ));
                assert(reward_list(m.entries().take(i + 1)).take(i as int) =~= reward_list(
                    m.entries().take(i as int),
                ));
            }
            insert_ranked(&mut out, (e.0, e.1.total_rewards));
            i = i + 1;
        }
        assert(m.entries().take(n as int) =~= m.entries());
        out
    }

    /// The top `limit` inviters by reward points.
    pub fn get_top_invitation_rewards(&self, limit: u32) -> (r: Vec<(AccountOwner, u32)>)
        requires
            self.wf(),
        ensures
            r@ == prefix(sort_desc(reward_list(self.referrals.stats.entries())), limit as int),
    {
        let mut out = self.sorted_rewards();
        keep_prefix(&mut out, limit);
        out
    }

    /// The 1-based rank of `user` by reward points, computed afresh; 0 for an
    /// identity without stats.
    /// A rank past `u32::MAX` reads as `u32::MAX`.
    pub fn get_invitation_rank(&self, user: &AccountOwner) -> (r: u32)
        requires
            self.wf(),
        ensures
            r == clamp_rank(rank_of(sort_desc(reward_list(self.referrals.stats.entries())), *user)),
    {
        let sorted = self.sorted_rewards();
        let rank = rank_in(&sorted, user);
        if rank > u32::MAX as usize {
            u32::MAX
        } else {
            rank as u32
        }
    }

    /// The profile of `user`, empty where it set none.
    pub fn get_user_profile(&self, user: &AccountOwner) -> (r: UserProfile)
        requires
            self.wf(),
        ensures
            r == profile_in(self.user_profiles@, *user),
    {
        match self.user_profiles.get(user) {
            Some(p) => p.duplicate(),
            None => UserProfile { name: None, avatar: None },
        }
    }

    /// Sets the fields of the profile of `user` that are given; the others
    /// keep their values.
    pub fn set_user_profile(&mut self, user: &AccountOwner, name: Option<String>, avatar: Option<String>)
        requires
            old(self).wf(),
        ensures
            final(self).wf(),
            final(self).user_profiles@ == old(self).user_profiles@.insert(
                *user,
                UserProfile {
                    name: if name is Some {
                        name
                    } else {
                        profile_in(old(self).user_profiles@, *user).name
                    },
                    avatar: if avatar is Some {
                        avatar
                    } else {
                        profile_in(old(self).user_profiles@, *user).avatar
                    },
                },
            ),
            final(self).owner == old(self).owner,
            final(self).last_gm == old(self).last_gm,
            final(self).counters == old(self).counters,
            final(self).views == old(self).views,
            final(self).buckets == old(self).buckets,
            final(self).referrals == old(self).referrals,
            final(self).cooldown == old(self).cooldown,
            final(self).leaderboard == old(self).leaderboard,
            final(self).stream_events == old(self).stream_events,
    {
        let mut profile = self.get_user_profile(user);
        if let Some(n) = name {
            profile.name = Some(n);
        }
        if let Some(a) = avatar {
            profile.avatar = Some(a);
        }
        self.user_profiles.insert(*user, profile);
    }

    /// How many events `user` sent on each day `day_from..=day_to`, on any chain.
    fn activity_by_day(&self, user: &AccountOwner, day_from: u64, day_to: u64) -> (r: Vec<(u64, u64)>)
        requires
            day_from <= day_to,
        ensures
            r@.len() == day_to - day_from + 1,
            forall|i: int|
                0 <= i < r@.len() ==> #[trigger] r@[i] == ((day_from + i) as u64, activity_count(
                    self.views.log@,
                    *user,
                    (day_from + i) as u64,
                ) as u64),
    {
        let log = &self.views.log;
        let mut out: Vec<(u64, u64)> = Vec::new();
        let mut day: u64 = day_from;
        loop
            invariant_except_break
                day_from <= day <= day_to,
                out@.len() == day - day_from,
            invariant
                day_from <= day_to,
                forall|i: int|
                    0 <= i < out@.len() ==> #[trigger] out@[i] == ((day_from + i) as u64, activity_count(
                        log@,
                        *user,
                        (day_from + i) as u64,
                    ) as u64),
            ensures
                out@.len() == day_to - day_from + 1,
            decreases day_to - day,
        {
            let n = log.len();
            let mut count: u64 = 0;
            let mut i: usize = 0;
            while i < n
                invariant
                    n == log@.len(),
                    i <= n,
                    count == activity_count(log@.take(i as int), *user, day),
                    count <= i,
                decreases n - i,
            {
                let ghost s = log@.take(i + 1);
                assert(s.drop_last() =~= log@.take(i as int));
                let e = &log[i];
                if e.sender == *user && e.timestamp / DAY_MICROS == day {
                    count = count + 1;
                }
                i = i + 1;
            }
            assert(log@.take(n as int) =~= log@);
            out.push((day, count));
            if day == day_to {
                break;
            }
            day = day + 1;
        }
        out
    }

    /// How many events `user` sent on each day over the `period_days` days
    /// before the day of `current_time`, and on that day itself.
    pub fn get_user_activity_trend(&self, user: &AccountOwner, period_days: u32, current_time: u64) -> (r: Vec<
        (u64, u64),
    >)
        requires
            period_days <= current_time / DAY_MICROS,
        ensures
            r@.len() == period_days + 1,
            forall|i: int|
                0 <= i < r@.len() ==> #[trigger] r@[i] == (
                    (trend_start(period_days, current_time) + i) as u64,
                    activity_count(
                        self.views.log@,
                        *user,
                        (trend_start(period_days, current_time) + i) as u64,
                    ) as u64,
                ),
    {
        let end_day = current_time / DAY_MICROS;
        let start_day = end_day - period_days as u64;
        self.activity_by_day(user, start_day, end_day)
    }

    /// Stores a serialized event of `chain_id` under the microsecond it happened at.
    pub fn store_stream_event(&mut self, chain_id: ChainId, timestamp: u64, payload: String)
        requires
            old(self).wf(),
        ensures
            final(self).wf(),
            final(self).stream_events@ == old(self).stream_events@.insert(
                ChainIndex { chain: chain_id, index: timestamp },
                payload,
            ),
            final(self).owner == old(self).owner,
            final(self).last_gm == old(self).last_gm,
            final(self).counters == old(self).counters,
            final(self).views == old(self).views,
            final(self).buckets == old(self).buckets,
            final(self).referrals == old(self).referrals,
            final(self).cooldown == old(self).cooldown,
            final(self).leaderboard == old(self).leaderboard,
            final(self).user_profiles == old(self).user_profiles,
    {
        self.stream_events.insert(ChainIndex { chain: chain_id, index: timestamp }, payload);
    }

    /// The stored events of `chain_id` from `since_timestamp` on, newest first,
    /// at most `limit` of them (100 where no limit is given).
    pub fn get_stream_events(&self, chain_id: ChainId, since_timestamp: Option<u64>, limit: Option<u32>) -> (r: Vec<String>)
        requires
            self.wf(),
        ensures
            r@ == payloads(
                prefix(
                    sort_desc(stream_items(self.stream_events.entries(), chain_id, since_timestamp)),
                    if limit is Some {
                        limit->Some_0 as int
                    } else {
                        100
                    },
                ),
            ),
    {
        let limit = match limit {
            Some(l) => l,
            None => 100,
        };
        let m = &self.stream_events;
        let mut items: Vec<(u64, String)> = Vec::new();
        let n = m.len();
        let mut i: usize = 0;
        while i < n
            invariant
                n == m.entries().len(),
                i <= n,
                items@ == sort_desc(stream_items(m.entries().take(i as int), chain_id, since_timestamp)),
            decreases n - i,
        {
            let e = m.entry_at(i);
            let ghost s = m.entries().take(i + 1);
            assert(s.drop_last() =~= m.entries().take(i as int));
            let wanted = match since_timestamp {
                Some(since) => e.0.index >= since,
                None => true,
            };
            if e.0.chain == chain_id && wanted {
                assert(stream_items(s, chain_id, since_timestamp).drop_last() =~= stream_items(
                    m.entries().take(i as int),
                    chain_id,
                    since_timestamp,
                ));
                insert_ranked(&mut items, (e.0.index, e.1.clone()));
            }
            i = i + 1;
        }
        assert(m.entries().take(n as int) =~= m.entries());
        keep_prefix(&mut items, limit);
        let mut out: Vec<String> = Vec::new();
        let k = items.len();
        let mut j: usize = 0;
        while j < k
            invariant
                k == items@.len(),
                j <= k,
                out@ == payloads(items@.take(j as int)),
            decreases k - j,
        {
            out.push(items[j].1.clone());
            assert(payloads(items@.take(j + 1)) =~= payloads(items@.take(j as int)).push(items@[j as int].1));
            j = j + 1;
        }
        assert(items@.take(k as int) =~= items@);
        out
    }

    /// The 50 newest stored events of `chain_id` from `last_known_timestamp` on.
    pub fn get_latest_events(&self, chain_id: ChainId, last_known_timestamp: Option<u64>) -> (r: Vec<String>)
        requires
            self.wf(),
        ensures
            r@ == payloads(
                prefix(
                    sort_desc(stream_items(self.stream_events.entries(), chain_id, last_known_timestamp)),
                    50,
                ),
            ),
    {
        self.get_stream_events(chain_id, last_known_timestamp, Some(50))
    }

}

} // verus!
