//! Properties of the engine that span several calls or every state.
use vstd::prelude::*;

use crate::cooldown::{cooldown_status, COOLDOWN_MICROS};
use crate::ids::{AccountOwner, ChainId, ChainOwner};
use crate::keyed_map::{count_in, lemma_entries_agree, lemma_lookup_some, lookup};
use crate::leaderboard::cache_fresh;
use crate::message::MessageContent;
use crate::ranking::{lemma_sort_desc_sorted, prefix, sort_desc, sorted_desc};
use crate::records::{InvitationStats, UserProfile};
use crate::referral::{referral_applied, stats_in, FIRST_REWARD, REPEAT_REWARD};
use crate::state::{event_recorded, last_seen, profile_in, top_users_served, GmState};

verus! {

/// Recording an event adds exactly one to the total, to the count of its
/// chain and to the count of its sender, and leaves every other count as it was.
pub proof fn law_event_counts_once(
    before: GmState,
    after: GmState,
    chain_id: ChainId,
    sender: AccountOwner,
    recipient: Option<AccountOwner>,
    timestamp: u64,
    content: MessageContent,
    inviter: Option<AccountOwner>,
)
    requires
        before.wf(),
        before.has_room(),
        event_recorded(before, after, chain_id, sender, recipient, timestamp, content, inviter),
    ensures
        after.counters.total == before.counters.total + 1,
        count_in(after.counters.per_chain@, chain_id) == count_in(
            before.counters.per_chain@,
            chain_id,
        ) + 1,
        count_in(after.counters.per_identity@, sender) == count_in(
            before.counters.per_identity@,
            sender,
        ) + 1,
        forall|c: ChainId|
            c != chain_id ==> #[trigger] count_in(after.counters.per_chain@, c) == count_in(
                before.counters.per_chain@,
                c,
            ),
        forall|a: AccountOwner|
            a != sender ==> #[trigger] count_in(after.counters.per_identity@, a) == count_in(
                before.counters.per_identity@,
                a,
            ),
{
}

/// A key that was never written reads as the documented default: no count,
/// no last event, no events sent or received, an empty profile and zero
/// referral stats.
pub proof fn law_absence_is_default(s: GmState, chain_id: ChainId, a: AccountOwner)
    requires
        !s.counters.per_chain@.contains_key(chain_id),
        !s.counters.per_identity@.contains_key(a),
        !s.last_gm@.contains_key(ChainOwner { chain: chain_id, owner: a }),
        !s.views.sent@.contains_key(ChainOwner { chain: chain_id, owner: a }),
        !s.views.received@.contains_key(ChainOwner { chain: chain_id, owner: a }),
        !s.user_profiles@.contains_key(a),
        !s.referrals.stats@.contains_key(a),
    ensures
        count_in(s.counters.per_chain@, chain_id) == 0,
        count_in(s.counters.per_identity@, a) == 0,
        last_seen(s.last_gm@, chain_id, a) is None,
        s.views.sent_list(ChainOwner { chain: chain_id, owner: a }).len() == 0,
        s.views.received_list(ChainOwner { chain: chain_id, owner: a }).len() == 0,
        profile_in(s.user_profiles@, a) == (UserProfile { name: None, avatar: None }),
        stats_in(s.referrals.stats@, a) == InvitationStats::zero(),
{
}

/// The first inviter is permanent: after an invitee was attributed to `first`,
/// a later event that names another inviter leaves the attribution alone and
/// earns `first`, not the other inviter, the repeat reward.
pub proof fn law_first_inviter_keeps_invitee(
    s0: GmState,
    s1: GmState,
    s2: GmState,
    invitee: AccountOwner,
    first: AccountOwner,
    second: AccountOwner,
    t1: u64,
    t2: u64,
)
    requires
        !s0.referrals.records@.contains_key(invitee),
        first != invitee,
        second != first,
        referral_applied(s0.referrals, s1.referrals, invitee, Some(first), t1),
        s1.referrals.has_room(),
        referral_applied(s1.referrals, s2.referrals, invitee, Some(second), t2),
    ensures
        s2.referrals.records@.contains_key(invitee),
        s2.referrals.records@[invitee].inviter == first,
        stats_in(s2.referrals.stats@, first).total_rewards == stats_in(
            s1.referrals.stats@,
            first,
        ).total_rewards + REPEAT_REWARD,
        stats_in(s2.referrals.stats@, second) == stats_in(s1.referrals.stats@, second),
{
    assert(s1.referrals.records@.contains_key(invitee));
}

/// A new invitee that names another identity as inviter earns it the first
/// reward and one more invitee.
pub proof fn law_first_referral_rewards(
    before: GmState,
    after: GmState,
    invitee: AccountOwner,
    inviter: AccountOwner,
    at: u64,
)
    requires
        !before.referrals.records@.contains_key(invitee),
        inviter != invitee,
        before.referrals.has_room(),
        referral_applied(before.referrals, after.referrals, invitee, Some(inviter), at),
    ensures
        after.referrals.records@.contains_key(invitee),
        after.referrals.records@[invitee].inviter == inviter,
        stats_in(after.referrals.stats@, inviter).total_invited == stats_in(
            before.referrals.stats@,
            inviter,
        ).total_invited + 1,
        stats_in(after.referrals.stats@, inviter).total_rewards == stats_in(
            before.referrals.stats@,
            inviter,
        ).total_rewards + FIRST_REWARD,
{
}

/// An invitee that names itself on its first event gets no record, and nobody
/// earns anything.
pub proof fn law_self_referral_ignored(before: GmState, after: GmState, invitee: AccountOwner, at: u64)
    requires
        !before.referrals.records@.contains_key(invitee),
        referral_applied(before.referrals, after.referrals, invitee, Some(invitee), at),
    ensures
        !after.referrals.records@.contains_key(invitee),
        after.referrals.records@ == before.referrals.records@,
        after.referrals.stats@ == before.referrals.stats@,
{
}

/// With the cooldown on, a sender that is not on the allow list and has never
/// sent on a chain is not blocked there. Once it has sent at `t`, it is
/// blocked, with time left, until 24 hours have passed, and no longer then.
pub proof fn law_cooldown_window(
    before: GmState,
    after: GmState,
    chain_id: ChainId,
    sender: AccountOwner,
    recipient: Option<AccountOwner>,
    t: u64,
    content: MessageContent,
    inviter: Option<AccountOwner>,
    now: u64,
)
    requires
        before.cooldown.enabled,
        !before.cooldown.authorized(sender),
        last_seen(before.last_gm@, chain_id, sender) is None,
        event_recorded(before, after, chain_id, sender, recipient, t, content, inviter),
    ensures
        cooldown_status(true, false, last_seen(before.last_gm@, chain_id, sender), now) == (
            false,
            None::<u64>,
        ),
        last_seen(after.last_gm@, chain_id, sender) == Some(t),
        after.cooldown.enabled && !after.cooldown.authorized(sender),
        t <= now < t + COOLDOWN_MICROS ==> {
            let status = cooldown_status(true, false, last_seen(after.last_gm@, chain_id, sender), now);
            status.0 && status.1 is Some && status.1->Some_0 > 0
        },
        now == t + COOLDOWN_MICROS ==> cooldown_status(
            true,
            false,
            last_seen(after.last_gm@, chain_id, sender),
            now,
        ) == (false, None::<u64>),
{
}

/// Two top lists asked for with nothing recorded in between, the second while
/// the list cached after the first is less than an hour old, are the same.
/// A list that is computed afresh reflects the counts of the moment.
pub proof fn law_top_users_cached(
    s0: GmState,
    s1: GmState,
    s2: GmState,
    limit: u32,
    t1: u64,
    t2: u64,
    r1: Seq<(AccountOwner, u64)>,
    r2: Seq<(AccountOwner, u64)>,
)
    requires
        top_users_served(s0, s1, limit, t1, r1),
        top_users_served(s1, s2, limit, t2, r2),
        cache_fresh(s1.leaderboard.generated_at, t2),
    ensures
        r1 == r2,
        !(cache_fresh(s0.leaderboard.generated_at, t1) && s0.leaderboard.top_identities@.len() > 0)
            ==> r1 == prefix(sort_desc(s0.counters.per_identity.entries()), limit as int),
{
}

/// A top list computed afresh is sorted by count, largest first, and lists
/// each identity that sent anything exactly with its current count.
pub proof fn law_fresh_top_list_reflects_counts(s: GmState)
    requires
        s.wf(),
    ensures
        sorted_desc(sort_desc(s.counters.per_identity.entries())),
        forall|i: int|
            0 <= i < sort_desc(s.counters.per_identity.entries()).len() ==> {
                let e = #[trigger] sort_desc(s.counters.per_identity.entries())[i];
                s.counters.per_identity@.contains_key(e.0) && s.counters.per_identity@[e.0] == e.1
            },
        forall|a: AccountOwner| #[trigger]
            s.counters.per_identity@.contains_key(a) ==> exists|i: int|
                0 <= i < sort_desc(s.counters.per_identity.entries()).len() && #[trigger] sort_desc(
                    s.counters.per_identity.entries(),
                )[i] == (a, s.counters.per_identity@[a]),
{
    broadcast use vstd::seq_lib::group_to_multiset_ensures;

    let e = s.counters.per_identity.entries();
    let l = sort_desc(e);
    lemma_sort_desc_sorted(e);
    lemma_entries_agree(e);
    assert forall|i: int| 0 <= i < l.len() implies {
        let x = #[trigger] l[i];
        s.counters.per_identity@.contains_key(x.0) && s.counters.per_identity@[x.0] == x.1
    } by {
        assert(l.contains(l[i]));
        assert(e.to_multiset().count(l[i]) > 0);
        assert(e.contains(l[i]));
        let j = choose|j: int| 0 <= j < e.len() && e[j] == l[i];
        assert(lookup(e, e[j].0) == Some(e[j].1));
    }
    assert forall|a: AccountOwner| #[trigger] s.counters.per_identity@.contains_key(a) implies exists|i: int|
        0 <= i < l.len() && #[trigger] l[i] == (a, s.counters.per_identity@[a]) by {
        lemma_lookup_some(e, a);
        let j = choose|j: int| 0 <= j < e.len() && e[j].0 == a && lookup(e, a) == Some(e[j].1);
        assert(e.contains(e[j]));
        assert(l.to_multiset().count(e[j]) > 0);
        assert(l.contains(e[j]));
        let i = choose|i: int| 0 <= i < l.len() && l[i] == e[j];
        assert(l[i] == (a, s.counters.per_identity@[a]));
    }
}

/// In every state that the engine reaches, each sent and received view lists
/// its greetings newest first.
pub proof fn law_views_newest_first(s: GmState, k: ChainOwner)
    requires
        s.wf(),
    ensures
        sorted_desc(s.views.sent_list(k)),
        sorted_desc(s.views.received_list(k)),
{
}

} // verus!
