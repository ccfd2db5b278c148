//! The referral ledger: who invited whom, and the points that inviters earn.
use vstd::prelude::*;

use crate::ids::AccountOwner;
use crate::keyed_map::KeyedMap;
use crate::records::{InvitationRecord, InvitationStats};

verus! {

/// Points for the first event of a new invitee.
pub const FIRST_REWARD: u32 = 30;

/// Points for each later event of an invitee.
pub const REPEAT_REWARD: u32 = 10;

/// The stats of `a` in `m`, zero where it has none.
pub open spec fn stats_in(m: Map<AccountOwner, InvitationStats>, a: AccountOwner) -> InvitationStats {
    if m.contains_key(a) {
        m[a]
    } else {
        InvitationStats::zero()
    }
}

/// `s` after a reward of `points` earned at `at`, with `invited` more invitees.
pub open spec fn rewarded(s: InvitationStats, points: u32, invited: u32, at: u64) -> InvitationStats {
    InvitationStats {
        total_invited: (s.total_invited + invited) as u32,
        total_rewards: (s.total_rewards + points) as u32,
        last_reward_time: Some(at),
    }
}

/// The record that attributes `invitee` to `inviter` from `at` on.
pub open spec fn new_record(inviter: AccountOwner, invitee: AccountOwner, at: u64) -> InvitationRecord {
    InvitationRecord { inviter, invitee, invited_at: at, rewarded: true, rewarded_at: Some(at) }
}

/// The referral rules applied to an event of `sender` at `at` that may name
/// an inviter: an invitee that already has a record earns its recorded
/// inviter the repeat reward, whatever inviter the event names; otherwise a
/// named inviter other than the sender becomes the invitee's permanent
/// inviter and earns the first reward; otherwise nothing changes.
pub open spec fn referral_applied(
    before: ReferralLedger,
    after: ReferralLedger,
    sender: AccountOwner,
    inviter: Option<AccountOwner>,
    at: u64,
) -> bool {
    &&& (before.records@.contains_key(sender) ==> {
        let a = before.records@[sender].inviter;
        &&& after.records@ == before.records@
        &&& after.stats@ == before.stats@.insert(
            a,
            rewarded(stats_in(before.stats@, a), REPEAT_REWARD, 0, at),
        )
    })
    &&& (!before.records@.contains_key(sender) && inviter is Some && inviter->Some_0
        != sender ==> {
        let b = inviter->Some_0;
        &&& after.records@ == before.records@.insert(sender, new_record(b, sender, at))
        &&& after.stats@ == before.stats@.insert(
            b,
            rewarded(stats_in(before.stats@, b), FIRST_REWARD, 1, at),
        )
    })
    &&& (!before.records@.contains_key(sender) && (inviter is None || inviter->Some_0
        == sender) ==> after == before)
}

/// One record per invitee, and stats per inviter.
pub struct ReferralLedger {
    pub records: KeyedMap<AccountOwner, InvitationRecord>,
    pub stats: KeyedMap<AccountOwner, InvitationStats>,
}

impl ReferralLedger {
    pub open spec fn wf(&self) -> bool {
        self.records.wf() && self.stats.wf()
    }

    /// Every inviter can take one more reward of either kind without overflow.
    pub open spec fn has_room(&self) -> bool {
        forall|a: AccountOwner| #[trigger]
            self.stats@.contains_key(a) ==> self.stats@[a].total_rewards <= u32::MAX
                - FIRST_REWARD && self.stats@[a].total_invited < u32::MAX
    }

    pub fn new() -> (r: ReferralLedger)
        ensures
            r.wf(),
            r.records@ == Map::<AccountOwner, InvitationRecord>::empty(),
            r.stats@ == Map::<AccountOwner, InvitationStats>::empty(),
            r.records.entries().len() == 0,
            r.stats.entries().len() == 0,
    {
        ReferralLedger { records: KeyedMap::new(), stats: KeyedMap::new() }
    }

    fn stats_of(&self, a: &AccountOwner) -> (r: InvitationStats)
        requires
            self.wf(),
        ensures
            r == stats_in(self.stats@, *a),
    {
        match self.stats.get(a) {
            Some(s) => *s,
            None => InvitationStats { total_invited: 0, total_rewards: 0, last_reward_time: None },
        }
    }

    /// Applies the referral rules to an event of `sender` at `at`, where the
    /// event may name an inviter.
    ///
    /// An invitee that already has a record earns its recorded inviter the
    /// repeat reward, whatever inviter the event names. Otherwise a named
    /// inviter other than the sender becomes the invitee's permanent inviter
    /// and earns the first reward. Otherwise nothing changes.
    pub fn apply(&mut self, sender: AccountOwner, inviter: Option<AccountOwner>, at: u64)
        requires
            old(self).wf(),
            old(self).has_room(),
        ensures
            final(self).wf(),
            referral_applied(*old(self), *final(self), sender, inviter, at),
    {
        match self.records.get(&sender) {
            Some(record) => {
                let a = record.inviter;
                let s = self.stats_of(&a);
                let updated = InvitationStats {
                    total_invited: s.total_invited,
                    total_rewards: s.total_rewards + REPEAT_REWARD,
                    last_reward_time: Some(at),
                };
                self.stats.insert(a, updated);
            },
            None => {
                if let Some(b) = inviter {
                    if b != sender {
                        self.records.insert(
                            sender,
                            InvitationRecord {
                                inviter: b,
                                invitee: sender,
                                invited_at: at,
                                rewarded: true,
                                rewarded_at: Some(at),
                            },
                        );
                        let s = self.stats_of(&b);
                        let updated = InvitationStats {
                            total_invited: s.total_invited + 1,
                            total_rewards: s.total_rewards + FIRST_REWARD,
                            last_reward_time: Some(at),
                        };
                        self.stats.insert(b, updated);
                    }
                }
            },
        }
    }
}

} // verus!
