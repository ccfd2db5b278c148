//! The records that the engine keeps: referrals, profiles and the entries of
//! the per-identity event views.
use vstd::prelude::*;

use crate::ids::{AccountOwner, ChainId};
use crate::message::MessageContent;
use crate::ranking::Ranked;

verus! {

/// The permanent attribution of an invitee to the first inviter it named.
#[derive(Clone, Copy, Debug, PartialEq, Eq, Structural)]
pub struct InvitationRecord {
    pub inviter: AccountOwner,
    pub invitee: AccountOwner,
    pub invited_at: u64,
    pub rewarded: bool,
    pub rewarded_at: Option<u64>,
}

/// What an inviter has earned: how many invitees were attributed to it, the
/// points it holds and when it last earned some.
#[derive(Clone, Copy, Debug, PartialEq, Eq, Structural)]
pub struct InvitationStats {
    pub total_invited: u32,
    pub total_rewards: u32,
    pub last_reward_time: Option<u64>,
}

impl InvitationStats {
    pub open spec fn zero() -> InvitationStats {
        InvitationStats { total_invited: 0, total_rewards: 0, last_reward_time: None }
    }
}

/// The name and avatar that an identity chose; each may be unset.
#[derive(Clone, Debug, PartialEq, Eq)]
pub struct UserProfile {
    pub name: Option<String>,
    pub avatar: Option<String>,
}

impl Default for UserProfile {
    fn default() -> (r: UserProfile)
        ensures
            r.name is None,
            r.avatar is None,
    {
        UserProfile { name: None, avatar: None }
    }
}

fn duplicate_text(s: &Option<String>) -> (r: Option<String>)
    ensures
        r == *s,
{
    match s {
        Some(t) => Some(t.clone()),
        None => None,
    }
}

impl UserProfile {
    /// A copy of this profile.
    pub fn duplicate(&self) -> (r: UserProfile)
        ensures
            r == *self,
    {
        UserProfile { name: duplicate_text(&self.name), avatar: duplicate_text(&self.avatar) }
    }
}

/// A greeting as the sender's view holds it.
#[derive(Clone, Debug, PartialEq, Eq)]
pub struct SentEntry {
    pub recipient: Option<AccountOwner>,
    pub timestamp: u64,
    pub content: MessageContent,
}

/// A greeting as the recipient's view holds it.
#[derive(Clone, Debug, PartialEq, Eq)]
pub struct ReceivedEntry {
    pub sender: AccountOwner,
    pub timestamp: u64,
    pub content: MessageContent,
}

/// A greeting as the event log holds it.
#[derive(Clone, Debug, PartialEq, Eq)]
pub struct LoggedEvent {
    pub chain_id: ChainId,
    pub sender: AccountOwner,
    pub recipient: Option<AccountOwner>,
    pub timestamp: u64,
    pub content: MessageContent,
}

impl Ranked for SentEntry {
    open spec fn rank_key(&self) -> u64 {
        self.timestamp
    }

    fn key(&self) -> (r: u64) {
        self.timestamp
    }
}

impl Ranked for ReceivedEntry {
    open spec fn rank_key(&self) -> u64 {
        self.timestamp
    }

    fn key(&self) -> (r: u64) {
        self.timestamp
    }
}

impl Ranked for InvitationRecord {
    open spec fn rank_key(&self) -> u64 {
        self.invited_at
    }

    fn key(&self) -> (r: u64) {
        self.invited_at
    }
}

impl Ranked for (AccountOwner, u64) {
    open spec fn rank_key(&self) -> u64 {
        self.1
    }

    fn key(&self) -> (r: u64) {
        self.1
    }
}

impl Ranked for (ChainId, u64) {
    open spec fn rank_key(&self) -> u64 {
        self.1
    }

    fn key(&self) -> (r: u64) {
        self.1
    }
}

impl Ranked for (AccountOwner, u32) {
    open spec fn rank_key(&self) -> u64 {
        self.1 as u64
    }

    fn key(&self) -> (r: u64) {
        self.1 as u64
    }
}

/// A stream event: the microsecond it was stored under, and its payload.
impl Ranked for (u64, String) {
    open spec fn rank_key(&self) -> u64 {
        self.0
    }

    fn key(&self) -> (r: u64) {
        self.0
    }
}

} // verus!
