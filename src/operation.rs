//! The operations that clients submit, the greetings that are announced, and
//! how each operation changes the state.
use vstd::prelude::*;

use crate::cooldown::cooldown_status;
use crate::ids::AccountOwner;
use crate::ids::ChainId;
use crate::message::{content_allowed, is_message_content_valid, MessageContent};
use crate::records::InvitationStats;
use crate::referral::FIRST_REWARD;
use crate::state::{event_recorded, last_seen, profile_in, same_but_cooldown, GmState};
use crate::text::{byte_len, take_chars};

verus! {

/// The interface marker of the application.
pub struct GmAbi;

/// A greeting as it is announced to other chains and subscribers.
#[derive(Clone, Debug, PartialEq, Eq)]
pub enum GmMessage {
    Gm {
        sender: AccountOwner,
        recipient: Option<AccountOwner>,
        timestamp: u64,
        content: MessageContent,
    },
}

/// An operation that a client submits.
#[derive(Clone, Debug, PartialEq, Eq)]
pub enum GmOperation {
    Gm {
        sender: AccountOwner,
        recipient: AccountOwner,
        content: MessageContent,
        inviter: Option<AccountOwner>,
    },
    ClaimInvitationRewards { sender: AccountOwner },
    SetCooldownEnabled { caller: AccountOwner, enabled: bool },
    AddWhitelistAddress { caller: AccountOwner, address: AccountOwner },
    RemoveWhitelistAddress { caller: AccountOwner, address: AccountOwner },
    SetUserProfile { user: AccountOwner, name: Option<String>, avatar: Option<String> },
    AIChat {
        sender: AccountOwner,
        recipient: AccountOwner,
        prompt: String,
        max_tokens: Option<u32>,
    },
}

/// The guide that the assistant answers with.
pub const AI_GUIDE: &'static str = "\u{1f916} GMIC Guide:\n\u{1f4dd} Send: Text/GIF/Voice messages\n\u{1f4ac} Chats: View conversation history\n\u{1f464} Profile: Set personal info & avatar\n\u{1f3c6} Leaderboard: Active user rankings\n\u{1f465} Invite: Friends earn rewards\u{1f4b0}";

/// The length of an assistant reply when none is asked for.
pub const DEFAULT_MAX_TOKENS: u32 = 200;

/// The assistant's reply: the guide, cut to its first `max_tokens` characters
/// where it is longer than `max_tokens` bytes.
pub open spec fn ai_response(max_tokens: u32) -> Seq<char> {
    if byte_len(AI_GUIDE@) > max_tokens {
        if max_tokens < AI_GUIDE@.len() {
            AI_GUIDE@.take(max_tokens as int)
        } else {
            AI_GUIDE@
        }
    } else {
        AI_GUIDE@
    }
}

/// The length asked of an assistant reply, or the default.
pub open spec fn reply_limit(max_tokens: Option<u32>) -> u32 {
    match max_tokens {
        Some(m) => m,
        None => DEFAULT_MAX_TOKENS,
    }
}

/// Whether `c` is the assistant's text reply of at most `max_tokens`.
pub open spec fn is_ai_reply(c: MessageContent, max_tokens: u32) -> bool {
    c.message_type@ == "text"@ && c.content@ == ai_response(max_tokens)
}

/// The announcement of a greeting.
pub open spec fn greeting(
    sender: AccountOwner,
    recipient: Option<AccountOwner>,
    timestamp: u64,
    content: MessageContent,
) -> GmMessage {
    GmMessage::Gm { sender, recipient, timestamp, content }
}

/// A greeting from `sender` to `recipient` is recorded and announced where its
/// timestamp is not 0 and the state has room; otherwise nothing happens.
pub open spec fn recorded_and_sent(
    before: GmState,
    after: GmState,
    chain_id: ChainId,
    sender: AccountOwner,
    recipient: AccountOwner,
    timestamp: u64,
    content: MessageContent,
    inviter: Option<AccountOwner>,
    sent: Seq<GmMessage>,
) -> bool {
    if timestamp != 0 && before.has_room() {
        &&& event_recorded(before, after, chain_id, sender, Some(recipient), timestamp, content, inviter)
        &&& sent == seq![greeting(sender, Some(recipient), timestamp, content)]
    } else {
        after == before && sent.len() == 0
    }
}

/// What a greeting operation does. Content that breaks the rules, or a
/// sender in cooldown, changes nothing. A greeting to another identity is
/// recorded and announced. A greeting to the application itself is recorded,
/// and then so is the assistant's reply to the sender; both are announced
/// once both are recorded.
pub open spec fn gm_executed(
    before: GmState,
    after: GmState,
    chain_id: ChainId,
    sender: AccountOwner,
    recipient: AccountOwner,
    content: MessageContent,
    inviter: Option<AccountOwner>,
    timestamp: u64,
    application: AccountOwner,
    sent: Seq<GmMessage>,
) -> bool {
    let blocked = cooldown_status(
        before.cooldown.enabled,
        before.cooldown.authorized(sender),
        last_seen(before.last_gm@, chain_id, sender),
        timestamp,
    ).0;
    if !content_allowed(content) || blocked {
        after == before && sent.len() == 0
    } else if recipient != application {
        recorded_and_sent(before, after, chain_id, sender, recipient, timestamp, content, inviter, sent)
    } else if timestamp == 0 || !before.has_room() {
        after == before && sent.len() == 0
    } else {
        exists|mid: GmState, reply: MessageContent, replied: Seq<GmMessage>|
            {
                &&& #[trigger] is_ai_reply(reply, DEFAULT_MAX_TOKENS)
                &&& event_recorded(before, mid, chain_id, sender, Some(recipient), timestamp, content, inviter)
                &&& #[trigger] recorded_and_sent(
                    mid,
                    after,
                    chain_id,
                    application,
                    sender,
                    timestamp,
                    reply,
                    None,
                    replied,
                )
                &&& sent == if replied.len() > 0 {
                    seq![greeting(sender, Some(recipient), timestamp, content)] + replied
                } else {
                    Seq::empty()
                }
            }
    }
}

/// What an operation does on a state that has an owner. The administrative
/// operations act for the authenticated signer and do nothing without one.
pub open spec fn operation_executed(
    before: GmState,
    after: GmState,
    operation: GmOperation,
    chain_id: ChainId,
    timestamp: u64,
    application: AccountOwner,
    signer: Option<AccountOwner>,
    sent: Seq<GmMessage>,
) -> bool {
    match operation {
        GmOperation::Gm { sender, recipient, content, inviter } => gm_executed(
            before,
            after,
            chain_id,
            sender,
            recipient,
            content,
            inviter,
            timestamp,
            application,
            sent,
        ),
        GmOperation::AIChat { sender, recipient, prompt, max_tokens } => exists|reply: MessageContent|
            #[trigger] is_ai_reply(reply, reply_limit(max_tokens)) && recorded_and_sent(
                before,
                after,
                chain_id,
                sender,
                recipient,
                timestamp,
                reply,
                None,
                sent,
            ),
        GmOperation::SetCooldownEnabled { caller, enabled } => sent.len() == 0 && match signer {
            Some(s) => if before.cooldown.authorized(s) {
                after.cooldown.enabled == enabled && after.cooldown.allow_list == before.cooldown.allow_list
                    && same_but_cooldown(after, before)
            } else {
                after == before
            },
            None => after == before,
        },
        GmOperation::AddWhitelistAddress { caller, address } => sent.len() == 0 && match signer {
            Some(s) => if before.cooldown.authorized(s) {
                after.cooldown.allow_list@ == before.cooldown.allow_list@.insert(address, true)
                    && after.cooldown.enabled == before.cooldown.enabled && same_but_cooldown(after, before)
            } else {
                after == before
            },
            None => after == before,
        },
        GmOperation::RemoveWhitelistAddress { caller, address } => sent.len() == 0 && match signer {
            Some(s) => if before.cooldown.authorized(s) {
                after.cooldown.allow_list@ == before.cooldown.allow_list@.remove(address)
                    && after.cooldown.enabled == before.cooldown.enabled && same_but_cooldown(after, before)
            } else {
                after == before
            },
            None => after == before,
        },
        GmOperation::SetUserProfile { user, name, avatar } => {
            &&& sent.len() == 0
            &&& after.user_profiles@ == before.user_profiles@.insert(
                user,
                crate::records::UserProfile {
                    name: if name is Some {
                        name
                    } else {
                        profile_in(before.user_profiles@, user).name
                    },
                    avatar: if avatar is Some {
                        avatar
                    } else {
                        profile_in(before.user_profiles@, user).avatar
                    },
                },
            )
            &&& after.counters == before.counters && after.views == before.views
            &&& after.referrals == before.referrals && after.cooldown == before.cooldown
        },
        GmOperation::ClaimInvitationRewards { sender } => after == before && sent.len() == 0,
    }
}

/// The assistant's reply: the guide, cut to its first `max_tokens` characters
/// where it is longer than `max_tokens` bytes.
pub fn generate_ai_response(prompt: &str, max_tokens: u32) -> (r: String)
    ensures
        r@ == ai_response(max_tokens),
{
    let response = AI_GUIDE;
    if response.as_bytes().len() > max_tokens as usize {
        take_chars(response, max_tokens as usize)
    } else {
        response.to_owned()
    }
}

fn ai_reply(max_tokens: u32) -> (r: MessageContent)
    ensures
        is_ai_reply(r, max_tokens),
{
    MessageContent { message_type: "text".to_owned(), content: generate_ai_response("", max_tokens) }
}

impl GmState {
    /// Whether one more event fits.
    pub fn has_room_now(&self) -> (r: bool)
        requires
            self.wf(),
        ensures
            r == self.has_room(),
    {
        if self.counters.total == u64::MAX {
            return false;
        }
        let m = &self.referrals.stats;
        let n = m.len();
        let mut i: usize = 0;
        while i < n
            invariant
                *m == self.referrals.stats,
                m.wf(),
                n == m.entries().len(),
                i <= n,
                forall|j: int|
                    0 <= j < i ==> (#[trigger] m.entries()[j]).1.total_rewards <= u32::MAX - FIRST_REWARD
                        && m.entries()[j].1.total_invited < u32::MAX,
            decreases n - i,
        {
            let s: InvitationStats = m.entry_at(i).1;
            if s.total_rewards > u32::MAX - FIRST_REWARD || s.total_invited == u32::MAX {
                proof {
                    crate::keyed_map::lemma_lookup_at(m.entries(), i as int);
                    assert(self.referrals.stats@.contains_key(m.entries()[i as int].0));
                }
                return false;
            }
            i = i + 1;
        }
        proof {
            assert forall|a: AccountOwner| #[trigger] m@.contains_key(a) implies m@[a].total_rewards
                <= u32::MAX - FIRST_REWARD && m@[a].total_invited < u32::MAX by {
                crate::keyed_map::lemma_lookup_some(m.entries(), a);
            }
        }
        true
    }

    /// Records a greeting and returns its announcement, where its timestamp is
    /// not 0 and the state has room.
    fn record_and_announce(
        &mut self,
        chain_id: ChainId,
        sender: AccountOwner,
        recipient: AccountOwner,
        timestamp: u64,
        content: MessageContent,
        inviter: Option<AccountOwner>,
    ) -> (r: Vec<GmMessage>)
        requires
            old(self).wf(),
        ensures
            final(self).wf(),
            recorded_and_sent(
                *old(self),
                *final(self),
                chain_id,
                sender,
                recipient,
                timestamp,
                content,
                inviter,
                r@,
            ),
    {
        let mut sent: Vec<GmMessage> = Vec::new();
        if timestamp == 0 || !self.has_room_now() {
            return sent;
        }
        let announced = GmMessage::Gm {
            sender,
            recipient: Some(recipient),
            timestamp,
            content: content.duplicate(),
        };
        let _ = self.record_gm(chain_id, sender, Some(recipient), timestamp, content, inviter);
        sent.push(announced);
        assert(sent@ =~= seq![greeting(sender, Some(recipient), timestamp, content)]);
        sent
    }

    /// Carries out a greeting operation.
    pub fn execute_gm(
        &mut self,
        chain_id: ChainId,
        sender: AccountOwner,
        recipient: AccountOwner,
        content: MessageContent,
        inviter: Option<AccountOwner>,
        timestamp: u64,
        application: AccountOwner,
    ) -> (r: Vec<GmMessage>)
        requires
            old(self).wf(),
        ensures
            final(self).wf(),
            gm_executed(
                *old(self),
                *final(self),
                chain_id,
                sender,
                recipient,
                content,
                inviter,
                timestamp,
                application,
                r@,
            ),
    {
        if !is_message_content_valid(&content) {
            return Vec::new();
        }
        let (in_cooldown, _) = self.is_in_cooldown(chain_id, &sender, timestamp);
        if in_cooldown {
            return Vec::new();
        }
        if recipient != application {
            return self.record_and_announce(chain_id, sender, recipient, timestamp, content, inviter);
        }
        if timestamp == 0 || !self.has_room_now() {
            return Vec::new();
        }
        let reply = ai_reply(DEFAULT_MAX_TOKENS);
        let announced = GmMessage::Gm {
            sender,
            recipient: Some(recipient),
            timestamp,
            content: content.duplicate(),
        };
        let _ = self.record_gm(chain_id, sender, Some(recipient), timestamp, content, inviter);
        let ghost mid = *self;
        let replied = self.record_and_announce(chain_id, application, sender, timestamp, reply, None);
        let mut sent: Vec<GmMessage> = Vec::new();
        if replied.len() > 0 {
            sent.push(announced);
            let mut rest = replied;
            sent.append(&mut rest);
        }
        proof {
            assert(is_ai_reply(reply, DEFAULT_MAX_TOKENS));
            if replied@.len() > 0 {
                assert(sent@ =~= seq![greeting(sender, Some(recipient), timestamp, content)] + replied@);
            } else {
                assert(sent@ =~= Seq::<GmMessage>::empty());
            }
        }
        sent
    }

    /// Carries out an operation submitted at `timestamp` on `chain_id`, where
    /// `application` is the application's own account and `signer` the
    /// authenticated signer, if any. Returns the greetings to announce.
    /// Nothing happens before the state has an owner.
    pub fn execute_operation(
        &mut self,
        operation: GmOperation,
        chain_id: ChainId,
        timestamp: u64,
        application: AccountOwner,
        signer: Option<AccountOwner>,
    ) -> (r: Vec<GmMessage>)
        requires
            old(self).wf(),
        ensures
            final(self).wf(),
            old(self).owner is None ==> *final(self) == *old(self) && r@.len() == 0,
            old(self).owner is Some ==> operation_executed(
                *old(self),
                *final(self),
                operation,
                chain_id,
                timestamp,
                application,
                signer,
                r@,
            ),
    {
        if self.owner.is_none() {
            return Vec::new();
        }
        match operation {
            GmOperation::Gm { sender, recipient, content, inviter } => {
                let r = self.execute_gm(chain_id, sender, recipient, content, inviter, timestamp, application);
                r
            },
            GmOperation::AIChat { sender, recipient, prompt, max_tokens } => {
                let limit = match max_tokens {
                    Some(m) => m,
                    None => DEFAULT_MAX_TOKENS,
                };
                let reply = ai_reply(limit);
                assert(is_ai_reply(reply, reply_limit(max_tokens)));
                let r = self.record_and_announce(chain_id, sender, recipient, timestamp, reply, None);
                r
            },
            GmOperation::SetCooldownEnabled { caller, enabled } => {
                if let Some(s) = signer {
                    let _ = self.set_cooldown_enabled(&s, enabled);
                }
                Vec::new()
            },
            GmOperation::AddWhitelistAddress { caller, address } => {
                if let Some(s) = signer {
                    let _ = self.add_whitelist(&s, address);
                }
                Vec::new()
            },
            GmOperation::RemoveWhitelistAddress { caller, address } => {
                if let Some(s) = signer {
                    let _ = self.remove_whitelist(&s, address);
                }
                Vec::new()
            },
            GmOperation::SetUserProfile { user, name, avatar } => {
                self.set_user_profile(&user, name, avatar);
                Vec::new()
            },
            GmOperation::ClaimInvitationRewards { sender } => Vec::new(),
        }
    }

    /// Sets the application up on its first start: `application` becomes the
    /// owner, and it and `default_admin` go on the allow list. A state that
    /// already has an owner is left alone.
    pub fn instantiate(&mut self, application: AccountOwner, default_admin: AccountOwner) -> (r: bool)
        requires
            old(self).wf(),
        ensures
            final(self).wf(),
            r == old(self).owner is None,
            !r ==> *final(self) == *old(self),
            r ==> final(self).owner == Some(application) && !final(self).cooldown.enabled
                && final(self).cooldown.allow_list@ == old(self).cooldown.allow_list@.insert(
                default_admin,
                true,
            ).insert(application, true) && final(self).counters == old(self).counters
                && final(self).views == old(self).views && final(self).referrals
                == old(self).referrals,
    {
        if self.owner.is_some() {
            return false;
        }
        self.set_owner(application, default_admin);
        true
    }

    /// Records a greeting announced by another chain, with no inviter, where
    /// its content keeps the rules. Returns whether it was recorded.
    pub fn execute_message(&mut self, message: GmMessage, chain_id: ChainId) -> (r: bool)
        requires
            old(self).wf(),
        ensures
            final(self).wf(),
            match message {
                GmMessage::Gm { sender, recipient, timestamp, content } => {
                    &&& r == (content_allowed(content) && timestamp != 0 && old(self).has_room())
                    &&& r ==> event_recorded(
                        *old(self),
                        *final(self),
                        chain_id,
                        sender,
                        recipient,
                        timestamp,
                        content,
                        None,
                    )
                    &&& !r ==> *final(self) == *old(self)
                },
            },
    {
        match message {
            GmMessage::Gm { sender, recipient, timestamp, content } => {
                if !is_message_content_valid(&content) || timestamp == 0 || !self.has_room_now() {
                    return false;
                }
                let _ = self.record_gm(chain_id, sender, recipient, timestamp, content, None);
                true
            },
        }
    }

}

} // verus!
