//! What the query side computes: format checks on signatures and profiles,
//! and greetings laid out for display.
use vstd::prelude::*;

use crate::ids::{AccountOwner, ChainId, ChainOwner};
use crate::message::{displays, shown_content, MessageContent};
use crate::operation::GmOperation;
use crate::ranking::{insert_ranked, prefix, sort_desc, Ranked};
use crate::records::UserProfile;
use crate::state::{last_seen, payloads, profile_in, reward_list, stream_items, GmState};
use crate::text::{all_hex, byte_len, has_prefix, is_hex_str, starts_with};

verus! {

/// The last seen greeting of an identity.
#[derive(Clone, Copy, Debug, PartialEq, Eq, Structural)]
pub struct GmRecord {
    pub owner: AccountOwner,
    pub timestamp: u64,
}

/// The fields of a greeting that a client signed.
#[derive(Clone, Debug, PartialEq, Eq)]
pub struct SignatureData {
    pub sender: String,
    pub recipient: Option<String>,
    pub chain_id: String,
    pub timestamp: u64,
    pub nonce: u64,
    pub content: Option<String>,
}

/// The outcome of a signature check.
#[derive(Clone, Debug, PartialEq, Eq)]
pub struct SignatureVerificationResult {
    pub success: bool,
    pub message: String,
    pub verified_sender: Option<String>,
}

/// A profile change as a client asks for it.
#[derive(Clone, Debug, PartialEq, Eq)]
pub struct UserProfileInput {
    pub name: Option<String>,
    pub avatar: Option<String>,
}

/// An inviter and its reward points, for the inviter leaderboard.
#[derive(Clone, Copy, Debug, PartialEq, Eq, Structural)]
pub struct LeaderboardInvitationUser {
    pub user: AccountOwner,
    pub count: u32,
}

/// Why a signature fails the format check, in the order the checks are made;
/// none where it passes.
pub open spec fn signature_rejection(sender: Seq<char>, signature: Seq<char>) -> Option<Seq<char>> {
    if sender.len() == 0 {
        Some("Sender address cannot be empty"@)
    } else if !all_hex(sender) {
        Some("Invalid sender address format"@)
    } else if byte_len(sender) < 40 {
        Some("Sender address is too short"@)
    } else if byte_len(signature) < 10 {
        Some("Invalid signature format"@)
    } else if !all_hex(signature) {
        Some("Invalid signature format (contains non-hex characters)"@)
    } else {
        None
    }
}

fn rejected(message: &str) -> (r: SignatureVerificationResult)
    ensures
        !r.success,
        r.message@ == message@,
        r.verified_sender is None,
{
    SignatureVerificationResult { success: false, message: message.to_owned(), verified_sender: None }
}

/// Checks the format of a signature and of the sender it claims: a sender of
/// at least 40 hexadecimal digits, and a signature of at least 10 of them.
pub fn simple_verify_signature(signature_data: &SignatureData, signature: &str) -> (r:
    SignatureVerificationResult)
    ensures
        match signature_rejection(signature_data.sender@, signature@) {
            Some(m) => !r.success && r.message@ == m && r.verified_sender is None,
            None => r.success && r.message@ == "Signature format verification successful"@
                && r.verified_sender == Some(signature_data.sender),
        },
{
    let sender = signature_data.sender.as_str();
    if sender.is_empty() {
        return rejected("Sender address cannot be empty");
    }
    if !is_hex_str(sender) {
        return rejected("Invalid sender address format");
    }
    if sender.as_bytes().len() < 40 {
        return rejected("Sender address is too short");
    }
    if signature.as_bytes().len() < 10 {
        return rejected("Invalid signature format");
    }
    if !is_hex_str(signature) {
        return rejected("Invalid signature format (contains non-hex characters)");
    }
    SignatureVerificationResult {
        success: true,
        message: "Signature format verification successful".to_owned(),
        verified_sender: Some(signature_data.sender.clone()),
    }
}

/// Why a profile change is refused.
#[derive(Clone, Copy, Debug, PartialEq, Eq, Structural)]
pub enum ProfileInputError {
    /// The name is over 50 bytes long.
    NameTooLong,
    /// The avatar is not an HTTP or HTTPS link.
    AvatarNotHttp,
}

impl ProfileInputError {
    pub fn message(&self) -> (r: String)
        ensures
            *self == ProfileInputError::NameTooLong ==> r@ == "Name too long, maximum 50 characters"@,
            *self == ProfileInputError::AvatarNotHttp ==> r@
                == "Avatar must be a valid HTTP or HTTPS URL"@,
    {
        match self {
            ProfileInputError::NameTooLong => "Name too long, maximum 50 characters".to_owned(),
            ProfileInputError::AvatarNotHttp => "Avatar must be a valid HTTP or HTTPS URL".to_owned(),
        }
    }
}

/// Whether a profile change is refused, and why: a name over 50 bytes, or
/// else an avatar that is not an HTTP or HTTPS link.
pub open spec fn profile_rejection(input: UserProfileInput) -> Option<ProfileInputError> {
    if input.name is Some && byte_len(input.name->Some_0@) > 50 {
        Some(ProfileInputError::NameTooLong)
    } else if input.avatar is Some && !has_prefix(input.avatar->Some_0@, "http://"@)
        && !has_prefix(input.avatar->Some_0@, "https://"@) {
        Some(ProfileInputError::AvatarNotHttp)
    } else {
        None
    }
}

/// Checks a profile change before it is applied.
pub fn check_profile_input(profile: &UserProfileInput) -> (r: Result<(), ProfileInputError>)
    ensures
        match profile_rejection(*profile) {
            Some(e) => r == Err::<(), ProfileInputError>(e),
            None => r is Ok,
        },
{
    if let Some(name) = &profile.name {
        if name.as_str().as_bytes().len() > 50 {
            return Err(ProfileInputError::NameTooLong);
        }
    }
    if let Some(avatar) = &profile.avatar {
        if !starts_with(avatar.as_str(), "http://") && !starts_with(avatar.as_str(), "https://") {
            return Err(ProfileInputError::AvatarNotHttp);
        }
    }
    Ok(())
}

/// A greeting laid out for display, with the names and avatars of both sides.
#[derive(Clone, Debug, PartialEq, Eq)]
pub struct GmEvent {
    pub sender: AccountOwner,
    pub sender_name: Option<String>,
    pub sender_avatar: Option<String>,
    pub recipient: Option<AccountOwner>,
    pub recipient_name: Option<String>,
    pub recipient_avatar: Option<String>,
    pub timestamp: u64,
    pub nonce: u64,
    pub content: MessageContent,
}

impl Ranked for GmEvent {
    open spec fn rank_key(&self) -> u64 {
        self.timestamp
    }

    fn key(&self) -> (r: u64) {
        self.timestamp
    }
}

/// Whether `e` lays out the greeting of `sender` to `recipient` at
/// `timestamp` with `content`, with the profiles in `profiles`.
pub open spec fn displays_event(
    e: GmEvent,
    profiles: Map<AccountOwner, UserProfile>,
    sender: AccountOwner,
    recipient: Option<AccountOwner>,
    timestamp: u64,
    content: MessageContent,
) -> bool {
    &&& e.sender == sender
    &&& e.sender_name == profile_in(profiles, sender).name
    &&& e.sender_avatar == profile_in(profiles, sender).avatar
    &&& e.recipient == recipient
    &&& e.recipient_name == match recipient {
        Some(to) => profile_in(profiles, to).name,
        None => None,
    }
    &&& e.recipient_avatar == match recipient {
        Some(to) => profile_in(profiles, to).avatar,
        None => None,
    }
    &&& e.timestamp == timestamp
    &&& e.nonce == 0
    &&& displays(content, e.content)
}

impl GmState {
    /// Lays out one greeting for display.
    fn display_event(
        &self,
        sender: AccountOwner,
        recipient: Option<AccountOwner>,
        timestamp: u64,
        content: MessageContent,
    ) -> (r: GmEvent)
        requires
            self.wf(),
        ensures
            displays_event(r, self.user_profiles@, sender, recipient, timestamp, content),
    {
        let from = self.get_user_profile(&sender);
        let to = match recipient {
            Some(a) => self.get_user_profile(&a),
            None => UserProfile { name: None, avatar: None },
        };
        GmEvent {
            sender,
            sender_name: from.name,
            sender_avatar: from.avatar,
            recipient,
            recipient_name: to.name,
            recipient_avatar: to.avatar,
            timestamp,
            nonce: 0,
            content: shown_content(content),
        }
    }

    /// The last greeting of `owner` on `chain_id`, where there was one.
    pub fn get_gm_record(&self, chain_id: ChainId, owner: AccountOwner) -> (r: Option<GmRecord>)
        requires
            self.wf(),
        ensures
            r == match last_seen(self.last_gm@, chain_id, owner) {
                Some(t) => Some(GmRecord { owner, timestamp: t }),
                None => None,
            },
    {
        match self.get_last_gm(chain_id, &owner) {
            Some(t) => Some(GmRecord { owner, timestamp: t }),
            None => None,
        }
    }

    /// The greetings that `sender` sent on `chain_id`, newest first, laid out
    /// for display.
    pub fn get_gm_events(&self, chain_id: ChainId, sender: AccountOwner) -> (r: Vec<GmEvent>)
        requires
            self.wf(),
        ensures
            r@.len() == self.views.sent_list(ChainOwner { chain: chain_id, owner: sender }).len(),
            forall|i: int|
                0 <= i < r@.len() ==> {
                    let e = #[trigger] self.views.sent_list(
                        ChainOwner { chain: chain_id, owner: sender },
                    )[i];
                    displays_event(r@[i], self.user_profiles@, sender, e.recipient, e.timestamp, e.content)
                },
    {
        let list = self.get_events(chain_id, &sender);
        let mut out: Vec<GmEvent> = Vec::new();
        let n = list.len();
        let mut i: usize = 0;
        while i < n
            invariant
                self.wf(),
                n == list@.len(),
                list@ == self.views.sent_list(ChainOwner { chain: chain_id, owner: sender }),
                i <= n,
                out@.len() == i,
                forall|j: int|
                    0 <= j < i ==> displays_event(
                        #[trigger] out@[j],
                        self.user_profiles@,
                        sender,
                        list@[j].recipient,
                        list@[j].timestamp,
                        list@[j].content,
                    ),
            decreases n - i,
        {
            let e = &list[i];
            let ev = self.display_event(sender, e.recipient, e.timestamp, e.content.duplicate());
            out.push(ev);
            i = i + 1;
        }
        out
    }

    /// The greetings that `recipient` received on `chain_id`, newest first,
    /// laid out for display.
    pub fn get_received_gm_events(&self, chain_id: ChainId, recipient: AccountOwner) -> (r: Vec<
        GmEvent,
    >)
        requires
            self.wf(),
        ensures
            r@.len() == self.views.received_list(
                ChainOwner { chain: chain_id, owner: recipient },
            ).len(),
            forall|i: int|
                0 <= i < r@.len() ==> {
                    let e = #[trigger] self.views.received_list(
                        ChainOwner { chain: chain_id, owner: recipient },
                    )[i];
                    displays_event(
                        r@[i],
                        self.user_profiles@,
                        e.sender,
                        Some(recipient),
                        e.timestamp,
                        e.content,
                    )
                },
    {
        let list = self.get_received_events(chain_id, &recipient);
        let mut out: Vec<GmEvent> = Vec::new();
        let n = list.len();
        let mut i: usize = 0;
        while i < n
            invariant
                self.wf(),
                n == list@.len(),
                list@ == self.views.received_list(ChainOwner { chain: chain_id, owner: recipient }),
                i <= n,
                out@.len() == i,
                forall|j: int|
                    0 <= j < i ==> displays_event(
                        #[trigger] out@[j],
                        self.user_profiles@,
                        list@[j].sender,
                        Some(recipient),
                        list@[j].timestamp,
                        list@[j].content,
                    ),
            decreases n - i,
        {
            let e = &list[i];
            let ev = self.display_event(e.sender, Some(recipient), e.timestamp, e.content.duplicate());
            out.push(ev);
            i = i + 1;
        }
        out
    }

    /// Every recorded greeting, laid out for display, newest first; greetings
    /// of the same microsecond keep the order of recording.
    pub fn get_all_gm_events(&self) -> (r: Vec<GmEvent>)
        requires
            self.wf(),
        ensures
            exists|laid_out: Seq<GmEvent>|
                {
                    &&& laid_out.len() == self.views.log@.len()
                    &&& forall|i: int|
                        0 <= i < laid_out.len() ==> {
                            let e = #[trigger] self.views.log@[i];
                            displays_event(
                                laid_out[i],
                                self.user_profiles@,
                                e.sender,
                                e.recipient,
                                e.timestamp,
                                e.content,
                            )
                        }
                    &&& r@ == sort_desc(laid_out)
                },
    {
        let log = &self.views.log;
        let mut out: Vec<GmEvent> = Vec::new();
        let ghost mut laid_out: Seq<GmEvent> = Seq::empty();
        let n = log.len();
        let mut i: usize = 0;
        while i < n
            invariant
                self.wf(),
                n == log@.len(),
                i <= n,
                laid_out.len() == i,
                forall|j: int|
                    0 <= j < i ==> displays_event(
                        #[trigger] laid_out[j],
                        self.user_profiles@,
                        log@[j].sender,
                        log@[j].recipient,
                        log@[j].timestamp,
                        log@[j].content,
                    ),
                out@ == sort_desc(laid_out),
            decreases n - i,
        {
            let e = &log[i];
            let ev = self.display_event(e.sender, e.recipient, e.timestamp, e.content.duplicate());
            proof {
                assert(laid_out.push(ev).drop_last() =~= laid_out);
                laid_out = laid_out.push(ev);
            }
            insert_ranked(&mut out, ev);
            i = i + 1;
        }
        out
    }

    /// The top `limit` inviters by reward points.
    pub fn get_top_invitors(&self, limit: u32) -> (r: Vec<LeaderboardInvitationUser>)
        requires
            self.wf(),
        ensures
            r@.len() == prefix(sort_desc(reward_list(self.referrals.stats.entries())), limit as int).len(),
            forall|i: int|
                0 <= i < r@.len() ==> {
                    let e = #[trigger] prefix(
                        sort_desc(reward_list(self.referrals.stats.entries())),
                        limit as int,
                    )[i];
                    r@[i] == (LeaderboardInvitationUser { user: e.0, count: e.1 })
                },
    {
        let top = self.get_top_invitation_rewards(limit);
        let mut out: Vec<LeaderboardInvitationUser> = Vec::new();
        let n = top.len();
        let mut i: usize = 0;
        while i < n
            invariant
                n == top@.len(),
                i <= n,
                out@.len() == i,
                forall|j: int|
                    0 <= j < i ==> #[trigger] out@[j] == (LeaderboardInvitationUser {
                        user: top@[j].0,
                        count: top@[j].1,
                    }),
            decreases n - i,
        {
            out.push(LeaderboardInvitationUser { user: top[i].0, count: top[i].1 });
            i = i + 1;
        }
        out
    }

    /// The greeting operation to submit for a client's request: a blank text
    /// becomes the default greeting, a missing recipient becomes the owner,
    /// and an identity without a referral record that names itself as
    /// inviter is taken to name none. Refused while the state has no owner.
    pub fn prepare_gm(
        &self,
        sender: AccountOwner,
        recipient: Option<AccountOwner>,
        content: MessageContent,
        inviter: Option<AccountOwner>,
    ) -> (r: Result<GmOperation, SendGmError>)
        requires
            self.wf(),
        ensures
            self.owner is None ==> r == Err::<GmOperation, SendGmError>(SendGmError::OwnerNotSet),
            self.owner is Some ==> exists|shown: MessageContent|
                #[trigger] displays(content, shown) && r == Ok::<GmOperation, SendGmError>(
                    GmOperation::Gm {
                        sender,
                        recipient: match recipient {
                            Some(to) => to,
                            None => self.owner->Some_0,
                        },
                        content: shown,
                        inviter: if inviter == Some(sender) && !self.referrals.records@.contains_key(
                            sender,
                        ) {
                            None
                        } else {
                            inviter
                        },
                    },
                ),
    {
        let owner = match self.owner {
            Some(o) => o,
            None => {
                return Err(SendGmError::OwnerNotSet);
            },
        };
        let shown = shown_content(content);
        let to = match recipient {
            Some(a) => a,
            None => owner,
        };
        let named_self = match inviter {
            Some(a) => a == sender,
            None => false,
        };
        let processed = if named_self && !self.referrals.records.contains_key(&sender) {
            None
        } else {
            inviter
        };
        Ok(GmOperation::Gm { sender, recipient: to, content: shown, inviter: processed })
    }
}

/// What a subscriber is sent on one poll: the newest stored events, or a
/// heartbeat where there are none.
#[derive(Clone, Debug, PartialEq, Eq)]
pub enum Notifications {
    Events(Vec<String>),
    Heartbeat,
}

impl GmState {
    /// One poll of a subscription to `chain_id`: the 50 newest stored events
    /// from `last_timestamp` on, or a heartbeat where there are none.
    pub fn poll_notifications(&self, chain_id: ChainId, last_timestamp: Option<u64>) -> (r: Notifications)
        requires
            self.wf(),
        ensures
            match r {
                Notifications::Events(v) => v@.len() > 0 && v@ == payloads(
                    prefix(sort_desc(stream_items(self.stream_events.entries(), chain_id, last_timestamp)), 50),
                ),
                Notifications::Heartbeat => payloads(
                    prefix(sort_desc(stream_items(self.stream_events.entries(), chain_id, last_timestamp)), 50),
                ).len() == 0,
            },
    {
        let events = self.get_latest_events(chain_id, last_timestamp);
        if events.len() == 0 {
            Notifications::Heartbeat
        } else {
            Notifications::Events(events)
        }
    }
}

/// Why a greeting request is refused.
#[derive(Clone, Copy, Debug, PartialEq, Eq, Structural)]
pub enum SendGmError {
    /// The state has no owner yet.
    OwnerNotSet,
}

impl SendGmError {
    pub fn message(&self) -> (r: String)
        ensures
            r@ == "Contract owner not initialized"@,
    {
        "Contract owner not initialized".to_owned()
    }
}

} // verus!
