//! A state-aggregation engine for greetings between identities: counters,
//! per-identity views, time buckets, a referral ledger, a rate-limit guard
//! and a leaderboard cache, updated together for each recorded greeting.
pub mod buckets;
pub mod cooldown;
pub mod counters;
pub mod ids;
pub mod keyed_map;
pub mod laws;
pub mod leaderboard;
pub mod message;
pub mod operation;
pub mod ranking;
pub mod records;
pub mod referral;
pub mod service;
pub mod state;
pub mod text;
pub mod views;

pub use ids::{AccountOwner, ChainId};
pub use message::{is_message_content_valid, is_valid_message_type, MessageContent, MessageType};
pub use operation::{GmAbi, GmMessage, GmOperation};
pub use records::{InvitationRecord, InvitationStats, UserProfile};
pub use state::{GmState, RecordError};
