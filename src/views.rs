//! The event log and the two per-identity views: sent and received greetings,
//! newest first.
use vstd::prelude::*;

use crate::ids::{AccountOwner, ChainId, ChainOwner};
use crate::keyed_map::KeyedMap;
use crate::message::MessageContent;
use crate::ranking::{insert_desc, insert_ranked, lemma_insert_desc_sorted, sorted_desc};
use crate::records::{LoggedEvent, ReceivedEntry, SentEntry};

verus! {

/// The views after an event: the log gains it at its end, the sender's view
/// takes it in newest first, and so does the recipient's view where there is a
/// recipient; every other view stays as it was.
pub open spec fn event_appended(
    before: EventViews,
    after: EventViews,
    chain: ChainId,
    sender: AccountOwner,
    recipient: Option<AccountOwner>,
    timestamp: u64,
    content: MessageContent,
) -> bool {
    &&& after.log@ == before.log@.push(
        LoggedEvent { chain_id: chain, sender, recipient, timestamp, content },
    )
    &&& after.sent_list(ChainOwner { chain, owner: sender }) == insert_desc(
        before.sent_list(ChainOwner { chain, owner: sender }),
        SentEntry { recipient, timestamp, content },
    )
    &&& forall|k: ChainOwner|
        k != (ChainOwner { chain, owner: sender }) ==> #[trigger] after.sent_list(k)
            == before.sent_list(k)
    &&& match recipient {
        Some(to) => {
            &&& after.received_list(ChainOwner { chain, owner: to }) == insert_desc(
                before.received_list(ChainOwner { chain, owner: to }),
                ReceivedEntry { sender, timestamp, content },
            )
            &&& forall|k: ChainOwner|
                k != (ChainOwner { chain, owner: to }) ==> #[trigger] after.received_list(k)
                    == before.received_list(k)
        },
        None => forall|k: ChainOwner| #[trigger]
            after.received_list(k) == before.received_list(k),
    }
}

/// Every recorded event in the order of recording, and per (chain, identity)
/// the events it sent and the events it received.
pub struct EventViews {
    pub log: Vec<LoggedEvent>,
    pub sent: KeyedMap<ChainOwner, Vec<SentEntry>>,
    pub received: KeyedMap<ChainOwner, Vec<ReceivedEntry>>,
}

impl EventViews {
    /// Every view is ordered newest first.
    pub open spec fn wf(&self) -> bool {
        &&& self.sent.wf()
        &&& self.received.wf()
        &&& forall|k: ChainOwner| #[trigger] sorted_desc(self.sent_list(k))
        &&& forall|k: ChainOwner| #[trigger] sorted_desc(self.received_list(k))
    }

    /// The events sent under `k`, newest first; none where `k` sent nothing.
    pub open spec fn sent_list(&self, k: ChainOwner) -> Seq<SentEntry> {
        if self.sent@.contains_key(k) {
            self.sent@[k]@
        } else {
            Seq::empty()
        }
    }

    /// The events received under `k`, newest first; none where `k` received nothing.
    pub open spec fn received_list(&self, k: ChainOwner) -> Seq<ReceivedEntry> {
        if self.received@.contains_key(k) {
            self.received@[k]@
        } else {
            Seq::empty()
        }
    }

    pub fn new() -> (r: EventViews)
        ensures
            r.wf(),
            r.log@ == Seq::<LoggedEvent>::empty(),
            forall|k: ChainOwner| r.sent_list(k) == Seq::<SentEntry>::empty(),
            forall|k: ChainOwner| r.received_list(k) == Seq::<ReceivedEntry>::empty(),
    {
        EventViews { log: Vec::new(), sent: KeyedMap::new(), received: KeyedMap::new() }
    }

    /// Appends an event to the log and to the views of its sender and, where
    /// there is one, of its recipient.
    pub fn record(
        &mut self,
        chain: ChainId,
        sender: AccountOwner,
        recipient: Option<AccountOwner>,
        timestamp: u64,
        content: MessageContent,
    )
        requires
            old(self).wf(),
        ensures
            final(self).wf(),
            event_appended(*old(self), *final(self), chain, sender, recipient, timestamp, content),
    {
        let key = ChainOwner { chain, owner: sender };
        proof {
            lemma_insert_desc_sorted(
                self.sent_list(key),
                SentEntry { recipient, timestamp, content },
            );
            if let Some(to) = recipient {
                lemma_insert_desc_sorted(
                    self.received_list(ChainOwner { chain, owner: to }),
                    ReceivedEntry { sender, timestamp, content },
                );
            }
        }
        let mut list = match self.sent.remove(&key) {
            Some(v) => v,
            None => Vec::new(),
        };
        insert_ranked(&mut list, SentEntry { recipient, timestamp, content: content.duplicate() });
        self.sent.insert(key, list);
        if let Some(to) = recipient {
            let rkey = ChainOwner { chain, owner: to };
            let mut rlist = match self.received.remove(&rkey) {
                Some(v) => v,
                None => Vec::new(),
            };
            insert_ranked(&mut rlist, ReceivedEntry { sender, timestamp, content: content.duplicate() });
            self.received.insert(rkey, rlist);
        }
        self.log.push(LoggedEvent { chain_id: chain, sender, recipient, timestamp, content });
        proof {
            assert forall|k: ChainOwner| #[trigger] sorted_desc(self.sent_list(k)) by {
                if k != key {
                    assert(self.sent_list(k) == old(self).sent_list(k));
                }
            }
            assert forall|k: ChainOwner| #[trigger] sorted_desc(self.received_list(k)) by {
                if recipient is None || k != (ChainOwner { chain, owner: recipient->Some_0 }) {
                    assert(self.received_list(k) == old(self).received_list(k));
                }
            }
        }
    }
}

} // verus!
