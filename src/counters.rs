//! The message counters: in all, per chain and per identity.
use vstd::prelude::*;

use crate::ids::{AccountOwner, ChainId};
use crate::keyed_map::{count_in, keys_of, KeyedMap};

verus! {

/// Lifetime message counts. Each recorded event adds one to `total`, to the
/// count of its chain and to the count of its sender.
pub struct Counters {
    pub total: u64,
    pub per_chain: KeyedMap<ChainId, u64>,
    pub per_identity: KeyedMap<AccountOwner, u64>,
}

impl Counters {
    /// No partial count exceeds the total.
    pub open spec fn wf(&self) -> bool {
        &&& self.per_chain.wf()
        &&& self.per_identity.wf()
        &&& forall|c: ChainId| #[trigger]
            self.per_chain@.contains_key(c) ==> self.per_chain@[c] <= self.total
        &&& forall|a: AccountOwner| #[trigger]
            self.per_identity@.contains_key(a) ==> self.per_identity@[a] <= self.total
    }

    pub fn new() -> (r: Counters)
        ensures
            r.wf(),
            r.total == 0,
            r.per_chain@ == Map::<ChainId, u64>::empty(),
            r.per_identity@ == Map::<AccountOwner, u64>::empty(),
            r.per_chain.entries().len() == 0,
            r.per_identity.entries().len() == 0,
    {
        Counters { total: 0, per_chain: KeyedMap::new(), per_identity: KeyedMap::new() }
    }

    /// Counts one event of `sender` on `chain`.
    pub fn record(&mut self, chain: ChainId, sender: AccountOwner)
        requires
            old(self).wf(),
            old(self).total < u64::MAX,
        ensures
            final(self).wf(),
            final(self).total == old(self).total + 1,
            final(self).per_chain@ == old(self).per_chain@.insert(
                chain,
                (count_in(old(self).per_chain@, chain) + 1) as u64,
            ),
            final(self).per_identity@ == old(self).per_identity@.insert(
                sender,
                (count_in(old(self).per_identity@, sender) + 1) as u64,
            ),
            keys_of(final(self).per_chain.entries()) == if old(self).per_chain@.contains_key(chain) {
                keys_of(old(self).per_chain.entries())
            } else {
                keys_of(old(self).per_chain.entries()).push(chain)
            },
            keys_of(final(self).per_identity.entries()) == if old(self).per_identity@.contains_key(
                sender,
            ) {
                keys_of(old(self).per_identity.entries())
            } else {
                keys_of(old(self).per_identity.entries()).push(sender)
            },
    {
        self.per_chain.increment(chain);
        self.per_identity.increment(sender);
        self.total = self.total + 1;
    }
}

} // verus!
