//! Identities and scopes, held as plain values, and the keys built from them.
use vstd::prelude::*;

verus! {

/// The owner of an account: a reserved slot, a 32-byte hash or a 20-byte address.
/// A 32-byte value is held as its high and low halves, a 20-byte one as its
/// top four bytes and its low sixteen bytes.
#[derive(Clone, Copy, Debug, PartialEq, Eq, Structural)]
pub enum AccountOwner {
    Reserved(u8),
    Address32(u128, u128),
    Address20(u32, u128),
}

/// A chain, named by its 32-byte hash (high half, low half).
#[derive(Clone, Copy, Debug, PartialEq, Eq, Structural)]
pub struct ChainId(pub u128, pub u128);

/// An identity within a chain.
#[derive(Clone, Copy, Debug, PartialEq, Eq, Structural)]
pub struct ChainOwner {
    pub chain: ChainId,
    pub owner: AccountOwner,
}

/// A numbered slot within a chain: a time bucket, or the microsecond of an event.
#[derive(Clone, Copy, Debug, PartialEq, Eq, Structural)]
pub struct ChainIndex {
    pub chain: ChainId,
    pub index: u64,
}

/// Keys of a `KeyedMap`: copyable values whose equality can be decided.
pub trait MapKey: Copy + Sized {
    fn same_key(&self, other: &Self) -> (r: bool)
        ensures
            r == (*self == *other),
    ;
}

impl MapKey for AccountOwner {
    fn same_key(&self, other: &Self) -> (r: bool) {
        *self == *other
    }
}

impl MapKey for ChainId {
    fn same_key(&self, other: &Self) -> (r: bool) {
        *self == *other
    }
}

impl MapKey for ChainOwner {
    fn same_key(&self, other: &Self) -> (r: bool) {
        *self == *other
    }
}

impl MapKey for ChainIndex {
    fn same_key(&self, other: &Self) -> (r: bool) {
        *self == *other
    }
}

} // verus!
