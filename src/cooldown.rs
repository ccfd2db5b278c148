//! The rate-limit guard: a 24-hour cooldown between greetings, and the allow
//! list whose members are exempt from it and may administer it.
use vstd::prelude::*;

use crate::ids::AccountOwner;
use crate::keyed_map::KeyedMap;

verus! {

/// The cooldown window: 24 hours, in microseconds.
pub const COOLDOWN_MICROS: u64 = 86_400_000_000;

/// The time from `last` to `now`; none where the clock reads earlier than `last`.
pub open spec fn elapsed(now: u64, last: u64) -> u64 {
    if now >= last {
        (now - last) as u64
    } else {
        0
    }
}

/// Whether a sender is blocked, and how long it still has to wait: a sender
/// is blocked while the cooldown is on, it is not exempt, and less than the
/// window has passed since its last event.
pub open spec fn cooldown_status(enabled: bool, exempt: bool, last: Option<u64>, now: u64) -> (
    bool,
    Option<u64>,
) {
    if !enabled || exempt {
        (false, None)
    } else {
        match last {
            None => (false, None),
            Some(t) => if elapsed(now, t) < COOLDOWN_MICROS {
                (true, Some((COOLDOWN_MICROS - elapsed(now, t)) as u64))
            } else {
                (false, None)
            },
        }
    }
}

/// Whether the cooldown is on, and who is on the allow list.
pub struct CooldownConfig {
    pub enabled: bool,
    pub allow_list: KeyedMap<AccountOwner, bool>,
}

impl CooldownConfig {
    pub open spec fn wf(&self) -> bool {
        self.allow_list.wf()
    }

    /// Whether `a` is on the allow list: exempt from the cooldown, and allowed
    /// to switch it and to edit the list.
    pub open spec fn authorized(&self, a: AccountOwner) -> bool {
        self.allow_list@.contains_key(a) && self.allow_list@[a]
    }

    pub fn new() -> (r: CooldownConfig)
        ensures
            r.wf(),
            !r.enabled,
            r.allow_list@ == Map::<AccountOwner, bool>::empty(),
    {
        CooldownConfig { enabled: false, allow_list: KeyedMap::new() }
    }

    /// Whether `a` is on the allow list.
    pub fn is_authorized(&self, a: &AccountOwner) -> (r: bool)
        requires
            self.wf(),
        ensures
            r == self.authorized(*a),
    {
        match self.allow_list.get(a) {
            Some(v) => *v,
            None => false,
        }
    }
}

/// Whether a sender is blocked, and how long it still has to wait.
pub fn check_cooldown(enabled: bool, exempt: bool, last: Option<u64>, now: u64) -> (r: (
    bool,
    Option<u64>,
))
    ensures
        r == cooldown_status(enabled, exempt, last, now),
{
    if !enabled || exempt {
        return (false, None);
    }
    match last {
        None => (false, None),
        Some(t) => {
            let passed = if now >= t {
                now - t
            } else {
                0
            };
            if passed < COOLDOWN_MICROS {
                (true, Some(COOLDOWN_MICROS - passed))
            } else {
                (false, None)
            }
        },
    }
}

} // verus!
