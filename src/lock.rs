//! The five-level database lock ladder and the WAL-index slot lock modes.

use vstd::prelude::*;
use vstd::std_specs::cmp::PartialOrdSpec;

use crate::codes::{
    SQLITE_LOCK_EXCLUSIVE, SQLITE_LOCK_NONE, SQLITE_LOCK_PENDING, SQLITE_LOCK_RESERVED,
    SQLITE_LOCK_SHARED,
};

verus! {

/// A level of the database file lock.
#[derive(Debug, Clone, Copy, PartialEq, Eq, Structural)]
pub enum LockKind {
    /// No locks are held; the default state.
    Unlocked,
    /// The database may be read but not written; any number of holders.
    Shared,
    /// The holder plans to write; new shared locks are still admitted.
    Reserved,
    /// The holder waits for shared locks to clear; no new shared locks are admitted.
    Pending,
    /// Needed to write; no other lock coexists with it.
    Exclusive,
}

impl LockKind {
    /// The engine's integer for this level.
    pub open spec fn code(self) -> i32 {
        match self {
            LockKind::Unlocked => SQLITE_LOCK_NONE,
            LockKind::Shared => SQLITE_LOCK_SHARED,
            LockKind::Reserved => SQLITE_LOCK_RESERVED,
            LockKind::Pending => SQLITE_LOCK_PENDING,
            LockKind::Exclusive => SQLITE_LOCK_EXCLUSIVE,
        }
    }

    /// The level that the engine's integer `lock` names, for `0 <= lock <= 4`.
    pub open spec fn from_code(lock: i32) -> LockKind {
        if lock == SQLITE_LOCK_NONE {
            LockKind::Unlocked
        } else if lock == SQLITE_LOCK_SHARED {
            LockKind::Shared
        } else if lock == SQLITE_LOCK_RESERVED {
            LockKind::Reserved
        } else if lock == SQLITE_LOCK_PENDING {
            LockKind::Pending
        } else {
            LockKind::Exclusive
        }
    }

    /// Decodes the engine's integer for a lock level.
    pub fn from_i32(lock: i32) -> (r: Option<LockKind>)
        ensures
            r matches Some(k) ==> k.code() == lock && k == LockKind::from_code(lock),
            r is None <==> !(0 <= lock <= 4),
    {
        if lock == SQLITE_LOCK_NONE {
            Some(LockKind::Unlocked)
        } else if lock == SQLITE_LOCK_SHARED {
            Some(LockKind::Shared)
        } else if lock == SQLITE_LOCK_RESERVED {
            Some(LockKind::Reserved)
        } else if lock == SQLITE_LOCK_PENDING {
            Some(LockKind::Pending)
        } else if lock == SQLITE_LOCK_EXCLUSIVE {
            Some(LockKind::Exclusive)
        } else {
            None
        }
    }

    /// The engine's integer for this level.
    pub fn to_i32(self) -> (r: i32)
        ensures
            r == self.code(),
    {
        match self {
            LockKind::Unlocked => SQLITE_LOCK_NONE,
            LockKind::Shared => SQLITE_LOCK_SHARED,
            LockKind::Reserved => SQLITE_LOCK_RESERVED,
            LockKind::Pending => SQLITE_LOCK_PENDING,
            LockKind::Exclusive => SQLITE_LOCK_EXCLUSIVE,
        }
    }

    /// The order of the ladder: `self` is strictly below `other`.
    pub open spec fn below(self, other: LockKind) -> bool {
        self.code() < other.code()
    }
}

impl PartialOrd for LockKind {
    fn partial_cmp(&self, other: &LockKind) -> (r: Option<core::cmp::Ordering>) {
        let a = self.to_i32();
        let b = other.to_i32();
        if a < b {
            Some(core::cmp::Ordering::Less)
        } else if a == b {
            Some(core::cmp::Ordering::Equal)
        } else {
            Some(core::cmp::Ordering::Greater)
        }
    }
}

impl vstd::std_specs::cmp::PartialOrdSpecImpl for LockKind {
    open spec fn obeys_partial_cmp_spec() -> bool {
        true
    }

    open spec fn partial_cmp_spec(&self, other: &LockKind) -> Option<core::cmp::Ordering> {
        if self.code() < other.code() {
            Some(core::cmp::Ordering::Less)
        } else if self.code() == other.code() {
            Some(core::cmp::Ordering::Equal)
        } else {
            Some(core::cmp::Ordering::Greater)
        }
    }
}

impl Default for LockKind {
    fn default() -> (r: LockKind)
        ensures
            r == LockKind::Unlocked,
    {
        LockKind::Unlocked
    }
}

/// The ladder is totally ordered: `Unlocked < Shared < Reserved < Pending < Exclusive`, and
/// `<` between two levels holds exactly when the first stands lower on the ladder.
pub proof fn lemma_lock_order(a: LockKind, b: LockKind)
    ensures
        LockKind::Unlocked.below(LockKind::Shared),
        LockKind::Shared.below(LockKind::Reserved),
        LockKind::Reserved.below(LockKind::Pending),
        LockKind::Pending.below(LockKind::Exclusive),
        a.below(b) <==> (a.partial_cmp_spec(&b) == Some(core::cmp::Ordering::Less)),
        a.below(b) || a == b || b.below(a),
        !(a.below(b) && b.below(a)),
{
}

} // verus!
