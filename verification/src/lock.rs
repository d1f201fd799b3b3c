//! Lock levels and the locking protocol the host engine drives a file
//! handle through.
//!
//! Levels form the total order `Unlocked < Shared < Reserved < Pending <
//! Exclusive`. A lock call never lowers a handle's level: a request at or
//! below the current level is a no-op. When a backend declares it needs
//! strict ordering, an upgrade from `Unlocked` must pass through `Shared`
//! first; skipping that step is rejected rather than silently corrected.
//! An unlock call only lowers the level.

use vstd::prelude::*;
use crate::codes::{LOCK_EXCLUSIVE, LOCK_NONE, LOCK_PENDING, LOCK_RESERVED, LOCK_SHARED};

verus! {

/// The exclusivity level a file handle declares to the host engine.
#[derive(Clone, Copy, Debug, PartialEq, Eq, Structural)]
pub enum LockFlag {
    /// No lock held.
    Unlocked,
    /// Shared read lock; may coexist with other shared holders.
    Shared,
    /// Intent to write; readers may continue, no second reserver.
    Reserved,
    /// Waiting for readers to drain before writing.
    Pending,
    /// Exclusive write lock.
    Exclusive,
}

/// The position of a level in the total order, `Unlocked` lowest.
pub open spec fn spec_lock_rank(l: LockFlag) -> int {
    match l {
        LockFlag::Unlocked => 0,
        LockFlag::Shared => 1,
        LockFlag::Reserved => 2,
        LockFlag::Pending => 3,
        LockFlag::Exclusive => 4,
    }
}

/// `a` is at or below `b` in the lock order.
pub open spec fn spec_lock_le(a: LockFlag, b: LockFlag) -> bool {
    spec_lock_rank(a) <= spec_lock_rank(b)
}

impl LockFlag {
    /// The level as the host engine's native integer.
    pub fn native_level(&self) -> (r: i32)
        ensures
            r as int == spec_lock_rank(*self),
    {
        match self {
            LockFlag::Unlocked => LOCK_NONE,
            LockFlag::Shared => LOCK_SHARED,
            LockFlag::Reserved => LOCK_RESERVED,
            LockFlag::Pending => LOCK_PENDING,
            LockFlag::Exclusive => LOCK_EXCLUSIVE,
        }
    }

    /// Decodes a native lock level; exactly the five documented integers
    /// are accepted.
    pub fn from_native(level: i32) -> (r: Option<LockFlag>)
        ensures
            r is Some <==> 0 <= level <= 4,
            r is Some ==> spec_lock_rank(r->0) == level as int,
    {
        if level == LOCK_NONE {
            Some(LockFlag::Unlocked)
        } else if level == LOCK_SHARED {
            Some(LockFlag::Shared)
        } else if level == LOCK_RESERVED {
            Some(LockFlag::Reserved)
        } else if level == LOCK_PENDING {
            Some(LockFlag::Pending)
        } else if level == LOCK_EXCLUSIVE {
            Some(LockFlag::Exclusive)
        } else {
            None
        }
    }

    /// `self` is at or below `other` in the lock order.
    pub fn le(&self, other: &LockFlag) -> (r: bool)
        ensures
            r == spec_lock_le(*self, *other),
    {
        self.native_level() <= other.native_level()
    }
}

/// Two distinct levels never share a rank, and decoding an encoded level
/// gives the level back.
pub proof fn lemma_lock_rank_injective(a: LockFlag, b: LockFlag)
    ensures
        spec_lock_rank(a) == spec_lock_rank(b) ==> a == b,
        0 <= spec_lock_rank(a) <= 4,
{
}

/// The locking protocol's documented paths, whatever the ordering demand:
/// an unlocked handle may take `Shared` and from `Shared` go straight to
/// `Exclusive`; an exclusive holder may unlock back to `Unlocked`; and
/// under strict ordering an upgrade out of `Unlocked` to anything above
/// `Shared` is outside the protocol.
pub proof fn lemma_lock_protocol_paths(strict: bool)
    ensures
        spec_lock_request_ok(LockFlag::Unlocked, LockFlag::Shared, strict),
        spec_lock_request_ok(LockFlag::Shared, LockFlag::Exclusive, strict),
        spec_unlock_request_ok(LockFlag::Exclusive, LockFlag::Unlocked),
        strict ==> !spec_lock_request_ok(LockFlag::Unlocked, LockFlag::Reserved, strict),
        strict ==> !spec_lock_request_ok(LockFlag::Unlocked, LockFlag::Pending, strict),
        strict ==> !spec_lock_request_ok(LockFlag::Unlocked, LockFlag::Exclusive, strict),
{
}

/// What the wrapper does with a lock request.
#[derive(Clone, Copy, Debug, PartialEq, Eq, Structural)]
pub enum LockDecision {
    /// The handle already holds the requested level or a higher one;
    /// succeed without consulting the backend.
    Noop,
    /// A legal upgrade; forward it to the backend.
    Forward,
    /// The request skips a level the ordering protocol requires; report
    /// the violation.
    Reject,
}

/// A lock request is within the protocol: it is a no-op, or an upgrade
/// that, under strict ordering, leaves `Unlocked` only for `Shared`.
pub open spec fn spec_lock_request_ok(current: LockFlag, requested: LockFlag, strict: bool) -> bool {
    if spec_lock_le(requested, current) {
        true
    } else if strict {
        current != LockFlag::Unlocked || requested == LockFlag::Shared
    } else {
        true
    }
}

/// Classifies a lock request against the current level.
pub fn lock_request_decision(current: &LockFlag, requested: &LockFlag, strict: bool) -> (r:
    LockDecision)
    ensures
        r == LockDecision::Noop <==> spec_lock_le(*requested, *current),
        r == LockDecision::Reject <==> !spec_lock_request_ok(*current, *requested, strict),
        r == LockDecision::Forward <==> (!spec_lock_le(*requested, *current)
            && spec_lock_request_ok(*current, *requested, strict)),
{
    if requested.le(current) {
        LockDecision::Noop
    } else if strict && *current == LockFlag::Unlocked && *requested != LockFlag::Shared {
        LockDecision::Reject
    } else {
        LockDecision::Forward
    }
}

/// An unlock request is within the protocol exactly when it does not
/// raise the level.
pub open spec fn spec_unlock_request_ok(current: LockFlag, requested: LockFlag) -> bool {
    spec_lock_le(requested, current)
}

/// A level another handle may newly acquire while `held` is in force
/// elsewhere on the same file: shared readers tolerate up to a reserver,
/// a single reserver or pender tolerates readers, an exclusive holder
/// tolerates nobody.
pub open spec fn spec_lock_compatible(requested: LockFlag, held: LockFlag) -> bool {
    match requested {
        LockFlag::Unlocked => true,
        LockFlag::Shared => spec_lock_rank(held) <= 2,
        LockFlag::Reserved => spec_lock_rank(held) <= 1,
        LockFlag::Pending => spec_lock_rank(held) <= 1,
        LockFlag::Exclusive => held == LockFlag::Unlocked,
    }
}

/// Decides `spec_lock_compatible`.
pub fn lock_compatible(requested: &LockFlag, held: &LockFlag) -> (r: bool)
    ensures
        r == spec_lock_compatible(*requested, *held),
{
    match requested {
        LockFlag::Unlocked => true,
        LockFlag::Shared => held.native_level() <= 2,
        LockFlag::Reserved => held.native_level() <= 1,
        LockFlag::Pending => held.native_level() <= 1,
        LockFlag::Exclusive => *held == LockFlag::Unlocked,
    }
}

} // verus!
