//! `Fence`, a lock that is tried and never blocks.
//!
//! Whoever takes the fence gets a guard and gives it back to release the fence. A caller that
//! finds the fence taken tries again later; waiting is not the fence's business.

use crate::padded::{load_bool, pad_bool, padded_bool};
use crossbeam_utils::CachePadded;
use vstd::prelude::*;

verus! {

/// The right to what a fence protects. Only a fence makes one, and giving it back releases the
/// fence.
pub struct Guard {
    identity: Ghost<int>,
}

/// A `Guard` of a fence that several owners share.
pub struct OwnedGuard {
    guard: Guard,
}

/// What is done with a fence.
pub enum FenceOp {
    /// Somebody tries to take it.
    Acquire,
    /// Somebody who holds its guard gives it back.
    Release,
}

impl FenceOp {
    /// Whether the fence is taken afterwards, where `taken` tells whether it was before.
    pub open spec fn leaves_taken(self, taken: bool) -> bool {
        self is Acquire
    }

    /// Whether a guard is handed out, where `taken` tells whether the fence was taken before.
    pub open spec fn grants(self, taken: bool) -> bool {
        self is Acquire && !taken
    }
}

/// A lock. Its view tells whether it is taken. Its identity, of which nothing more is known, ties
/// the guards that it hands out to it.
pub struct Fence {
    flag: CachePadded<bool>,
    identity: Ghost<int>,
}

impl View for Fence {
    type V = bool;

    closed spec fn view(&self) -> bool {
        padded_bool(self.flag)
    }
}

impl Default for Fence {
    fn default() -> (fence: Self)
        ensures
            !fence@,
    {
        Fence { flag: pad_bool(false), identity: Ghost(vstd::pervasive::arbitrary()) }
    }
}

impl Fence {
    /// The identity of the fence.
    pub closed spec fn identity(&self) -> int {
        self.identity@
    }

    /// Tells whether the fence is taken.
    pub fn is_taken(&self) -> (taken: bool)
        ensures
            taken == self@,
    {
        load_bool(&self.flag)
    }

    /// Takes the fence if it is free.
    pub fn try_acquire(&mut self) -> (guard: Option<Guard>)
        ensures
            guard is Some <==> !old(self)@,
            final(self)@,
            guard is Some <==> FenceOp::Acquire.grants(old(self)@),
            final(self)@ == FenceOp::Acquire.leaves_taken(old(self)@),
            final(self).identity() == old(self).identity(),
            guard matches Some(handed_out) ==> handed_out.identity() == old(self).identity(),
    {
        if load_bool(&self.flag) {
            None
        } else {
            self.flag = pad_bool(true);
            Some(Guard { identity: self.identity })
        }
    }

    /// Takes the fence if it is free, for an owner that shares it.
    pub fn try_acquire_owned(&mut self) -> (guard: Option<OwnedGuard>)
        ensures
            guard is Some <==> !old(self)@,
            final(self)@,
            guard is Some <==> FenceOp::Acquire.grants(old(self)@),
            final(self)@ == FenceOp::Acquire.leaves_taken(old(self)@),
            final(self).identity() == old(self).identity(),
            guard matches Some(handed_out) ==> handed_out.identity() == old(self).identity(),
    {
        match self.try_acquire() {
            Some(guard) => Some(OwnedGuard { guard }),
            None => None,
        }
    }
}

impl Guard {
    /// The identity of the fence that handed the guard out.
    pub closed spec fn identity(&self) -> int {
        self.identity@
    }

    /// Gives the guard back: the fence is free again.
    pub fn release(self, fence: &mut Fence)
        requires
            old(fence)@,
            self.identity() == old(fence).identity(),
        ensures
            !final(fence)@,
            final(fence).identity() == old(fence).identity(),
            final(fence)@ == FenceOp::Release.leaves_taken(old(fence)@),
    {
        fence.flag = pad_bool(false);
    }
}

impl OwnedGuard {
    /// The identity of the fence that handed the guard out.
    pub closed spec fn identity(&self) -> int {
        self.guard.identity()
    }

    /// Gives the guard back: the fence is free again.
    pub fn release(self, fence: &mut Fence)
        requires
            old(fence)@,
            self.identity() == old(fence).identity(),
        ensures
            !final(fence)@,
            final(fence).identity() == old(fence).identity(),
            final(fence)@ == FenceOp::Release.leaves_taken(old(fence)@),
    {
        self.guard.release(fence);
    }
}

/// Whether a fence is taken after `ops`, where it was free before them.
pub open spec fn taken_after(ops: Seq<FenceOp>) -> bool
    decreases ops.len(),
{
    ops.len() > 0 && ops.last().leaves_taken(taken_after(ops.drop_last()))
}

/// How many guards of a fence are out after `ops`, where it was free before them: one more for
/// each that is handed out, one less for each that is given back.
pub open spec fn guards_out(ops: Seq<FenceOp>) -> int
    decreases ops.len(),
{
    if ops.len() == 0 {
        0
    } else {
        let before = guards_out(ops.drop_last());
        match ops.last() {
            FenceOp::Acquire => if ops.last().grants(taken_after(ops.drop_last())) {
                before + 1
            } else {
                before
            },
            FenceOp::Release => before - 1,
        }
    }
}

/// Guards are only given back by those who hold one.
pub open spec fn only_holders_release(ops: Seq<FenceOp>) -> bool
    decreases ops.len(),
{
    ops.len() > 0 ==> only_holders_release(ops.drop_last()) && (ops.last() is Release
        ==> guards_out(ops.drop_last()) > 0)
}

/// Trying to take a fence succeeds exactly when it is free, and leaves it taken in both cases;
/// giving a guard back hands nothing out and leaves it free.
pub proof fn law_taking_and_releasing(taken: bool)
    ensures
        FenceOp::Acquire.grants(taken) <==> !taken,
        FenceOp::Acquire.leaves_taken(taken),
        !FenceOp::Release.grants(taken),
        !FenceOp::Release.leaves_taken(taken),
{
}

/// At most one guard of a fence is out at any time, and one is out exactly while the fence is
/// taken.
pub proof fn law_one_guard_at_a_time(ops: Seq<FenceOp>)
    requires
        only_holders_release(ops),
    ensures
        0 <= guards_out(ops) <= 1,
        guards_out(ops) == 1 <==> taken_after(ops),
    decreases ops.len(),
{
    if ops.len() > 0 {
        law_one_guard_at_a_time(ops.drop_last());
    }
}

} // verus!
