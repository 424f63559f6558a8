//! The publishers' turnstile: one publisher at a time, each with the next sequence number.

use crate::fence::{Fence, Guard};
use crate::sequence_barrier::{SequenceBarrier, WaitStep};
use crate::signal::Signals;
use vstd::prelude::*;

verus! {

/// The exclusive claim on the next sequence number. Giving it back lets the next publisher in.
pub struct ClaimGuard {
    sequence: i64,
    guard: Guard,
}

impl ClaimGuard {
    /// The sequence number that is claimed.
    pub closed spec fn sequence(&self) -> i64 {
        self.sequence
    }

    /// The identity of the channel in which it is claimed.
    pub closed spec fn channel(&self) -> int {
        self.guard.identity()
    }

    /// The sequence number that is claimed.
    pub fn deref(&self) -> (sequence: i64)
        ensures
            sequence == self.sequence(),
    {
        self.sequence
    }
}

/// Serializes the publishers, and speaks to the consumers through the sequence barrier.
pub struct SequenceController {
    claim_fence: Fence,
    barrier: SequenceBarrier,
}

impl SequenceController {
    /// The identity of the channel.
    pub closed spec fn identity(&self) -> int {
        self.claim_fence.identity()
    }

    /// Whether a publisher holds the claim.
    pub closed spec fn claimed(&self) -> bool {
        self.claim_fence@
    }

    /// The highest published sequence number.
    pub closed spec fn position(&self) -> i64 {
        self.barrier.position()
    }

    /// Whether the last publisher is gone.
    pub closed spec fn closed(&self) -> bool {
        self.barrier.closed()
    }

    /// A controller whose claim is free.
    pub fn new(barrier: SequenceBarrier) -> (controller: Self)
        ensures
            !controller.claimed(),
            controller.position() == barrier.position(),
            controller.closed() == barrier.closed(),
    {
        SequenceController { claim_fence: Fence::default(), barrier }
    }

    /// Claims the sequence number after the published one, if no other publisher holds the
    /// claim.
    pub fn claim_slot(&mut self) -> (claim: Option<ClaimGuard>)
        requires
            !old(self).claimed() ==> old(self).position() < i64::MAX,
        ensures
            claim is Some <==> !old(self).claimed(),
            claim matches Some(guard) ==> guard.sequence() == old(self).position() + 1
                && guard.channel() == old(self).identity(),
            final(self).claimed(),
            final(self).position() == old(self).position(),
            final(self).closed() == old(self).closed(),
            final(self).identity() == old(self).identity(),
    {
        match self.claim_fence.try_acquire() {
            Some(guard) => Some(ClaimGuard { sequence: self.barrier.cursor() + 1, guard }),
            None => None,
        }
    }

    /// Gives a claim back. The next publisher that waits for its turn is to be woken.
    pub fn release_claim(&mut self, claim: ClaimGuard) -> (signals: Signals)
        requires
            old(self).claimed(),
            claim.channel() == old(self).identity(),
        ensures
            !final(self).claimed(),
            final(self).position() == old(self).position(),
            final(self).closed() == old(self).closed(),
            final(self).identity() == old(self).identity(),
            signals == (Signals { consumers: false, publisher: false, claimant: true }),
    {
        claim.guard.release(&mut self.claim_fence);
        Signals::to_claimant()
    }

    /// Nudges the consumers, on whom a publisher waits.
    pub fn notify_one(&self) -> (signals: Signals)
        ensures
            signals == (Signals { consumers: true, publisher: false, claimant: false }),
    {
        Signals::to_consumers()
    }

    /// Makes `sequence` the highest published sequence number. The consumers are to be woken.
    pub fn publish(&mut self, sequence: i64) -> (signals: Signals)
        ensures
            final(self).position() == sequence,
            final(self).claimed() == old(self).claimed(),
            final(self).closed() == old(self).closed(),
            final(self).identity() == old(self).identity(),
            signals == (Signals { consumers: true, publisher: false, claimant: false }),
    {
        self.barrier.publish(sequence)
    }

    /// Closes the barrier: the last publisher is gone. The consumers are to be woken.
    pub fn close(&mut self) -> (signals: Signals)
        ensures
            final(self).closed(),
            final(self).identity() == old(self).identity(),
            final(self).position() == old(self).position(),
            final(self).claimed() == old(self).claimed(),
            signals == (Signals { consumers: true, publisher: false, claimant: false }),
    {
        self.barrier.close()
    }

    /// Whether the last publisher is gone.
    pub fn is_closed(&self) -> (closed: bool)
        ensures
            closed == self.closed(),
    {
        self.barrier.is_closed()
    }

    /// The highest published sequence number.
    pub fn cursor(&self) -> (position: i64)
        ensures
            position == self.position(),
    {
        self.barrier.cursor()
    }

    /// What a consumer finds that waits for the published cursor to pass `target`.
    pub fn wait_until(&self, target: i64) -> (step: WaitStep)
        ensures
            step == crate::sequence_barrier::wait_step(
                self.position() as int,
                self.closed(),
                target as int,
            ),
    {
        self.barrier.wait_until(target)
    }
}

} // verus!
