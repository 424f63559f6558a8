//! The sequence barrier, over which publishers and consumers meet.
//!
//! It holds the highest sequence number that has been published. Publishers move it forward;
//! consumers wait for it to pass their own position.

use crate::cursor::Cursor;
use crate::signal::Signals;
use vstd::prelude::*;

verus! {

/// What a consumer that waits for a sequence number finds.
#[derive(Clone, Copy, Debug, PartialEq, Eq, Structural)]
pub enum WaitStep {
    /// The cursor is past the target.
    Reached,
    /// The cursor is not past the target, and no publisher is left to move it.
    Closed,
    /// The cursor is not past the target yet.
    Pending,
}

/// What a consumer that waits for the cursor to pass `target` finds. A cursor that is past the
/// target counts before the closing.
pub open spec fn wait_step(cursor: int, closed: bool, target: int) -> WaitStep {
    if cursor > target {
        WaitStep::Reached
    } else if closed {
        WaitStep::Closed
    } else {
        WaitStep::Pending
    }
}

/// Whoever waits is let through exactly when the cursor is past the target, closed or not; is told
/// of the closing exactly when the cursor is not past the target and cannot move any more; and
/// goes on waiting otherwise.
pub proof fn law_waiting(cursor: int, closed: bool, target: int)
    ensures
        wait_step(cursor, closed, target) == WaitStep::Reached <==> target < cursor,
        wait_step(cursor, closed, target) == WaitStep::Closed <==> cursor <= target && closed,
        wait_step(cursor, closed, target) == WaitStep::Pending <==> cursor <= target && !closed,
{
}

/// The state that publishers and consumers share: the published cursor, and whether the last
/// publisher is gone.
#[derive(Debug)]
pub struct SequenceBarrier {
    closed: bool,
    cursor: Cursor,
}

impl SequenceBarrier {
    /// The highest published sequence number.
    pub closed spec fn position(&self) -> i64 {
        self.cursor@
    }

    /// Whether the last publisher is gone.
    pub closed spec fn closed(&self) -> bool {
        self.closed
    }

    /// An open barrier at `cursor`.
    pub fn new(cursor: Cursor) -> (barrier: Self)
        ensures
            barrier.position() == cursor@,
            !barrier.closed(),
    {
        SequenceBarrier { closed: false, cursor }
    }

    /// Closes the barrier. The waiting consumers are to be woken, so that they see it.
    pub fn close(&mut self) -> (signals: Signals)
        ensures
            final(self).closed(),
            final(self).position() == old(self).position(),
            signals == (Signals { consumers: true, publisher: false, claimant: false }),
    {
        self.closed = true;
        Signals::to_consumers()
    }

    /// Whether the barrier is closed.
    pub fn is_closed(&self) -> (closed: bool)
        ensures
            closed == self.closed(),
    {
        self.closed
    }

    /// The highest published sequence number.
    pub fn cursor(&self) -> (position: i64)
        ensures
            position == self.position(),
    {
        self.cursor.relaxed()
    }

    /// Makes `sequence` the highest published sequence number. The waiting consumers are to be
    /// woken.
    pub fn publish(&mut self, sequence: i64) -> (signals: Signals)
        ensures
            final(self).position() == sequence,
            final(self).closed() == old(self).closed(),
            signals == (Signals { consumers: true, publisher: false, claimant: false }),
    {
        self.cursor.store(sequence);
        Signals::to_consumers()
    }

    /// What a consumer finds that waits for the cursor to pass `target`. On `Pending` it waits
    /// for a wake-up and looks again.
    pub fn wait_until(&self, target: i64) -> (step: WaitStep)
        ensures
            step == wait_step(self.position() as int, self.closed(), target as int),
    {
        if self.cursor.relaxed() > target {
            WaitStep::Reached
        } else if self.is_closed() {
            WaitStep::Closed
        } else {
            WaitStep::Pending
        }
    }
}

} // verus!
