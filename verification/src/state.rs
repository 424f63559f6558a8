//! The mathematical model of a channel, which the contracts of the crate speak of.

use crate::ring_buffer::valid_capacity;
use crate::sequence_barrier::{wait_step, WaitStep};
use crate::signal::Signals;
use vstd::prelude::*;

verus! {

/// The state of a channel.
#[verifier::ext_equal]
pub struct ChannelState<T> {
    /// The number of slots in the ring buffer.
    pub capacity: nat,
    /// The events that have been published, each at its sequence number.
    pub log: Seq<T>,
    /// For each consumer, the sequence number of the last event that it is done with.
    pub positions: Map<u64, i64>,
    /// The identifier of the next consumer.
    pub next_id: u64,
    /// The number of publishers.
    pub publishers: nat,
    /// Whether the last publisher is gone.
    pub closed: bool,
    /// Whether a publisher holds the claim on the next sequence number.
    pub claimed: bool,
}

/// What a publisher that holds the claim finds.
pub enum Admission {
    /// There is no consumer: the event goes back to its owner.
    Rejected,
    /// The slot still holds an event that some consumer is not done with.
    Full,
    /// The slot is free.
    Admitted,
}

/// An operation on a channel.
pub enum Op<T> {
    /// `Publisher::claim_slot`.
    Claim,
    /// `Publisher::release_claim`.
    Unclaim,
    /// `Publisher::publish` of an event.
    Publish(T),
    /// `Publisher::subscribe`.
    Subscribe,
    /// `Consumer::clone` of a consumer.
    Clone(u64),
    /// The release of the event that a consumer is processing.
    Advance(u64),
    /// `Consumer::leave`.
    Leave(u64),
    /// `Publisher::clone`.
    AddPublisher,
    /// `Publisher::leave`.
    DropPublisher,
}

impl<T> ChannelState<T> {
    /// The highest sequence number that has been published, -1 while there is none.
    pub open spec fn published(self) -> int {
        self.log.len() - 1
    }

    /// Whether `id` is the identifier of a consumer.
    pub open spec fn registered(self, id: u64) -> bool {
        self.positions.dom().contains(id)
    }

    /// Whether there is no consumer.
    pub open spec fn deserted(self) -> bool {
        forall|id: u64| !#[trigger] self.positions.dom().contains(id)
    }

    /// A consumer at `position` is not past the published cursor, and less than a buffer behind
    /// it.
    pub open spec fn readable_from(self, position: int) -> bool {
        &&& -1 <= position <= self.published()
        &&& self.published() - position < self.capacity
    }

    /// What holds of every channel at all times.
    pub open spec fn inv(self) -> bool {
        &&& valid_capacity(self.capacity as int)
        &&& self.published() <= i64::MAX
        &&& self.closed <==> self.publishers == 0
        &&& forall|id: u64|
            self.registered(id) ==> self.readable_from(#[trigger] self.positions[id] as int)
    }

    /// The events that consumer `id` has still to receive, in the order in which it will.
    pub open spec fn unread(self, id: u64) -> Seq<T> {
        self.log.subrange(self.positions[id] + 1, self.log.len() as int)
    }

    /// Whether consumer `id` may hold the event under `sequence`: it is the next one after its
    /// position, and it has been published.
    pub open spec fn reading(self, id: u64, sequence: int) -> bool {
        &&& self.registered(id)
        &&& sequence == self.positions[id] + 1
        &&& sequence <= self.published()
    }

    /// What consumer `id` finds when it asks for its next event.
    pub open spec fn next_step(self, id: u64) -> WaitStep {
        wait_step(self.published(), self.closed, self.positions[id] as int)
    }

    /// Whether some consumer is so far behind that the next event would overwrite one that it is
    /// not done with.
    pub open spec fn full(self) -> bool {
        exists|id: u64|
            self.registered(id) && self.published() + 1 - #[trigger] self.positions[id]
                >= self.capacity
    }

    /// What a publisher that holds the claim finds.
    pub open spec fn admission(self) -> Admission {
        if self.deserted() {
            Admission::Rejected
        } else if self.full() {
            Admission::Full
        } else {
            Admission::Admitted
        }
    }

    /// A new channel: nothing published, no consumer, one publisher.
    pub open spec fn initial(capacity: nat) -> Self {
        ChannelState {
            capacity,
            log: Seq::empty(),
            positions: Map::empty(),
            next_id: 0,
            publishers: 1,
            closed: false,
            claimed: false,
        }
    }

    /// A publisher takes the claim.
    pub open spec fn claim(self) -> Self {
        ChannelState { claimed: true, ..self }
    }

    /// A publisher gives the claim back.
    pub open spec fn unclaim(self) -> Self {
        ChannelState { claimed: false, ..self }
    }

    /// `event` is published under the next sequence number.
    pub open spec fn publish(self, event: T) -> Self {
        ChannelState { log: self.log.push(event), ..self }
    }

    /// A consumer joins at `position`, under the next identifier.
    pub open spec fn register(self, position: i64) -> Self {
        ChannelState {
            positions: self.positions.insert(self.next_id, position),
            next_id: self.next_id.wrapping_add(1),
            ..self
        }
    }

    /// Consumer `id` is done with its next event. For an identifier that no consumer has, nothing
    /// happens.
    pub open spec fn advance(self, id: u64) -> Self {
        if self.registered(id) {
            ChannelState {
                positions: self.positions.insert(id, self.positions[id].wrapping_add(1)),
                ..self
            }
        } else {
            self
        }
    }

    /// Consumer `id` leaves.
    pub open spec fn remove(self, id: u64) -> Self {
        ChannelState { positions: self.positions.remove(id), ..self }
    }

    /// One more publisher.
    pub open spec fn add_publisher(self) -> Self {
        ChannelState { publishers: self.publishers + 1, ..self }
    }

    /// One publisher less. The channel closes with the last one.
    pub open spec fn drop_publisher(self) -> Self {
        ChannelState {
            publishers: (self.publishers - 1) as nat,
            closed: self.publishers <= 1,
            ..self
        }
    }

    /// Whether the operation can be performed: a publisher's by a publisher that is there and,
    /// where it takes one, holds the claim; a consumer's by a consumer that is there and, to
    /// release an event, has one.
    pub open spec fn enabled(self, op: Op<T>) -> bool {
        match op {
            Op::Claim => self.publishers > 0 && (self.claimed || self.published() < i64::MAX),
            Op::Unclaim => self.publishers > 0 && self.claimed,
            Op::Publish(_) => self.publishers > 0 && self.claimed && self.published() < i64::MAX,
            Op::Subscribe => self.publishers > 0 && self.claimed && self.published() < i64::MAX,
            Op::Clone(id) => self.registered(id),
            Op::Advance(id) => self.registered(id) && self.positions[id] < self.published(),
            Op::Leave(id) => self.registered(id),
            Op::AddPublisher => self.publishers > 0,
            Op::DropPublisher => self.publishers > 0,
        }
    }

    /// The state after the operation.
    pub open spec fn apply(self, op: Op<T>) -> Self {
        match op {
            Op::Claim => self.claim(),
            Op::Unclaim => self.unclaim(),
            Op::Publish(event) => match self.admission() {
                Admission::Rejected => self.unclaim(),
                Admission::Full => self,
                Admission::Admitted => self.publish(event).unclaim(),
            },
            Op::Subscribe => self.register(self.published() as i64).unclaim(),
            Op::Clone(id) => self.register(self.positions[id]),
            Op::Advance(id) => self.advance(id),
            Op::Leave(id) => self.remove(id),
            Op::AddPublisher => self.add_publisher(),
            Op::DropPublisher => self.drop_publisher(),
        }
    }

    /// Whom the operation wakes.
    pub open spec fn signals(self, op: Op<T>) -> Signals {
        match op {
            Op::Claim | Op::Clone(_) | Op::AddPublisher => Signals {
                consumers: false,
                publisher: false,
                claimant: false,
            },
            Op::Unclaim | Op::Subscribe => Signals {
                consumers: false,
                publisher: false,
                claimant: true,
            },
            Op::Publish(_) => Signals {
                consumers: !(self.admission() is Rejected),
                publisher: false,
                claimant: !(self.admission() is Full),
            },
            Op::Advance(_) | Op::Leave(_) => Signals {
                consumers: false,
                publisher: true,
                claimant: false,
            },
            Op::DropPublisher => Signals {
                consumers: self.publishers == 1,
                publisher: false,
                claimant: false,
            },
        }
    }
}

/// The invariant does not depend on the claim, and on the publishers only through the closing.
pub(crate) proof fn lemma_same_readers<T>(before: ChannelState<T>, after: ChannelState<T>)
    requires
        before.inv(),
        after.capacity == before.capacity,
        after.log == before.log,
        after.positions == before.positions,
        after.closed <==> after.publishers == 0,
    ensures
        after.inv(),
{
    assert forall|id: u64| after.registered(id) implies after.readable_from(
        #[trigger] after.positions[id] as int,
    ) by {
        assert(before.readable_from(before.positions[id] as int));
    }
}

} // verus!
