//! `Publisher`, the sending end of a channel.
//!
//! To publish, a publisher first claims the next sequence number, and then offers its event under
//! that claim until the buffer has room. Both steps return at once; what a publisher that has to
//! wait waits for is told by the step that it was refused at.

use crate::bus::Bus;
use crate::consumer::Consumer;
use crate::controller::ClaimGuard;
use crate::effects::law_fate_of_an_offer;
use crate::ring_buffer::lemma_capacity_bound;
use crate::signal::Signals;
use crate::state::{Admission, Op};
use vstd::prelude::*;

verus! {

/// What became of an event that was offered.
pub enum PublishStep<T> {
    /// The event is in the channel.
    Published,
    /// There is no consumer, and the event goes back to its owner.
    Rejected(T),
    /// The buffer is full: wait until a consumer makes progress, and offer the event again.
    Full(ClaimGuard, T),
}

/// The sending end of a channel. The channel closes when its last publisher leaves.
pub struct Publisher {
    channel: Ghost<int>,
}

/// Tells whether an event under `next_sequence` would overwrite one that a consumer at
/// `slowest` is not done with, in a buffer of `capacity` slots.
fn would_overwrite(next_sequence: i64, slowest: i64, capacity: usize) -> (full: bool)
    requires
        0 < capacity <= 0x8000_0000_0000_0000,
    ensures
        full <==> next_sequence - slowest >= capacity,
{
    if slowest < next_sequence {
        match next_sequence.checked_sub(slowest) {
            Some(ahead) => match usize::try_from(ahead) {
                Ok(offset) => offset >= capacity,
                Err(_) => true,
            },
            None => true,
        }
    } else {
        false
    }
}

impl Publisher {
    /// The identity of the channel that the publisher belongs to.
    pub closed spec fn channel(&self) -> int {
        self.channel@
    }

    /// The handle of a publisher that the bus has counted.
    pub(crate) fn new<T>(bus: &Bus<T>) -> (publisher: Self)
        ensures
            publisher.channel() == bus.identity(),
    {
        Publisher { channel: Ghost(bus.identity()) }
    }

    /// Adds a publisher, which publishes to the same stream of sequence numbers.
    pub fn clone<T>(&self, bus: &mut Bus<T>) -> (publisher: Publisher)
        requires
            old(bus).wf(),
            self.channel() == old(bus).identity(),
            0 < old(bus)@.publishers < usize::MAX,
        ensures
            final(bus).wf(),
            final(bus).identity() == old(bus).identity(),
            final(bus)@ == old(bus)@.add_publisher(),
            final(bus)@.publishers == old(bus)@.publishers + 1,
            !final(bus)@.closed,
            final(bus).slots() == old(bus).slots(),
            final(bus)@ == old(bus)@.apply(Op::AddPublisher),
            publisher.channel() == old(bus).identity(),
    {
        proof {
            bus.lemma_inv();
        }
        bus.add_publisher();
        Publisher::new(bus)
    }

    /// Claims the next sequence number. `None` if another publisher holds the claim: wait for
    /// one's turn, and try again.
    pub fn claim_slot<T>(&self, bus: &mut Bus<T>) -> (claim: Option<ClaimGuard>)
        requires
            old(bus).wf(),
            self.channel() == old(bus).identity(),
            0 < old(bus)@.publishers,
            !old(bus)@.claimed ==> old(bus)@.published() < i64::MAX,
        ensures
            final(bus).wf(),
            final(bus).identity() == old(bus).identity(),
            claim is Some <==> !old(bus)@.claimed,
            claim matches Some(guard) ==> guard.sequence() == old(bus)@.published() + 1
                && guard.channel() == old(bus).identity(),
            final(bus)@ == old(bus)@.claim(),
            final(bus).slots() == old(bus).slots(),
            final(bus)@ == old(bus)@.apply(Op::Claim),
    {
        bus.claim_slot()
    }

    /// Gives a claim back without publishing, as when a publisher is cancelled while it waits.
    pub fn release_claim<T>(&self, bus: &mut Bus<T>, claim: ClaimGuard) -> (signals: Signals)
        requires
            old(bus).wf(),
            self.channel() == old(bus).identity(),
            0 < old(bus)@.publishers,
            old(bus)@.claimed,
            claim.sequence() == old(bus)@.published() + 1,
            claim.channel() == old(bus).identity(),
        ensures
            final(bus).wf(),
            final(bus).identity() == old(bus).identity(),
            final(bus)@ == old(bus)@.unclaim(),
            final(bus).slots() == old(bus).slots(),
            final(bus)@ == old(bus)@.apply(Op::Unclaim),
            signals == old(bus)@.signals(Op::Unclaim),
            signals == (Signals { consumers: false, publisher: false, claimant: true }),
    {
        bus.release_claim(claim)
    }

    /// Offers `event` under `claim`.
    ///
    /// With no consumer, the event comes back and nothing is published. With a consumer whose
    /// unread events fill the buffer, claim and event come back and nothing changes. Otherwise the
    /// event is published. The claim is given back with the two outcomes that settle the offer.
    pub fn publish<T>(&self, bus: &mut Bus<T>, claim: ClaimGuard, event: T) -> (result: (
        PublishStep<T>,
        Signals,
    ))
        requires
            old(bus).wf(),
            self.channel() == old(bus).identity(),
            0 < old(bus)@.publishers,
            old(bus)@.claimed,
            claim.sequence() == old(bus)@.published() + 1,
            claim.channel() == old(bus).identity(),
        ensures
            final(bus).wf(),
            final(bus).identity() == old(bus).identity(),
            match old(bus)@.admission() {
                Admission::Rejected => {
                    &&& result.0 == PublishStep::Rejected(event)
                    &&& final(bus)@ == old(bus)@.unclaim()
                    &&& final(bus).slots() == old(bus).slots()
                    &&& result.1 == (Signals { consumers: false, publisher: false, claimant: true })
                },
                Admission::Full => {
                    &&& result.0 == PublishStep::Full(claim, event)
                    &&& final(bus)@ == old(bus)@
                    &&& final(bus).slots() == old(bus).slots()
                    &&& result.1 == (Signals { consumers: true, publisher: false, claimant: false })
                },
                Admission::Admitted => {
                    &&& result.0 == PublishStep::<T>::Published
                    &&& final(bus)@ == old(bus)@.publish(event).unclaim()
                    &&& final(bus).slots() == old(bus).slots().update(
                        (old(bus)@.published() + 1) % (old(bus)@.capacity as int),
                        Some(event),
                    )
                    &&& result.1 == (Signals { consumers: true, publisher: false, claimant: true })
                },
            },
            result.0 is Rejected <==> forall|id: u64|
                !#[trigger] old(bus)@.positions.dom().contains(id),
            result.0 is Full <==> exists|id: u64|
                #![trigger old(bus)@.positions[id]]
                old(bus)@.positions.dom().contains(id) && old(bus)@.log.len() - old(
                    bus,
                )@.positions[id] >= old(bus)@.capacity,
            result.0 is Published ==> final(bus)@.log == old(bus)@.log.push(event),
            !(result.0 is Published) ==> final(bus)@.log == old(bus)@.log,
            final(bus)@ == old(bus)@.apply(Op::Publish(event)),
            result.1 == old(bus)@.signals(Op::Publish(event)),
    {
        proof {
            law_fate_of_an_offer(bus@);
        }
        let next_sequence: i64 = claim.deref();
        let slowest: i64 = match bus.slowest() {
            Some(slowest) => slowest,
            None => {
                let turn = bus.release_claim(claim);
                return (PublishStep::Rejected(event), turn);
            },
        };
        let capacity: usize = bus.capacity();
        proof {
            bus.lemma_inv();
            lemma_capacity_bound(capacity as int);
        }
        if would_overwrite(next_sequence, slowest, capacity) {
            return (PublishStep::Full(claim, event), bus.notify_consumers());
        }
        let signals = bus.commit(next_sequence, event);
        let turn = bus.release_claim(claim);
        (PublishStep::Published, signals.and(turn))
    }

    /// Adds a consumer that receives the events published from now on. The claim, which keeps
    /// other publishers out meanwhile, is given back.
    pub fn subscribe<T>(&self, bus: &mut Bus<T>, claim: ClaimGuard) -> (result: (Consumer, Signals))
        requires
            old(bus).wf(),
            self.channel() == old(bus).identity(),
            0 < old(bus)@.publishers,
            old(bus)@.claimed,
            claim.sequence() == old(bus)@.published() + 1,
            claim.channel() == old(bus).identity(),
        ensures
            final(bus).wf(),
            final(bus).identity() == old(bus).identity(),
            final(bus)@ == old(bus)@.register(old(bus)@.published() as i64).unclaim(),
            final(bus).slots() == old(bus).slots(),
            final(bus)@ == old(bus)@.apply(Op::Subscribe),
            result.1 == old(bus)@.signals(Op::Subscribe),
            result.0.id() == old(bus)@.next_id,
            result.0.channel() == old(bus).identity(),
            !result.0.fenced(),
            result.1 == (Signals { consumers: false, publisher: false, claimant: true }),
    {
        proof {
            bus.lemma_inv();
        }
        let consumer = Consumer::new(bus, claim.deref() - 1);
        let turn = bus.release_claim(claim);
        (consumer, turn)
    }

    /// Leaves the channel, and closes it if no publisher is left.
    pub fn leave<T>(self, bus: &mut Bus<T>) -> (signals: Signals)
        requires
            old(bus).wf(),
            self.channel() == old(bus).identity(),
            0 < old(bus)@.publishers,
        ensures
            final(bus).wf(),
            final(bus).identity() == old(bus).identity(),
            final(bus)@ == old(bus)@.drop_publisher(),
            final(bus)@.publishers == old(bus)@.publishers - 1,
            final(bus)@.closed <==> old(bus)@.publishers == 1,
            final(bus).slots() == old(bus).slots(),
            final(bus)@ == old(bus)@.apply(Op::DropPublisher),
            signals == old(bus)@.signals(Op::DropPublisher),
            signals == (Signals {
                consumers: old(bus)@.publishers == 1,
                publisher: false,
                claimant: false,
            }),
    {
        bus.drop_publisher()
    }
}

} // verus!
