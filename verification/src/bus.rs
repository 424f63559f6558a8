//! `Bus`, the shared state of a channel, and `channel`, which makes one.
//!
//! A `Bus` is owned by whoever runs the channel and lent to the handles, `Publisher` and
//! `Consumer`, for each operation.

use crate::consumer::Consumer;
use crate::consumer_id::ConsumerIds;
use crate::controller::{ClaimGuard, SequenceController};
use crate::cursor::Cursor;
use crate::positions::{
    forget_position, no_positions, position_of, positions, set_position, slowest_position,
};
use crate::publisher::Publisher;
use crate::ring_buffer::{valid_capacity, RingBuffer};
use crate::sequence::{lemma_masked_is_remainder, lemma_remainders_differ};
use crate::sequence_barrier::{wait_step, SequenceBarrier, WaitStep};
use crate::signal::Signals;
use crate::state::{lemma_same_readers, ChannelState};
use crossbeam_utils::CachePadded;
use vstd::prelude::*;

verus! {

/// The state that the publishers and consumers of a channel share.
pub struct Bus<T> {
    ids: ConsumerIds,
    buffer: RingBuffer<T>,
    consumers: papaya::HashMap<u64, CachePadded<i64>>,
    controller: SequenceController,
    publishers: usize,
    log: Ghost<Seq<T>>,
}

impl<T> View for Bus<T> {
    type V = ChannelState<T>;

    closed spec fn view(&self) -> ChannelState<T> {
        ChannelState {
            capacity: self.buffer@.len(),
            log: self.log@,
            positions: positions(self.consumers),
            next_id: self.ids@,
            publishers: self.publishers as nat,
            closed: self.controller.closed(),
            claimed: self.controller.claimed(),
        }
    }
}

/// The slots hold the last `slots.len()` events, each at the remainder of its sequence number.
pub open spec fn holds_latest<T>(slots: Seq<Option<T>>, log: Seq<T>) -> bool {
    forall|s: int|
        #![trigger log[s]]
        0 <= s < log.len() && log.len() - slots.len() <= s ==> slots[s % (slots.len() as int)]
            == Some(log[s])
}

impl<T> Bus<T> {
    /// The parts of the bus agree with each other, and the state that they stand for is one that
    /// a channel can have.
    pub closed spec fn wf(&self) -> bool {
        &&& self.buffer.wf()
        &&& self.controller.position() == self.log@.len() - 1
        &&& self@.inv()
        &&& holds_latest(self.buffer@, self.log@)
    }

    /// The identity of the channel, of which nothing more is known. It ties the handles of the
    /// channel to it.
    pub closed spec fn identity(&self) -> int {
        self.controller.identity()
    }

    /// The slots of the ring buffer.
    pub closed spec fn slots(&self) -> Seq<Option<T>> {
        self.buffer@
    }

    /// What well-formedness says of the state and the slots.
    pub proof fn lemma_inv(&self)
        requires
            self.wf(),
        ensures
            self@.inv(),
            self.slots().len() == self@.capacity,
            holds_latest(self.slots(), self@.log),
            self@.capacity <= usize::MAX,
            self@.publishers <= usize::MAX,
    {
        self.buffer.lemma_capacity();
    }

    /// Creates the state of a new channel, with its first publisher counted.
    pub fn new(capacity: usize) -> (bus: Self)
        requires
            valid_capacity(capacity as int),
        ensures
            bus.wf(),
            bus@ == ChannelState::<T>::initial(capacity as nat),
            bus@.capacity == capacity,
            bus@.log.len() == 0,
            bus@.publishers == 1,
            !bus@.closed,
            !bus@.claimed,
            forall|id: u64| !#[trigger] bus@.positions.dom().contains(id),
            bus.slots() == Seq::new(capacity as nat, |i: int| None::<T>),
    {
        let bus = Bus {
            ids: ConsumerIds::default(),
            buffer: RingBuffer::new(capacity),
            consumers: no_positions(),
            controller: SequenceController::new(SequenceBarrier::new(Cursor::new(-1))),
            publishers: 1,
            log: Ghost(Seq::empty()),
        };
        assert(bus@.positions =~= Map::empty());
        bus
    }

    /// The number of slots in the ring buffer.
    pub fn capacity(&self) -> (capacity: usize)
        ensures
            capacity == self@.capacity,
    {
        self.buffer.capacity()
    }

    /// The highest sequence number that has been published, -1 while there is none.
    pub fn published(&self) -> (sequence: i64)
        requires
            self.wf(),
        ensures
            sequence == self@.published(),
    {
        self.controller.cursor()
    }

    /// Whether the last publisher is gone.
    pub fn is_closed(&self) -> (closed: bool)
        ensures
            closed == self@.closed,
    {
        self.controller.is_closed()
    }

    /// The number of publishers.
    pub fn publishers(&self) -> (count: usize)
        ensures
            count == self@.publishers,
    {
        self.publishers
    }

    /// The position of consumer `id`, if there is such a consumer.
    pub fn position(&self, id: u64) -> (position: Option<i64>)
        ensures
            position == (if self@.registered(id) {
                Some(self@.positions[id])
            } else {
                None
            }),
    {
        position_of(&self.consumers, id)
    }

    /// The position of the consumer that is furthest behind, if there is any consumer.
    pub fn slowest(&self) -> (slowest: Option<i64>)
        ensures
            slowest is None <==> self@.deserted(),
            slowest matches Some(least) ==> {
                &&& forall|id: u64| self@.registered(id) ==> least <= #[trigger] self@.positions[id]
                &&& exists|id: u64| self@.registered(id) && #[trigger] self@.positions[id] == least
            },
    {
        let slowest: Option<i64> = slowest_position(&self.consumers);
        proof {
            let held = positions(self.consumers);
            assert(held == self@.positions);
            if let Some(least) = slowest {
                let id = choose|id: u64| held.dom().contains(id) && #[trigger] held[id] == least;
                assert(self@.registered(id) && self@.positions[id] == least);
            } else {
                assert forall|id: u64| !#[trigger] self@.registered(id) by {
                    assert(!held.dom().contains(id));
                }
            }
        }
        slowest
    }

    /// Claims the next sequence number, if no other publisher holds the claim.
    pub(crate) fn claim_slot(&mut self) -> (claim: Option<ClaimGuard>)
        requires
            old(self).wf(),
            !old(self)@.claimed ==> old(self)@.published() < i64::MAX,
        ensures
            final(self).wf(),
            claim is Some <==> !old(self)@.claimed,
            claim matches Some(guard) ==> guard.sequence() == old(self)@.published() + 1
                && guard.channel() == old(self).identity(),
            final(self)@ == old(self)@.claim(),
            final(self).slots() == old(self).slots(),
            final(self).identity() == old(self).identity(),
    {
        let ghost before = self@;
        let claim = self.controller.claim_slot();
        proof {
            lemma_same_readers(before, self@);
        }
        claim
    }

    /// Gives a claim back.
    pub(crate) fn release_claim(&mut self, claim: ClaimGuard) -> (signals: Signals)
        requires
            old(self).wf(),
            old(self)@.claimed,
            claim.channel() == old(self).identity(),
        ensures
            final(self).wf(),
            final(self)@ == old(self)@.unclaim(),
            final(self).slots() == old(self).slots(),
            final(self).identity() == old(self).identity(),
            signals == (Signals { consumers: false, publisher: false, claimant: true }),
    {
        let ghost before = self@;
        let signals = self.controller.release_claim(claim);
        proof {
            lemma_same_readers(before, self@);
        }
        signals
    }

    /// Nudges the consumers, on whom a publisher waits.
    pub(crate) fn notify_consumers(&self) -> (signals: Signals)
        ensures
            signals == (Signals { consumers: true, publisher: false, claimant: false }),
    {
        self.controller.notify_one()
    }

    /// Writes `event` into the slot of `sequence` and makes it visible to the consumers.
    pub(crate) fn commit(&mut self, sequence: i64, event: T) -> (signals: Signals)
        requires
            old(self).wf(),
            sequence == old(self)@.published() + 1,
            !old(self)@.full(),
        ensures
            final(self).wf(),
            final(self)@ == old(self)@.publish(event),
            final(self).identity() == old(self).identity(),
            final(self).slots() == old(self).slots().update(
                sequence as int % (old(self)@.capacity as int),
                Some(event),
            ),
            signals == (Signals { consumers: true, publisher: false, claimant: false }),
    {
        let ghost before = self@;
        let ghost slots = self.buffer@;
        proof {
            self.buffer.lemma_capacity();
            lemma_masked_is_remainder(sequence, slots.len() as usize);
        }
        *self.buffer.get_mut(sequence) = Some(event);
        let signals = self.controller.publish(sequence);
        self.log = Ghost(self.log@.push(event));
        proof {
            assert(self@ =~= before.publish(event));
            let count = slots.len() as int;
            assert forall|s: int|
                #![trigger self.log@[s]]
                0 <= s < self.log@.len() && self.log@.len() - count
                    <= s implies self.buffer@[s % count] == Some(self.log@[s]) by {
                if s < sequence {
                    assert(before.log[s] == self.log@[s]);
                    lemma_remainders_differ(s, sequence as int, count);
                    vstd::arithmetic::div_mod::lemma_mod_bound(s, count);
                }
            }
            assert forall|id: u64| self@.registered(id) implies self@.readable_from(
                #[trigger] self@.positions[id] as int,
            ) by {
                assert(before.readable_from(before.positions[id] as int));
                assert(before.published() + 1 - before.positions[id] < before.capacity);
            }
        }
        signals
    }

    /// Adds a consumer at `position` and returns its identifier.
    pub(crate) fn register(&mut self, position: i64) -> (id: u64)
        requires
            old(self).wf(),
            old(self)@.readable_from(position as int),
        ensures
            final(self).wf(),
            id == old(self)@.next_id,
            final(self)@ == old(self)@.register(position),
            final(self).slots() == old(self).slots(),
            final(self).identity() == old(self).identity(),
    {
        let ghost before = self@;
        let id: u64 = self.ids.next_id();
        set_position(&mut self.consumers, id, position);
        proof {
            assert(self@ =~= before.register(position));
            assert forall|other: u64| self@.registered(other) implies self@.readable_from(
                #[trigger] self@.positions[other] as int,
            ) by {
                if other != id {
                    assert(before.readable_from(before.positions[other] as int));
                }
            }
        }
        id
    }

    /// Moves consumer `id` one event on. The publisher that waits for space is to be woken.
    pub(crate) fn advance(&mut self, id: u64) -> (signals: Signals)
        requires
            old(self).wf(),
            old(self)@.registered(id) ==> old(self)@.positions[id] < old(self)@.published(),
        ensures
            final(self).wf(),
            final(self)@ == old(self)@.advance(id),
            final(self).slots() == old(self).slots(),
            final(self).identity() == old(self).identity(),
            signals == (Signals { consumers: false, publisher: true, claimant: false }),
    {
        let ghost before = self@;
        if let Some(position) = position_of(&self.consumers, id) {
            set_position(&mut self.consumers, id, position.wrapping_add(1));
            proof {
                assert(self@ =~= before.advance(id));
                assert(before.readable_from(before.positions[id] as int));
                assert forall|other: u64| self@.registered(other) implies self@.readable_from(
                    #[trigger] self@.positions[other] as int,
                ) by {
                    assert(before.readable_from(before.positions[other] as int));
                }
            }
        }
        Signals::to_publisher()
    }

    /// Takes consumer `id` out. The publisher that waits for space is to be woken.
    pub(crate) fn remove(&mut self, id: u64) -> (signals: Signals)
        requires
            old(self).wf(),
        ensures
            final(self).wf(),
            final(self)@ == old(self)@.remove(id),
            final(self).slots() == old(self).slots(),
            final(self).identity() == old(self).identity(),
            signals == (Signals { consumers: false, publisher: true, claimant: false }),
    {
        let ghost before = self@;
        forget_position(&mut self.consumers, id);
        proof {
            assert(self@ =~= before.remove(id));
            assert forall|other: u64| self@.registered(other) implies self@.readable_from(
                #[trigger] self@.positions[other] as int,
            ) by {
                assert(before.readable_from(before.positions[other] as int));
            }
        }
        Signals::to_publisher()
    }

    /// What a consumer finds that waits for the published cursor to pass `target`.
    pub(crate) fn wait_until(&self, target: i64) -> (step: WaitStep)
        requires
            self.wf(),
        ensures
            step == wait_step(self@.published(), self@.closed, target as int),
    {
        self.controller.wait_until(target)
    }

    /// The event under `sequence`, which is one of the last that were published.
    pub(crate) fn event(&self, sequence: i64) -> (event: &T)
        requires
            self.wf(),
            0 <= sequence <= self@.published(),
            self@.published() - sequence < self@.capacity,
        ensures
            *event == self@.log[sequence as int],
    {
        proof {
            self.buffer.lemma_capacity();
            lemma_masked_is_remainder(sequence, self.buffer@.len() as usize);
            assert(self.slots()[sequence as int % (self.buffer@.len() as int)] == Some(
                self.log@[sequence as int],
            ));
        }
        match self.buffer.get(sequence) {
            Some(event) => event,
            None => vstd::pervasive::unreached(),
        }
    }

    /// Counts one more publisher.
    pub(crate) fn add_publisher(&mut self)
        requires
            old(self).wf(),
            0 < old(self)@.publishers < usize::MAX,
        ensures
            final(self).wf(),
            final(self)@ == old(self)@.add_publisher(),
            final(self).slots() == old(self).slots(),
            final(self).identity() == old(self).identity(),
    {
        let ghost before = self@;
        self.publishers = self.publishers + 1;
        proof {
            lemma_same_readers(before, self@);
        }
    }

    /// Counts one publisher less, and closes the channel with the last one.
    pub(crate) fn drop_publisher(&mut self) -> (signals: Signals)
        requires
            old(self).wf(),
            0 < old(self)@.publishers,
        ensures
            final(self).wf(),
            final(self)@ == old(self)@.drop_publisher(),
            final(self).slots() == old(self).slots(),
            final(self).identity() == old(self).identity(),
            signals == (Signals {
                consumers: old(self)@.publishers == 1,
                publisher: false,
                claimant: false,
            }),
    {
        let ghost before = self@;
        self.publishers = self.publishers - 1;
        let signals = if self.publishers == 0 {
            self.controller.close()
        } else {
            Signals::none()
        };
        proof {
            lemma_same_readers(before, self@);
        }
        signals
    }
}

/// Creates a channel whose ring buffer has `capacity` slots, with a publisher and a consumer.
pub fn channel<E>(capacity: usize) -> (made: (Bus<E>, Publisher, Consumer))
    requires
        valid_capacity(capacity as int),
    ensures
        made.0.wf(),
        made.0@ == ChannelState::<E>::initial(capacity as nat).register(-1i64),
        made.0@.capacity == capacity,
        made.0@.log.len() == 0,
        made.0@.publishers == 1,
        !made.0@.closed,
        !made.0@.claimed,
        made.0@.positions =~= Map::<u64, i64>::empty().insert(0u64, -1i64),
        made.0.slots() == Seq::new(capacity as nat, |i: int| None::<E>),
        made.1.channel() == made.0.identity(),
        made.2.channel() == made.0.identity(),
        made.2.id() == 0,
        !made.2.fenced(),
{
    let mut bus = Bus::new(capacity);
    let consumer = Consumer::new(&mut bus, -1);
    let publisher = Publisher::new(&bus);
    (bus, publisher, consumer)
}

} // verus!
