//! `Consumer`, the receiving end of a channel, and the guards through which it is given events.
//!
//! A consumer keeps its own position. It moves on only when the guard of its event is released,
//! so an event counts as consumed when it has been processed and not before.

use crate::bus::Bus;
use crate::fence::{Fence, Guard, OwnedGuard};
use crate::sequence_barrier::WaitStep;
use crate::signal::Signals;
use crate::state::Op;
use vstd::prelude::*;

verus! {

/// What a consumer finds that asks for its next event: the event, under a guard of type `E`, or
/// nothing yet, and then the right to ask, of type `G`, comes back.
pub enum NextStep<E, G> {
    /// The next event.
    Ready(E),
    /// All publishers are gone, and every event has been consumed.
    Closed,
    /// No event yet: wait until one is published, and ask again.
    Pending(G),
}

/// An event that its consumer is processing.
pub struct EventGuard {
    id: u64,
    sequence: i64,
    guard: Guard,
    channel: Ghost<int>,
}

/// An `EventGuard` of a consumer that several tasks share.
pub struct OwnedEventGuard {
    id: u64,
    sequence: i64,
    guard: OwnedGuard,
    channel: Ghost<int>,
}

/// The receiving end of a channel.
pub struct Consumer {
    id: u64,
    fence: Fence,
    channel: Ghost<int>,
}

impl EventGuard {
    /// The consumer that the event was given to.
    pub closed spec fn id(&self) -> u64 {
        self.id
    }

    /// The identity of the channel that the event comes from.
    pub closed spec fn channel(&self) -> int {
        self.channel@
    }

    /// The identity of the fence that is held with the event.
    pub closed spec fn fence_identity(&self) -> int {
        self.guard.identity()
    }

    /// The sequence number of the event.
    pub closed spec fn sequence(&self) -> i64 {
        self.sequence
    }

    /// The event.
    pub fn deref<'a, T>(&self, bus: &'a Bus<T>) -> (event: &'a T)
        requires
            bus.wf(),
            self.channel() == bus.identity(),
            bus@.reading(self.id(), self.sequence() as int),
        ensures
            *event == bus@.log[self.sequence() as int],
            *event == bus@.unread(self.id())[0],
    {
        read_event(bus, self.id, self.sequence)
    }

    /// Ends the processing of the event: the consumer moves on, its fence is free again, and the
    /// publisher that waits for space is to be woken.
    pub fn release<T>(self, consumer: &mut Consumer, bus: &mut Bus<T>) -> (signals: Signals)
        requires
            old(bus).wf(),
            self.channel() == old(bus).identity(),
            old(consumer).channel() == old(bus).identity(),
            self.id() == old(consumer).id(),
            self.fence_identity() == old(consumer).fence_identity(),
            old(consumer).fenced(),
            old(bus)@.reading(self.id(), self.sequence() as int),
        ensures
            final(bus).wf(),
            final(bus).identity() == old(bus).identity(),
            final(bus)@ == old(bus)@.advance(self.id()),
            final(bus)@.positions[self.id()] == self.sequence(),
            final(bus).slots() == old(bus).slots(),
            final(bus)@ == old(bus)@.apply(Op::Advance(self.id())),
            signals == old(bus)@.signals(Op::Advance(self.id())),
            final(consumer).id() == old(consumer).id(),
            final(consumer).channel() == old(consumer).channel(),
            final(consumer).fence_identity() == old(consumer).fence_identity(),
            !final(consumer).fenced(),
            signals == (Signals { consumers: false, publisher: true, claimant: false }),
    {
        let signals = consumer.advance(bus);
        self.guard.release(&mut consumer.fence);
        signals
    }
}

impl OwnedEventGuard {
    /// The consumer that the event was given to.
    pub closed spec fn id(&self) -> u64 {
        self.id
    }

    /// The identity of the channel that the event comes from.
    pub closed spec fn channel(&self) -> int {
        self.channel@
    }

    /// The identity of the fence that is held with the event.
    pub closed spec fn fence_identity(&self) -> int {
        self.guard.identity()
    }

    /// The sequence number of the event.
    pub closed spec fn sequence(&self) -> i64 {
        self.sequence
    }

    /// The event.
    pub fn deref<'a, T>(&self, bus: &'a Bus<T>) -> (event: &'a T)
        requires
            bus.wf(),
            self.channel() == bus.identity(),
            bus@.reading(self.id(), self.sequence() as int),
        ensures
            *event == bus@.log[self.sequence() as int],
            *event == bus@.unread(self.id())[0],
    {
        read_event(bus, self.id, self.sequence)
    }

    /// Ends the processing of the event: the consumer moves on, its fence is free again, and the
    /// publisher that waits for space is to be woken.
    pub fn release<T>(self, consumer: &mut Consumer, bus: &mut Bus<T>) -> (signals: Signals)
        requires
            old(bus).wf(),
            self.channel() == old(bus).identity(),
            old(consumer).channel() == old(bus).identity(),
            self.id() == old(consumer).id(),
            self.fence_identity() == old(consumer).fence_identity(),
            old(consumer).fenced(),
            old(bus)@.reading(self.id(), self.sequence() as int),
        ensures
            final(bus).wf(),
            final(bus).identity() == old(bus).identity(),
            final(bus)@ == old(bus)@.advance(self.id()),
            final(bus)@.positions[self.id()] == self.sequence(),
            final(bus).slots() == old(bus).slots(),
            final(bus)@ == old(bus)@.apply(Op::Advance(self.id())),
            signals == old(bus)@.signals(Op::Advance(self.id())),
            final(consumer).id() == old(consumer).id(),
            final(consumer).channel() == old(consumer).channel(),
            final(consumer).fence_identity() == old(consumer).fence_identity(),
            !final(consumer).fenced(),
            signals == (Signals { consumers: false, publisher: true, claimant: false }),
    {
        let signals = consumer.advance(bus);
        self.guard.release(&mut consumer.fence);
        signals
    }
}

/// The event that consumer `id` reads under `sequence`. It is always there.
fn read_event<'a, T>(bus: &'a Bus<T>, id: u64, sequence: i64) -> (event: &'a T)
    requires
        bus.wf(),
        bus@.reading(id, sequence as int),
    ensures
        *event == bus@.log[sequence as int],
        *event == bus@.unread(id)[0],
{
    proof {
        bus.lemma_inv();
        assert(bus@.readable_from(bus@.positions[id] as int));
    }
    bus.event(sequence)
}

impl Consumer {
    /// The identifier of the consumer.
    pub closed spec fn id(&self) -> u64 {
        self.id
    }

    /// The identity of the channel that the consumer belongs to.
    pub closed spec fn channel(&self) -> int {
        self.channel@
    }

    /// The identity of the fence of the consumer.
    pub closed spec fn fence_identity(&self) -> int {
        self.fence.identity()
    }

    /// Whether the fence of the consumer is taken.
    pub closed spec fn fenced(&self) -> bool {
        self.fence@
    }

    /// Adds a consumer to the bus, done with the events up to `init_cursor`.
    pub(crate) fn new<T>(bus: &mut Bus<T>, init_cursor: i64) -> (consumer: Self)
        requires
            old(bus).wf(),
            old(bus)@.readable_from(init_cursor as int),
        ensures
            final(bus).wf(),
            final(bus).identity() == old(bus).identity(),
            final(bus)@ == old(bus)@.register(init_cursor),
            final(bus).slots() == old(bus).slots(),
            consumer.id() == old(bus)@.next_id,
            consumer.channel() == old(bus).identity(),
            !consumer.fenced(),
    {
        let id: u64 = bus.register(init_cursor);
        Consumer { id, fence: Fence::default(), channel: Ghost(bus.identity()) }
    }

    /// The identifier under which the bus knows the consumer.
    pub fn get_id(&self) -> (id: u64)
        ensures
            id == self.id(),
    {
        self.id
    }

    /// Adds a consumer at the same position, which goes on independently.
    pub fn clone<T>(&self, bus: &mut Bus<T>) -> (consumer: Consumer)
        requires
            old(bus).wf(),
            self.channel() == old(bus).identity(),
            old(bus)@.registered(self.id()),
        ensures
            final(bus).wf(),
            final(bus).identity() == old(bus).identity(),
            final(bus)@ == old(bus)@.register(old(bus)@.positions[self.id()]),
            final(bus).slots() == old(bus).slots(),
            final(bus)@ == old(bus)@.apply(Op::Clone(self.id())),
            consumer.id() == old(bus)@.next_id,
            consumer.channel() == old(bus).identity(),
            !consumer.fenced(),
    {
        let current: i64 = self.current(bus);
        proof {
            bus.lemma_inv();
        }
        Consumer::new(bus, current)
    }

    /// The position of the consumer.
    fn current<T>(&self, bus: &Bus<T>) -> (position: i64)
        requires
            bus@.registered(self.id()),
        ensures
            position == bus@.positions[self.id()],
    {
        match bus.position(self.id) {
            Some(position) => position,
            None => vstd::pervasive::unreached(),
        }
    }

    /// Moves the consumer one event on. The publisher that waits for space is to be woken.
    fn advance<T>(&self, bus: &mut Bus<T>) -> (signals: Signals)
        requires
            old(bus).wf(),
            old(bus)@.registered(self.id()) ==> old(bus)@.positions[self.id()] < old(
                bus,
            )@.published(),
        ensures
            final(bus).wf(),
            final(bus).identity() == old(bus).identity(),
            final(bus)@ == old(bus)@.advance(self.id()),
            final(bus).slots() == old(bus).slots(),
            signals == (Signals { consumers: false, publisher: true, claimant: false }),
    {
        bus.advance(self.id)
    }

    /// Takes the fence of the consumer, which gives the right to ask for the next event. `None`
    /// while an event is being processed or another task is asking.
    pub fn try_acquire(&mut self) -> (guard: Option<Guard>)
        ensures
            guard is Some <==> !old(self).fenced(),
            final(self).fenced(),
            final(self).id() == old(self).id(),
            final(self).channel() == old(self).channel(),
            final(self).fence_identity() == old(self).fence_identity(),
            guard matches Some(handed_out) ==> handed_out.identity() == old(
                self,
            ).fence_identity(),
    {
        self.fence.try_acquire()
    }

    /// `try_acquire` for a consumer that several tasks share.
    pub fn try_acquire_owned(&mut self) -> (guard: Option<OwnedGuard>)
        ensures
            guard is Some <==> !old(self).fenced(),
            final(self).fenced(),
            final(self).id() == old(self).id(),
            final(self).channel() == old(self).channel(),
            final(self).fence_identity() == old(self).fence_identity(),
            guard matches Some(handed_out) ==> handed_out.identity() == old(
                self,
            ).fence_identity(),
    {
        self.fence.try_acquire_owned()
    }

    /// Gives the right to ask back, as when a task is cancelled while it waits.
    pub fn release(&mut self, guard: Guard)
        requires
            old(self).fenced(),
            guard.identity() == old(self).fence_identity(),
        ensures
            !final(self).fenced(),
            final(self).id() == old(self).id(),
            final(self).channel() == old(self).channel(),
            final(self).fence_identity() == old(self).fence_identity(),
    {
        guard.release(&mut self.fence);
    }

    /// `release` for a consumer that several tasks share.
    pub fn release_owned(&mut self, guard: OwnedGuard)
        requires
            old(self).fenced(),
            guard.identity() == old(self).fence_identity(),
        ensures
            !final(self).fenced(),
            final(self).id() == old(self).id(),
            final(self).channel() == old(self).channel(),
            final(self).fence_identity() == old(self).fence_identity(),
    {
        guard.release(&mut self.fence);
    }

    /// Looks for the next event. `Ready` holds its sequence number.
    fn take_event<T>(&self, bus: &Bus<T>) -> (step: NextStep<i64, ()>)
        requires
            bus.wf(),
            bus@.registered(self.id()),
        ensures
            match bus@.next_step(self.id()) {
                WaitStep::Reached => step matches NextStep::Ready(sequence) && bus@.reading(
                    self.id(),
                    sequence as int,
                ),
                WaitStep::Closed => step is Closed,
                WaitStep::Pending => step is Pending,
            },
    {
        let current_sequence: i64 = self.current(bus);
        proof {
            bus.lemma_inv();
        }
        match bus.wait_until(current_sequence) {
            WaitStep::Reached => NextStep::Ready(current_sequence + 1),
            WaitStep::Closed => NextStep::Closed,
            WaitStep::Pending => NextStep::Pending(()),
        }
    }

    /// Asks for the next event, with the right that `try_acquire` gave.
    ///
    /// The position of the consumer does not change. On `Closed` the fence is given back.
    pub fn next<T>(&mut self, bus: &Bus<T>, guard: Guard) -> (step: NextStep<EventGuard, Guard>)
        requires
            bus.wf(),
            old(self).channel() == bus.identity(),
            bus@.registered(old(self).id()),
            old(self).fenced(),
            guard.identity() == old(self).fence_identity(),
        ensures
            final(self).id() == old(self).id(),
            final(self).channel() == old(self).channel(),
            final(self).fence_identity() == old(self).fence_identity(),
            match bus@.next_step(old(self).id()) {
                WaitStep::Reached => {
                    &&& step matches NextStep::Ready(event)
                    &&& event.id() == old(self).id()
                    &&& event.channel() == bus.identity()
                    &&& event.fence_identity() == old(self).fence_identity()
                    &&& bus@.reading(old(self).id(), event.sequence() as int)
                    &&& final(self).fenced()
                },
                WaitStep::Closed => step is Closed && !final(self).fenced(),
                WaitStep::Pending => step == NextStep::<EventGuard, Guard>::Pending(guard)
                    && final(self).fenced(),
            },
    {
        match self.take_event(bus) {
            NextStep::Ready(sequence) => NextStep::Ready(
                EventGuard { id: self.id, sequence, guard, channel: self.channel },
            ),
            NextStep::Closed => {
                self.release(guard);
                NextStep::Closed
            },
            NextStep::Pending(_) => NextStep::Pending(guard),
        }
    }

    /// `next` for a consumer that several tasks share.
    pub fn next_owned<T>(&mut self, bus: &Bus<T>, guard: OwnedGuard) -> (step: NextStep<
        OwnedEventGuard,
        OwnedGuard,
    >)
        requires
            bus.wf(),
            old(self).channel() == bus.identity(),
            bus@.registered(old(self).id()),
            old(self).fenced(),
            guard.identity() == old(self).fence_identity(),
        ensures
            final(self).id() == old(self).id(),
            final(self).channel() == old(self).channel(),
            final(self).fence_identity() == old(self).fence_identity(),
            match bus@.next_step(old(self).id()) {
                WaitStep::Reached => {
                    &&& step matches NextStep::Ready(event)
                    &&& event.id() == old(self).id()
                    &&& event.channel() == bus.identity()
                    &&& event.fence_identity() == old(self).fence_identity()
                    &&& bus@.reading(old(self).id(), event.sequence() as int)
                    &&& final(self).fenced()
                },
                WaitStep::Closed => step is Closed && !final(self).fenced(),
                WaitStep::Pending => step == NextStep::<OwnedEventGuard, OwnedGuard>::Pending(guard)
                    && final(self).fenced(),
            },
    {
        match self.take_event(bus) {
            NextStep::Ready(sequence) => NextStep::Ready(
                OwnedEventGuard { id: self.id, sequence, guard, channel: self.channel },
            ),
            NextStep::Closed => {
                self.release_owned(guard);
                NextStep::Closed
            },
            NextStep::Pending(_) => NextStep::Pending(guard),
        }
    }

    /// Leaves the channel, which no longer waits for this consumer. The publisher that waits for
    /// space is to be woken.
    pub fn leave<T>(self, bus: &mut Bus<T>) -> (signals: Signals)
        requires
            old(bus).wf(),
            self.channel() == old(bus).identity(),
        ensures
            final(bus).wf(),
            final(bus).identity() == old(bus).identity(),
            final(bus)@ == old(bus)@.remove(self.id()),
            !final(bus)@.positions.dom().contains(self.id()),
            final(bus)@.positions == old(bus)@.positions.remove(self.id()),
            final(bus).slots() == old(bus).slots(),
            final(bus)@ == old(bus)@.apply(Op::Leave(self.id())),
            signals == old(bus)@.signals(Op::Leave(self.id())),
            signals == (Signals { consumers: false, publisher: true, claimant: false }),
    {
        bus.remove(self.id)
    }
}

} // verus!
