//! What the words of the model mean and what each operation does, in terms of the parts of the
//! state: who is in the table and where, what has been published, how many publishers there are,
//! whether the channel is closed and whether it is claimed.

use crate::laws::{joined_by, law_initial, law_invariant_always, others};
use crate::ring_buffer::valid_capacity;
use crate::sequence_barrier::WaitStep;
use crate::state::{Admission, ChannelState, Op};
use vstd::arithmetic::power2::*;
use vstd::prelude::*;

verus! {

/// The published cursor is the number of the last event; a consumer is registered when it is in
/// the table; it can hold exactly the event right after its position, once that is published.
pub proof fn law_words_of_the_table<T>(
    state: ChannelState<T>,
    id: u64,
    position: int,
    sequence: int,
)
    ensures
        state.published() == state.log.len() - 1,
        state.registered(id) <==> state.positions.dom().contains(id),
        state.readable_from(position) <==> -1 <= position < state.log.len() && state.log.len() - 1
            - position < state.capacity,
        state.reading(id, sequence) <==> state.positions.dom().contains(id) && sequence
            == state.positions[id] + 1 && sequence < state.log.len(),
        state.deserted() <==> forall|other: u64| !#[trigger] state.positions.dom().contains(other),
        state.ids_in_order() <==> forall|other: u64| #[trigger]
            state.positions.dom().contains(other) ==> other < state.next_id,
{
    if state.ids_in_order() {
        assert forall|other: u64| #[trigger] state.positions.dom().contains(other) implies other
            < state.next_id by {
            assert(state.registered(other));
        }
    }
}

/// The invariant asks for a power of two from 2 on as the capacity, for the closing to go with the
/// last publisher, and of each consumer that it is at most at the last event and less than a
/// buffer behind it. It asks for nothing else.
pub proof fn law_invariant_in_full<T>(state: ChannelState<T>)
    ensures
        state.inv() <==> {
            &&& state.capacity >= 2
            &&& is_pow2(state.capacity as int)
            &&& state.log.len() - 1 <= i64::MAX
            &&& state.closed <==> state.publishers == 0
            &&& forall|id: u64|
                #![trigger state.positions[id]]
                state.positions.dom().contains(id) ==> -1 <= state.positions[id]
                    < state.log.len() && state.log.len() - 1 - state.positions[id] < state.capacity
        },
{
    if state.inv() {
        assert forall|id: u64|
            #![trigger state.positions[id]]
            state.positions.dom().contains(id) implies -1 <= state.positions[id] < state.log.len()
            && state.log.len() - 1 - state.positions[id] < state.capacity by {
            assert(state.registered(id));
            assert(state.readable_from(state.positions[id] as int));
        }
    }
    if {
        &&& state.capacity >= 2
        &&& is_pow2(state.capacity as int)
        &&& state.log.len() - 1 <= i64::MAX
        &&& state.closed <==> state.publishers == 0
        &&& forall|id: u64|
            #![trigger state.positions[id]]
            state.positions.dom().contains(id) ==> -1 <= state.positions[id] < state.log.len()
                && state.log.len() - 1 - state.positions[id] < state.capacity
    } {
        assert forall|id: u64| state.registered(id) implies state.readable_from(
            #[trigger] state.positions[id] as int,
        ) by {
            assert(state.positions.dom().contains(id));
        }
    }
}

/// The valid capacities are the powers of two other than 1, every one of them.
pub proof fn law_valid_capacities(capacity: int, exponent: nat)
    ensures
        valid_capacity(capacity) <==> capacity >= 2 && is_pow2(capacity),
        exponent >= 1 ==> valid_capacity(pow2(exponent) as int),
{
    if exponent >= 1 {
        lemma_pow2(exponent);
        is_pow2_equiv(pow2(exponent) as int);
        lemma2_to64();
        lemma_pow2_strictly_increases(0, exponent);
    }
}

/// What a consumer has still to receive are the events after its position, all of them and in
/// their order.
pub proof fn law_unread_events<T>(state: ChannelState<T>, id: u64, i: int)
    requires
        -1 <= state.positions[id] < state.log.len(),
    ensures
        state.unread(id).len() == state.log.len() - 1 - state.positions[id],
        0 <= i < state.unread(id).len() ==> state.unread(id)[i] == state.log[state.positions[id] + 1
            + i],
{
}

/// A consumer that asks for its next event is given it when there is an event after its position.
/// When there is none it is told of the end if the channel is closed, and waits if it is open.
pub proof fn law_asking_for_the_next_event<T>(state: ChannelState<T>, id: u64)
    ensures
        state.next_step(id) == WaitStep::Reached <==> state.positions[id] < state.log.len() - 1,
        state.next_step(id) == WaitStep::Closed <==> state.positions[id] >= state.log.len() - 1
            && state.closed,
        state.next_step(id) == WaitStep::Pending <==> state.positions[id] >= state.log.len() - 1
            && !state.closed,
{
}

/// An offer is rejected when there is no consumer and only then; it waits when some consumer has
/// so many events ahead of it that one more makes a bufferful; in all other cases it is admitted.
pub proof fn law_fate_of_an_offer<T>(state: ChannelState<T>)
    ensures
        state.admission() is Rejected <==> forall|id: u64|
            !#[trigger] state.positions.dom().contains(id),
        state.admission() is Full <==> exists|id: u64|
            #![trigger state.positions[id]]
            state.positions.dom().contains(id) && state.log.len() - state.positions[id]
                >= state.capacity,
        state.full() <==> exists|id: u64|
            #![trigger state.positions[id]]
            state.positions.dom().contains(id) && state.log.len() - state.positions[id]
                >= state.capacity,
        state.admission() is Admitted <==> {
            &&& exists|id: u64| #[trigger] state.positions.dom().contains(id)
            &&& forall|id: u64|
                #![trigger state.positions[id]]
                state.positions.dom().contains(id) ==> state.log.len() - state.positions[id]
                    < state.capacity
        },
{
    if exists|id: u64|
        #![trigger state.positions[id]]
        state.positions.dom().contains(id) && state.log.len() - state.positions[id]
            >= state.capacity {
        let id = choose|id: u64|
            #![trigger state.positions[id]]
            state.positions.dom().contains(id) && state.log.len() - state.positions[id]
                >= state.capacity;
        assert(state.registered(id));
        assert(state.published() + 1 - state.positions[id] >= state.capacity);
    }
    if state.full() {
        let id = choose|id: u64|
            state.registered(id) && state.published() + 1 - #[trigger] state.positions[id]
                >= state.capacity;
        assert(state.positions.dom().contains(id) && state.log.len() - state.positions[id]
            >= state.capacity);
    }
}

/// When each operation can be performed. A publisher's needs a publisher; using or giving back the
/// claim needs the claim; claiming anew, publishing and subscribing need a sequence number to be
/// left. A consumer's needs that consumer, and releasing an event needs one after its position.
pub proof fn law_when_operations_are_possible<T>(state: ChannelState<T>, event: T, id: u64)
    ensures
        state.enabled(Op::Claim) <==> state.publishers > 0 && (state.claimed || state.log.len() - 1
            < i64::MAX),
        state.enabled(Op::Unclaim) <==> state.publishers > 0 && state.claimed,
        state.enabled(Op::Publish(event)) <==> state.publishers > 0 && state.claimed
            && state.log.len() - 1 < i64::MAX,
        state.enabled(Op::Subscribe) <==> state.publishers > 0 && state.claimed && state.log.len()
            - 1 < i64::MAX,
        state.enabled(Op::Clone(id)) <==> state.positions.dom().contains(id),
        state.enabled(Op::Advance(id)) <==> state.positions.dom().contains(id)
            && state.positions[id] < state.log.len() - 1,
        state.enabled(Op::Leave(id)) <==> state.positions.dom().contains(id),
        state.enabled(Op::AddPublisher) <==> state.publishers > 0,
        state.enabled(Op::DropPublisher) <==> state.publishers > 0,
{
}

/// A new channel has the capacity it was asked for, nothing published, nobody in its table, one
/// publisher, and is open and unclaimed.
pub proof fn law_new_channel<T>(capacity: nat, id: u64)
    ensures
        ({
            let state = ChannelState::<T>::initial(capacity);
            &&& state.capacity == capacity
            &&& state.log.len() == 0
            &&& !state.positions.dom().contains(id)
            &&& state.next_id == 0
            &&& state.publishers == 1
            &&& !state.closed
            &&& !state.claimed
        }),
{
}

/// A consumer that joins gets the next identifier and the position it is given. Nobody else's
/// position changes, and nothing else does but the next identifier.
pub proof fn law_joining<T>(state: ChannelState<T>, position: i64, other: u64)
    ensures
        ({
            let after = state.register(position);
            &&& after.positions.dom().contains(state.next_id)
            &&& after.positions[state.next_id] == position
            &&& other != state.next_id ==> (after.positions.dom().contains(other)
                <==> state.positions.dom().contains(other))
            &&& other != state.next_id && state.positions.dom().contains(other)
                ==> after.positions[other] == state.positions[other]
            &&& state.next_id < u64::MAX ==> after.next_id == state.next_id + 1
            &&& state.next_id == u64::MAX ==> after.next_id == 0
            &&& after.capacity == state.capacity
            &&& after.log == state.log
            &&& after.publishers == state.publishers
            &&& after.closed == state.closed
            &&& after.claimed == state.claimed
        }),
{
}

/// With its first consumer, a new channel of any capacity from 2 on is ready: a publisher gets the
/// claim, an event that it offers is published under 0, and the consumer is given that event.
pub proof fn law_new_channel_is_ready<T>(capacity: nat, event: T)
    requires
        capacity >= 2,
    ensures
        ({
            let start = ChannelState::<T>::initial(capacity).register(-1i64);
            let after = start.apply(Op::Claim).apply(Op::Publish(event));
            &&& !start.claimed
            &&& !start.closed
            &&& start.positions.dom().contains(0)
            &&& start.positions[0] == -1
            &&& start.log.len() == 0
            &&& start.apply(Op::Claim).admission() is Admitted
            &&& after.log == seq![event]
            &&& !after.claimed
            &&& after.next_step(0) == WaitStep::Reached
            &&& after.unread(0) == seq![event]
            &&& after.apply(Op::Advance(0)).next_step(0) == WaitStep::Pending
        }),
{
    let start = ChannelState::<T>::initial(capacity).register(-1i64);
    let claimed = start.apply(Op::Claim);
    assert(claimed.positions.dom().contains(0));
    law_fate_of_an_offer(claimed);
    let after = claimed.apply(Op::Publish(event));
    assert(after.log =~= seq![event]);
    assert(after.unread(0) =~= seq![event]);
}

/// Claiming takes the claim and changes nothing else; giving it back frees it and changes nothing
/// else.
pub proof fn law_claiming<T>(state: ChannelState<T>)
    ensures
        ({
            let after = state.apply(Op::Claim);
            &&& after.claimed
            &&& after.capacity == state.capacity
            &&& after.log == state.log
            &&& after.positions == state.positions
            &&& after.next_id == state.next_id
            &&& after.publishers == state.publishers
            &&& after.closed == state.closed
        }),
        ({
            let after = state.apply(Op::Unclaim);
            &&& !after.claimed
            &&& after.capacity == state.capacity
            &&& after.log == state.log
            &&& after.positions == state.positions
            &&& after.next_id == state.next_id
            &&& after.publishers == state.publishers
            &&& after.closed == state.closed
        }),
{
}

/// With at least one consumer, each of which has room for one more event, an offer is published:
/// the event is appended to what was published before, the claim is free again, and nobody's
/// position changes.
pub proof fn law_offer_with_room_is_published<T>(state: ChannelState<T>, event: T, witness: u64)
    requires
        state.positions.dom().contains(witness),
        forall|id: u64|
            #![trigger state.positions[id]]
            state.positions.dom().contains(id) ==> state.log.len() - state.positions[id]
                < state.capacity,
    ensures
        ({
            let after = state.apply(Op::Publish(event));
            &&& state.admission() is Admitted
            &&& after.log.len() == state.log.len() + 1
            &&& after.log[state.log.len() as int] == event
            &&& forall|s: int| 0 <= s < state.log.len() ==> #[trigger] after.log[s] == state.log[s]
            &&& !after.claimed
            &&& after.positions == state.positions
            &&& after.next_id == state.next_id
            &&& after.publishers == state.publishers
            &&& after.closed == state.closed
            &&& after.capacity == state.capacity
        }),
{
    law_fate_of_an_offer(state);
}

/// With a consumer that has no room, an offer changes nothing at all, the claim included.
pub proof fn law_offer_without_room_waits<T>(state: ChannelState<T>, event: T, slow: u64)
    requires
        state.positions.dom().contains(slow),
        state.log.len() - state.positions[slow] >= state.capacity,
    ensures
        state.admission() is Full,
        state.apply(Op::Publish(event)) == state,
{
    law_fate_of_an_offer(state);
}

/// With no consumer, an offer changes nothing but the claim, which is free again.
pub proof fn law_offer_to_nobody_is_rejected<T>(state: ChannelState<T>, event: T)
    requires
        forall|id: u64| !#[trigger] state.positions.dom().contains(id),
    ensures
        ({
            let after = state.apply(Op::Publish(event));
            &&& state.admission() is Rejected
            &&& !after.claimed
            &&& after.log == state.log
            &&& after.positions == state.positions
            &&& after.next_id == state.next_id
            &&& after.publishers == state.publishers
            &&& after.closed == state.closed
            &&& after.capacity == state.capacity
        }),
{
    law_fate_of_an_offer(state);
}

/// A subscriber gets the next identifier and starts at the last published event; a clone gets the
/// next identifier and starts where its source is. In both cases nobody else's position changes.
/// A subscription frees the claim, a cloning leaves it; nothing else changes.
pub proof fn law_newcomers<T>(state: ChannelState<T>, source: u64, other: u64)
    requires
        state.log.len() - 1 <= i64::MAX,
    ensures
        ({
            let after = state.apply(Op::Subscribe);
            &&& after.positions.dom().contains(state.next_id)
            &&& after.positions[state.next_id] == state.log.len() - 1
            &&& other != state.next_id ==> (after.positions.dom().contains(other)
                <==> state.positions.dom().contains(other))
            &&& other != state.next_id && state.positions.dom().contains(other)
                ==> after.positions[other] == state.positions[other]
            &&& state.next_id < u64::MAX ==> after.next_id == state.next_id + 1
            &&& state.next_id == u64::MAX ==> after.next_id == 0
            &&& !after.claimed
            &&& after.capacity == state.capacity
            &&& after.log == state.log
            &&& after.publishers == state.publishers
            &&& after.closed == state.closed
        }),
        ({
            let after = state.apply(Op::Clone(source));
            &&& after.positions.dom().contains(state.next_id)
            &&& after.positions[state.next_id] == state.positions[source]
            &&& other != state.next_id ==> (after.positions.dom().contains(other)
                <==> state.positions.dom().contains(other))
            &&& other != state.next_id && state.positions.dom().contains(other)
                ==> after.positions[other] == state.positions[other]
            &&& state.next_id < u64::MAX ==> after.next_id == state.next_id + 1
            &&& state.next_id == u64::MAX ==> after.next_id == 0
            &&& after.claimed == state.claimed
            &&& after.capacity == state.capacity
            &&& after.log == state.log
            &&& after.publishers == state.publishers
            &&& after.closed == state.closed
        }),
{
}

/// A release moves its consumer on by exactly one event. Everybody else stays, and so does
/// everything else.
pub proof fn law_release_moves_one_consumer_by_one<T>(state: ChannelState<T>, id: u64, other: u64)
    requires
        state.positions.dom().contains(id),
        state.positions[id] < i64::MAX,
    ensures
        ({
            let after = state.apply(Op::Advance(id));
            &&& after.positions.dom().contains(id)
            &&& after.positions[id] == state.positions[id] + 1
            &&& after.positions.dom().contains(other) <==> state.positions.dom().contains(other)
            &&& other != id && state.positions.dom().contains(other) ==> after.positions[other]
                == state.positions[other]
            &&& after.capacity == state.capacity
            &&& after.log == state.log
            &&& after.next_id == state.next_id
            &&& after.publishers == state.publishers
            &&& after.closed == state.closed
            &&& after.claimed == state.claimed
        }),
{
}

/// A release for an identifier that nobody has changes nothing.
pub proof fn law_release_of_nobody<T>(state: ChannelState<T>, id: u64)
    requires
        !state.positions.dom().contains(id),
    ensures
        state.apply(Op::Advance(id)) == state,
{
}

/// A consumer that leaves is not in the table any more, wherever it was. Everybody else is, at the
/// same position, and nothing else changes.
pub proof fn law_leaving_consumer_is_gone<T>(state: ChannelState<T>, id: u64, other: u64)
    ensures
        ({
            let after = state.apply(Op::Leave(id));
            &&& !after.positions.dom().contains(id)
            &&& other != id ==> (after.positions.dom().contains(other)
                <==> state.positions.dom().contains(other))
            &&& other != id && state.positions.dom().contains(other) ==> after.positions[other]
                == state.positions[other]
            &&& after.capacity == state.capacity
            &&& after.log == state.log
            &&& after.next_id == state.next_id
            &&& after.publishers == state.publishers
            &&& after.closed == state.closed
            &&& after.claimed == state.claimed
        }),
{
}

/// When the only consumer has left, the next offer is rejected, whatever that consumer had
/// received.
pub proof fn law_offer_after_the_last_consumer_left<T>(state: ChannelState<T>, id: u64, event: T)
    requires
        forall|other: u64| #[trigger] state.positions.dom().contains(other) ==> other == id,
    ensures
        state.apply(Op::Leave(id)).admission() is Rejected,
        state.apply(Op::Leave(id)).apply(Op::Claim).admission() is Rejected,
        state.apply(Op::Leave(id)).apply(Op::Claim).apply(Op::Publish(event)).log == state.log,
{
    let left = state.apply(Op::Leave(id));
    assert forall|other: u64| !#[trigger] left.positions.dom().contains(other) by {
        law_leaving_consumer_is_gone(state, id, other);
    }
    law_fate_of_an_offer(left);
    law_offer_to_nobody_is_rejected(left.apply(Op::Claim), event);
}

/// A publisher's clone counts one more, and nothing else changes.
pub proof fn law_one_more_publisher<T>(state: ChannelState<T>)
    ensures
        ({
            let after = state.apply(Op::AddPublisher);
            &&& after.publishers == state.publishers + 1
            &&& after.capacity == state.capacity
            &&& after.log == state.log
            &&& after.positions == state.positions
            &&& after.next_id == state.next_id
            &&& after.closed == state.closed
            &&& after.claimed == state.claimed
        }),
{
}

/// A publisher's departure counts one less, and the channel is closed exactly when none is left.
/// Nothing else changes.
pub proof fn law_one_publisher_less<T>(state: ChannelState<T>)
    requires
        state.publishers > 0,
    ensures
        ({
            let after = state.apply(Op::DropPublisher);
            &&& after.publishers == state.publishers - 1
            &&& after.closed <==> state.publishers == 1
            &&& after.capacity == state.capacity
            &&& after.log == state.log
            &&& after.positions == state.positions
            &&& after.next_id == state.next_id
            &&& after.claimed == state.claimed
        }),
{
}

/// When the last publisher leaves, whatever was published, a consumer with events after its
/// position is still given them, and one without any is told of the end.
pub proof fn law_last_departure_ends_the_stream<T>(state: ChannelState<T>, id: u64)
    requires
        state.publishers == 1,
    ensures
        state.apply(Op::DropPublisher).closed,
        state.positions[id] < state.log.len() - 1 ==> state.apply(Op::DropPublisher).next_step(id)
            == WaitStep::Reached,
        state.positions[id] >= state.log.len() - 1 ==> state.apply(Op::DropPublisher).next_step(id)
            == WaitStep::Closed,
{
}

/// In any course of operations the number of publishers goes up by the clones made and down by the
/// departures, and by nothing else.
pub proof fn law_publishers_are_counted<T>(state: ChannelState<T>, ops: Seq<Op<T>>)
    requires
        state.legal(ops),
    ensures
        state.run(ops).publishers == state.publishers + ops.filter(
            |op: Op<T>| op is AddPublisher,
        ).len() - ops.filter(|op: Op<T>| op is DropPublisher).len(),
    decreases ops.len(),
{
    reveal(Seq::filter);
    if ops.len() > 0 {
        law_publishers_are_counted(state, ops.drop_last());
        let middle = state.run(ops.drop_last());
        assert(middle.enabled(ops.last()));
    }
}

/// From a new channel on, the channel is closed exactly when as many publishers have left as were
/// ever made: the first one and the clones.
pub proof fn law_closed_when_all_publishers_left<T>(capacity: nat, ops: Seq<Op<T>>)
    requires
        capacity >= 2,
        is_pow2(capacity as int),
        ChannelState::<T>::initial(capacity).register(-1i64).legal(ops),
    ensures
        ChannelState::<T>::initial(capacity).register(-1i64).run(ops).closed <==> ops.filter(
            |op: Op<T>| op is DropPublisher,
        ).len() == 1 + ops.filter(|op: Op<T>| op is AddPublisher).len(),
{
    law_initial::<T>(capacity);
    let start = ChannelState::<T>::initial(capacity).register(-1i64);
    law_invariant_always(start, ops);
    law_publishers_are_counted(start, ops);
}

/// Whom each operation wakes. An offer wakes the consumers if there are any, and the next claimant
/// once it is settled; what frees the claim wakes the next claimant; what moves or removes a
/// consumer wakes the publisher that waits for space; the last departure wakes the consumers.
pub proof fn law_wake_ups<T>(state: ChannelState<T>, event: T, id: u64)
    ensures
        state.signals(Op::Publish(event)).consumers <==> exists|other: u64| #[trigger]
            state.positions.dom().contains(other),
        state.signals(Op::Publish(event)).claimant <==> forall|other: u64|
            #![trigger state.positions[other]]
            state.positions.dom().contains(other) ==> state.log.len() - state.positions[other]
                < state.capacity,
        !state.signals(Op::Publish(event)).publisher,
        ({
            let woken = state.signals(Op::<T>::Unclaim);
            woken.claimant && !woken.consumers && !woken.publisher
        }),
        ({
            let woken = state.signals(Op::<T>::Subscribe);
            woken.claimant && !woken.consumers && !woken.publisher
        }),
        ({
            let woken = state.signals(Op::<T>::Advance(id));
            woken.publisher && !woken.consumers && !woken.claimant
        }),
        ({
            let woken = state.signals(Op::<T>::Leave(id));
            woken.publisher && !woken.consumers && !woken.claimant
        }),
        ({
            let woken = state.signals(Op::<T>::Claim);
            !woken.consumers && !woken.publisher && !woken.claimant
        }),
        ({
            let woken = state.signals(Op::<T>::Clone(id));
            !woken.consumers && !woken.publisher && !woken.claimant
        }),
        ({
            let woken = state.signals(Op::<T>::AddPublisher);
            !woken.consumers && !woken.publisher && !woken.claimant
        }),
        ({
            let woken = state.signals(Op::<T>::DropPublisher);
            (woken.consumers <==> state.publishers == 1) && !woken.publisher && !woken.claimant
        }),
{
    law_fate_of_an_offer(state);
}

/// A course of operations is performed one after the other: the state, whether the course is
/// possible, what it publishes, what a consumer gets done with in it and whether it is the same
/// consumer throughout all follow from the course before the last operation and from that
/// operation alone.
pub proof fn law_courses<T>(state: ChannelState<T>, ops: Seq<Op<T>>, op: Op<T>, id: u64)
    ensures
        state.run(Seq::empty()) == state,
        state.legal(Seq::empty()),
        state.kept_by(Seq::empty(), id),
        state.sent_by(Seq::empty()).len() == 0,
        state.consumed_by(Seq::empty(), id).len() == 0,
        state.run(ops.push(op)) == state.run(ops).apply(op),
        state.legal(ops.push(op)) <==> state.legal(ops) && state.run(ops).enabled(op),
        state.kept_by(ops.push(op), id) <==> state.kept_by(ops, id) && !(op == Op::<T>::Leave(id))
            && !((op is Subscribe || op is Clone) && state.run(ops).next_id == id),
        state.sent_by(ops.push(op)) == state.sent_by(ops) + state.run(ops).sent(op),
        state.consumed_by(ops.push(op), id) == state.consumed_by(ops, id) + state.run(ops).consumed(
            op,
            id,
        ),
{
    assert(ops.push(op).drop_last() =~= ops);
}

/// The consumers that join in a course are its subscriptions and clonings, and what has nothing to
/// do with the claim is what neither takes, uses nor gives it back.
pub proof fn law_parts_of_a_course<T>(ops: Seq<Op<T>>)
    ensures
        joined_by(ops) == ops.filter(|op: Op<T>| op is Subscribe || op is Clone).len(),
        others(ops) == ops.filter(
            |op: Op<T>| !(op is Claim || op is Unclaim || op is Publish || op is Subscribe),
        ),
    decreases ops.len(),
{
    reveal(Seq::filter);
    if ops.len() > 0 {
        law_parts_of_a_course(ops.drop_last());
    }
}

/// An operation publishes the event of an admitted offer, and otherwise nothing; a consumer gets
/// done with the event after its position when it releases it, and otherwise with nothing.
pub proof fn law_what_is_sent_and_consumed<T>(state: ChannelState<T>, op: Op<T>, id: u64)
    requires
        -1 <= state.positions[id] < state.log.len(),
    ensures
        op matches Op::Publish(event) ==> {
            if state.admission() is Admitted {
                state.sent(op) == seq![event]
            } else {
                state.sent(op).len() == 0
            }
        },
        !(op is Publish) ==> state.sent(op).len() == 0,
        op == Op::<T>::Advance(id) && state.positions[id] < state.log.len() - 1 ==> state.consumed(
            op,
            id,
        ) == seq![state.log[state.positions[id] + 1]],
        op != Op::<T>::Advance(id) ==> state.consumed(op, id).len() == 0,
{
}

} // verus!
