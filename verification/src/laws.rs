//! What holds of a channel as a whole, whatever its publishers and consumers do.
//!
//! The laws speak of the operations in the words of their contracts: `ChannelState::apply` says
//! what each does to the state of the channel, and `ChannelState::signals` whom it wakes.

use crate::ring_buffer::valid_capacity;
use crate::sequence::lemma_remainders_differ;
use crate::sequence_barrier::WaitStep;
use crate::state::{lemma_same_readers, ChannelState, Op};
use vstd::prelude::*;

verus! {

impl<T> ChannelState<T> {
    /// The events that the operation publishes: one or none.
    pub open spec fn sent(self, op: Op<T>) -> Seq<T> {
        match op {
            Op::Publish(event) => if self.admission() is Admitted {
                seq![event]
            } else {
                Seq::empty()
            },
            _ => Seq::empty(),
        }
    }

    /// The events that consumer `id` is done with after the operation, and was not before: one or
    /// none.
    pub open spec fn consumed(self, op: Op<T>, id: u64) -> Seq<T> {
        match op {
            Op::Advance(other) => if other == id {
                seq![self.unread(id)[0]]
            } else {
                Seq::empty()
            },
            _ => Seq::empty(),
        }
    }

    /// Consumer `id` is the same one before and after the operation: it does not leave, and no
    /// newcomer takes its identifier.
    pub open spec fn keeps(self, op: Op<T>, id: u64) -> bool {
        match op {
            Op::Leave(other) => other != id,
            Op::Subscribe | Op::Clone(_) => self.next_id != id,
            _ => true,
        }
    }

    /// The state after all of `ops`.
    pub open spec fn run(self, ops: Seq<Op<T>>) -> Self
        decreases ops.len(),
    {
        if ops.len() == 0 {
            self
        } else {
            self.run(ops.drop_last()).apply(ops.last())
        }
    }

    /// Each of `ops` can be performed when its turn comes.
    pub open spec fn legal(self, ops: Seq<Op<T>>) -> bool
        decreases ops.len(),
    {
        ops.len() > 0 ==> self.legal(ops.drop_last()) && self.run(ops.drop_last()).enabled(
            ops.last(),
        )
    }

    /// The events that `ops` publish, in order.
    pub open spec fn sent_by(self, ops: Seq<Op<T>>) -> Seq<T>
        decreases ops.len(),
    {
        if ops.len() == 0 {
            Seq::empty()
        } else {
            self.sent_by(ops.drop_last()) + self.run(ops.drop_last()).sent(ops.last())
        }
    }

    /// The events that consumer `id` gets done with in the course of `ops`, in order.
    pub open spec fn consumed_by(self, ops: Seq<Op<T>>, id: u64) -> Seq<T>
        decreases ops.len(),
    {
        if ops.len() == 0 {
            Seq::empty()
        } else {
            self.consumed_by(ops.drop_last(), id) + self.run(ops.drop_last()).consumed(
                ops.last(),
                id,
            )
        }
    }

    /// Consumer `id` is the same one throughout `ops`.
    pub open spec fn kept_by(self, ops: Seq<Op<T>>, id: u64) -> bool
        decreases ops.len(),
    {
        ops.len() > 0 ==> self.kept_by(ops.drop_last(), id) && self.run(ops.drop_last()).keeps(
            ops.last(),
            id,
        )
    }

    /// In the course of `ops` the claim is neither used up nor given back: others do what has
    /// nothing to do with it or try in vain to get it, and its holder offers events to a full
    /// buffer only.
    pub open spec fn waits_throughout(self, ops: Seq<Op<T>>) -> bool
        decreases ops.len(),
    {
        ops.len() > 0 ==> {
            &&& self.waits_throughout(ops.drop_last())
            &&& {
                ||| ignores_claim(ops.last())
                ||| ops.last() is Claim
                ||| ops.last() is Publish && self.run(ops.drop_last()).admission() is Full
            }
        }
    }

    /// Every identifier in use was handed out before the next one.
    pub open spec fn ids_in_order(self) -> bool {
        forall|id: u64| #[trigger] self.registered(id) ==> id < self.next_id
    }
}

/// Whether the operation has nothing to do with the claim.
pub open spec fn ignores_claim<T>(op: Op<T>) -> bool {
    op is Clone || op is Advance || op is Leave || op is AddPublisher || op is DropPublisher
}

/// Those of `ops` that have nothing to do with the claim, in order.
pub open spec fn others<T>(ops: Seq<Op<T>>) -> Seq<Op<T>>
    decreases ops.len(),
{
    if ops.len() == 0 {
        Seq::empty()
    } else if ignores_claim(ops.last()) {
        others(ops.drop_last()).push(ops.last())
    } else {
        others(ops.drop_last())
    }
}

/// The number of consumers that join with the operation: one or none.
pub open spec fn joins<T>(op: Op<T>) -> nat {
    if op is Subscribe || op is Clone {
        1
    } else {
        0
    }
}

/// The number of consumers that join in the course of `ops`.
pub open spec fn joined_by<T>(ops: Seq<Op<T>>) -> nat
    decreases ops.len(),
{
    if ops.len() == 0 {
        0
    } else {
        joined_by(ops.drop_last()) + joins(ops.last())
    }
}

/// A new channel has the invariant, without a consumer and with its first one.
pub proof fn law_initial<T>(capacity: nat)
    requires
        valid_capacity(capacity as int),
    ensures
        ChannelState::<T>::initial(capacity).inv(),
        ChannelState::<T>::initial(capacity).ids_in_order(),
        ChannelState::<T>::initial(capacity).register(-1i64).inv(),
        ChannelState::<T>::initial(capacity).register(-1i64).ids_in_order(),
{
}

/// Every operation keeps the invariant. In particular no consumer gets ahead of the publishers or
/// a whole buffer behind them, and an event stays where it is until every consumer is done with
/// it.
pub proof fn law_invariant_kept<T>(state: ChannelState<T>, op: Op<T>)
    requires
        state.inv(),
        state.enabled(op),
    ensures
        state.apply(op).inv(),
{
    let after = state.apply(op);
    match op {
        Op::Claim | Op::Unclaim | Op::AddPublisher | Op::DropPublisher => {
            lemma_same_readers(state, after);
        },
        _ => {
            assert forall|id: u64| after.registered(id) implies after.readable_from(
                #[trigger] after.positions[id] as int,
            ) by {
                if state.registered(id) {
                    assert(state.readable_from(state.positions[id] as int));
                }
                if let Op::Clone(source) = op {
                    assert(state.readable_from(state.positions[source] as int));
                }
            }
        },
    }
}

/// Every state that a channel can reach has the invariant.
pub proof fn law_invariant_always<T>(state: ChannelState<T>, ops: Seq<Op<T>>)
    requires
        state.inv(),
        state.legal(ops),
    ensures
        state.run(ops).inv(),
    decreases ops.len(),
{
    if ops.len() > 0 {
        law_invariant_always(state, ops.drop_last());
        law_invariant_kept(state.run(ops.drop_last()), ops.last());
    }
}

/// One operation, one consumer: what it is done with now, followed by what it has still to
/// receive, is what it had to receive before, followed by what was published now.
proof fn lemma_delivery_step<T>(state: ChannelState<T>, op: Op<T>, id: u64)
    requires
        state.inv(),
        state.enabled(op),
        state.registered(id),
        state.keeps(op, id),
    ensures
        state.apply(op).registered(id),
        state.consumed(op, id) + state.apply(op).unread(id) == state.unread(id) + state.sent(op),
{
    let after = state.apply(op);
    assert(state.readable_from(state.positions[id] as int));
    assert(state.consumed(op, id) + after.unread(id) =~= state.unread(id) + state.sent(op));
}

/// A consumer receives every event that is published while it is there, each exactly once and in
/// the order of publication: what it has received, followed by what is still ahead of it, is what
/// was ahead of it at the start, followed by what has been published since.
pub proof fn law_exact_delivery<T>(state: ChannelState<T>, ops: Seq<Op<T>>, id: u64)
    requires
        state.inv(),
        state.legal(ops),
        state.registered(id),
        state.kept_by(ops, id),
    ensures
        state.run(ops).registered(id),
        state.consumed_by(ops, id) + state.run(ops).unread(id) == state.unread(id) + state.sent_by(
            ops,
        ),
    decreases ops.len(),
{
    if ops.len() == 0 {
        assert(state.consumed_by(ops, id) + state.unread(id) =~= state.unread(id) + state.sent_by(
            ops,
        ));
    } else {
        let earlier = ops.drop_last();
        let middle = state.run(earlier);
        law_exact_delivery(state, earlier, id);
        law_invariant_always(state, earlier);
        lemma_delivery_step(middle, ops.last(), id);
        let done = state.consumed_by(earlier, id);
        let step_done = middle.consumed(ops.last(), id);
        let step_sent = middle.sent(ops.last());
        let after = state.run(ops);
        assert((done + step_done) + after.unread(id) =~= done + (step_done + after.unread(id)));
        assert(done + (middle.unread(id) + step_sent) =~= (done + middle.unread(id)) + step_sent);
        assert((state.unread(id) + state.sent_by(earlier)) + step_sent =~= state.unread(id) + (
        state.sent_by(earlier) + step_sent));
    }
}

/// Consumers that have the same events ahead of them, as a consumer and its clone do, are given
/// the same stream, whatever the pace of each.
pub proof fn law_multicast<T>(state: ChannelState<T>, ops: Seq<Op<T>>, left: u64, right: u64)
    requires
        state.inv(),
        state.legal(ops),
        state.registered(left),
        state.registered(right),
        state.kept_by(ops, left),
        state.kept_by(ops, right),
        state.unread(left) == state.unread(right),
    ensures
        state.consumed_by(ops, left) + state.run(ops).unread(left) == state.consumed_by(ops, right)
            + state.run(ops).unread(right),
{
    law_exact_delivery(state, ops, left);
    law_exact_delivery(state, ops, right);
}

/// A consumer that subscribes, under an identifier that is not in use, has nothing to receive of
/// what was published before, and leaves the other consumers as they were.
pub proof fn law_subscriber_starts_with_new_events<T>(state: ChannelState<T>, other: u64)
    requires
        state.inv(),
        state.enabled(Op::Subscribe),
        !state.registered(state.next_id),
    ensures
        state.apply(Op::Subscribe).registered(state.next_id),
        state.apply(Op::Subscribe).unread(state.next_id) == Seq::<T>::empty(),
        state.registered(other) ==> state.apply(Op::Subscribe).registered(other) && state.apply(
            Op::Subscribe,
        ).unread(other) == state.unread(other),
        state.apply(Op::Subscribe).log == state.log,
{
    let after = state.apply(Op::Subscribe);
    assert(after.unread(state.next_id) =~= Seq::<T>::empty());
    if state.registered(other) {
        assert(after.unread(other) =~= state.unread(other));
    }
}

/// A clone, under an identifier that is not in use, has the same events ahead of it as its
/// source, which stays as it was.
pub proof fn law_clone_starts_at_the_same_position<T>(state: ChannelState<T>, id: u64)
    requires
        state.inv(),
        state.registered(id),
        !state.registered(state.next_id),
    ensures
        state.apply(Op::Clone(id)).registered(state.next_id),
        state.apply(Op::Clone(id)).positions[state.next_id] == state.positions[id],
        state.apply(Op::Clone(id)).unread(state.next_id) == state.unread(id),
        state.apply(Op::Clone(id)).unread(id) == state.unread(id),
{
    let after = state.apply(Op::Clone(id));
    assert(after.unread(state.next_id) =~= state.unread(id));
    assert(after.unread(id) =~= state.unread(id));
}

/// A newcomer's identifier is not in use where the identifiers in use were handed out before it.
pub proof fn law_next_id_is_free<T>(state: ChannelState<T>)
    requires
        state.ids_in_order(),
    ensures
        !state.registered(state.next_id),
{
}

/// One operation keeps the identifiers in order, unless it hands out the last one there is.
proof fn lemma_ids_step<T>(state: ChannelState<T>, op: Op<T>)
    requires
        state.ids_in_order(),
        state.enabled(op),
        state.next_id + joins(op) <= u64::MAX,
    ensures
        state.apply(op).ids_in_order(),
        state.apply(op).next_id == state.next_id + joins(op),
{
    let after = state.apply(op);
    assert forall|id: u64| #[trigger] after.registered(id) implies id < after.next_id by {
        if id != state.next_id {
            assert(state.registered(id));
        } else {
            assert(!state.registered(id));
        }
    }
}

/// As long as the identifiers last, they stay in order, and the next one tells how many were
/// handed out. So each newcomer gets one that is not in use.
pub proof fn law_ids_stay_in_order<T>(state: ChannelState<T>, ops: Seq<Op<T>>)
    requires
        state.ids_in_order(),
        state.legal(ops),
        state.next_id + joined_by(ops) <= u64::MAX,
    ensures
        state.run(ops).ids_in_order(),
        state.run(ops).next_id == state.next_id + joined_by(ops),
        !state.run(ops).registered(state.run(ops).next_id),
    decreases ops.len(),
{
    if ops.len() > 0 {
        law_ids_stay_in_order(state, ops.drop_last());
        lemma_ids_step(state.run(ops.drop_last()), ops.last());
    }
    law_next_id_is_free(state.run(ops));
}

/// In a channel that fewer than 2^64 consumers have ever joined, the identifiers in use were all
/// handed out before the next one, which is not in use.
pub proof fn law_ids_are_unique<T>(capacity: nat, ops: Seq<Op<T>>)
    requires
        valid_capacity(capacity as int),
        ChannelState::<T>::initial(capacity).legal(ops),
        joined_by(ops) < 0x1_0000_0000_0000_0000,
    ensures
        ChannelState::<T>::initial(capacity).run(ops).ids_in_order(),
        ({
            let state = ChannelState::<T>::initial(capacity).run(ops);
            !state.registered(state.next_id)
        }),
{
    law_initial::<T>(capacity);
    law_ids_stay_in_order(ChannelState::<T>::initial(capacity), ops);
}

/// A consumer's progress and its leaving do not touch what another consumer has ahead of it, nor
/// what that one finds when it asks for its next event.
pub proof fn law_consumers_are_independent<T>(state: ChannelState<T>, id: u64, other: u64)
    requires
        state.inv(),
        state.registered(id),
        id != other,
    ensures
        state.apply(Op::Advance(other)).registered(id),
        state.apply(Op::Advance(other)).unread(id) == state.unread(id),
        state.apply(Op::Advance(other)).next_step(id) == state.next_step(id),
        state.apply(Op::Leave(other)).registered(id),
        state.apply(Op::Leave(other)).unread(id) == state.unread(id),
        state.apply(Op::Leave(other)).next_step(id) == state.next_step(id),
{
    assert(state.apply(Op::Advance(other)).unread(id) =~= state.unread(id));
    assert(state.apply(Op::Leave(other)).unread(id) =~= state.unread(id));
}

/// Publishing to consumers waits exactly when some consumer has one event less than the capacity
/// still ahead of it. None ever has more.
pub proof fn law_backpressure<T>(state: ChannelState<T>)
    requires
        state.inv(),
    ensures
        forall|id: u64| #[trigger]
            state.registered(id) ==> state.unread(id).len() <= state.capacity - 1,
        state.admission() is Full <==> exists|id: u64| #[trigger]
            state.registered(id) && state.unread(id).len() == state.capacity - 1,
{
    assert forall|id: u64| #[trigger] state.registered(id) implies state.unread(id).len()
        <= state.capacity - 1 by {
        assert(state.readable_from(state.positions[id] as int));
    }
    if exists|id: u64| #[trigger]
        state.registered(id) && state.unread(id).len() == state.capacity - 1 {
        let id = choose|id: u64| #[trigger]
            state.registered(id) && state.unread(id).len() == state.capacity - 1;
        assert(state.readable_from(state.positions[id] as int));
        assert(state.published() + 1 - state.positions[id] >= state.capacity);
        assert(state.full());
        assert(state.positions.dom().contains(id));
    }
    if state.admission() is Full {
        let id = choose|id: u64|
            state.registered(id) && state.published() + 1 - #[trigger] state.positions[id]
                >= state.capacity;
        assert(state.readable_from(state.positions[id] as int));
        assert(state.registered(id) && state.unread(id).len() == state.capacity - 1);
    }
}

/// When one consumer alone keeps a publisher waiting, its next release or its leaving ends the
/// wait.
pub proof fn law_progress_ends_backpressure<T>(state: ChannelState<T>, slow: u64)
    requires
        state.inv(),
        state.admission() is Full,
        state.registered(slow),
        forall|id: u64| #[trigger]
            state.registered(id) && id != slow ==> state.unread(id).len() < state.capacity - 1,
    ensures
        state.enabled(Op::Advance(slow)),
        state.apply(Op::Advance(slow)).admission() is Admitted,
        !(state.apply(Op::Leave(slow)).admission() is Full),
{
    law_backpressure(state);
    let held_up = choose|id: u64| #[trigger]
        state.registered(id) && state.unread(id).len() == state.capacity - 1;
    assert(held_up == slow);
    assert(state.readable_from(state.positions[slow] as int));
    let advanced = state.apply(Op::Advance(slow));
    let left = state.apply(Op::Leave(slow));
    law_invariant_kept(state, Op::Advance(slow));
    law_invariant_kept(state, Op::Leave(slow));
    assert(advanced.registered(slow));
    assert forall|id: u64| advanced.registered(id) implies advanced.published() + 1
        - #[trigger] advanced.positions[id] < advanced.capacity by {
        assert(state.registered(id));
        assert(state.readable_from(state.positions[id] as int));
    }
    assert forall|id: u64| left.registered(id) implies left.published() + 1
        - #[trigger] left.positions[id] < left.capacity by {
        assert(state.registered(id));
        assert(state.readable_from(state.positions[id] as int));
    }
}

/// Room in the buffer is not lost: once a publisher that holds the claim has found the slot free, no
/// operation of others makes the buffer full before it writes.
pub proof fn law_room_is_not_lost<T>(state: ChannelState<T>, op: Op<T>)
    requires
        state.inv(),
        state.enabled(op),
        !(op is Publish),
        !state.full(),
    ensures
        !state.apply(op).full(),
{
    let after = state.apply(op);
    assert forall|id: u64| after.registered(id) implies after.published() + 1
        - #[trigger] after.positions[id] < after.capacity by {
        if state.registered(id) {
            assert(state.published() + 1 - state.positions[id] < state.capacity);
            assert(state.readable_from(state.positions[id] as int));
        }
        if let Op::Clone(source) = op {
            assert(state.published() + 1 - state.positions[source] < state.capacity);
        }
    }
}

/// The slot that an admitted publisher writes is none from which a consumer has still to read.
pub proof fn law_writer_avoids_unread_slots<T>(state: ChannelState<T>, id: u64, sequence: int)
    requires
        state.inv(),
        !state.full(),
        state.registered(id),
        state.positions[id] < sequence <= state.published(),
    ensures
        sequence % (state.capacity as int) != (state.published() + 1) % (state.capacity as int),
{
    assert(state.published() + 1 - state.positions[id] < state.capacity);
    lemma_remainders_differ(sequence, state.published() + 1, state.capacity as int);
}

/// An offer to a channel without consumers leaves no trace: the channel is as it was before the
/// claim. The event is in no log, and the next event that is published gets the sequence number
/// that was claimed for it.
pub proof fn law_rejected_event_leaves_no_trace<T>(state: ChannelState<T>, event: T)
    requires
        state.inv(),
        !state.claimed,
        state.deserted(),
    ensures
        state.apply(Op::Claim).admission() is Rejected,
        state.apply(Op::Claim).sent(Op::Publish(event)) == Seq::<T>::empty(),
        state.apply(Op::Claim).apply(Op::Publish(event)) == state,
{
    assert(state.apply(Op::Claim).apply(Op::Publish(event)) =~= state);
}

/// Sequence numbers are used one after the other and for good: an operation uses at most one, the
/// next, and what was published under a number is never changed.
pub proof fn law_sequence_is_strict<T>(state: ChannelState<T>, op: Op<T>)
    requires
        state.inv(),
        state.enabled(op),
    ensures
        state.published() <= state.apply(op).published() <= state.published() + 1,
        state.apply(op).log.take(state.log.len() as int) == state.log,
        state.apply(op).published() == state.published() + 1 <==> op is Publish
            && state.admission() is Admitted,
        state.apply(op).log == state.log + state.sent(op),
{
    assert(state.apply(op).log =~= state.log + state.sent(op));
    assert(state.apply(op).log.take(state.log.len() as int) =~= state.log);
}

/// What is published stays published: no course of events changes the log behind it.
pub proof fn law_log_only_grows<T>(state: ChannelState<T>, ops: Seq<Op<T>>)
    requires
        state.inv(),
        state.legal(ops),
    ensures
        state.log.len() <= state.run(ops).log.len(),
        state.run(ops).log.take(state.log.len() as int) == state.log,
    decreases ops.len(),
{
    if ops.len() == 0 {
        assert(state.log.take(state.log.len() as int) =~= state.log);
    } else {
        let middle = state.run(ops.drop_last());
        law_log_only_grows(state, ops.drop_last());
        law_invariant_always(state, ops.drop_last());
        law_sequence_is_strict(middle, ops.last());
        assert(state.run(ops).log.take(state.log.len() as int) =~= state.run(ops).log.take(
            middle.log.len() as int,
        ).take(state.log.len() as int));
    }
}

/// While a publisher holds the claim no other gets it. Only an operation that uses the claim up
/// frees it.
pub proof fn law_claim_is_exclusive<T>(state: ChannelState<T>, op: Op<T>)
    requires
        state.inv(),
        state.enabled(op),
        state.claimed,
    ensures
        state.apply(Op::Claim) == state,
        state.apply(op).claimed || op is Unclaim || op is Subscribe || op is Publish,
{
}

/// One operation of others has the same effect whether or not the claim is held.
proof fn lemma_claim_is_ignored<T>(state: ChannelState<T>, op: Op<T>)
    requires
        ignores_claim(op),
    ensures
        state.claim().apply(op) == state.apply(op).claim(),
        state.apply(op).claimed == state.claimed,
        state.apply(op).published() == state.published(),
        state.claim().enabled(op) == state.enabled(op),
{
    assert(state.claim().apply(op) =~= state.apply(op).claim());
}

/// A claim that was neither used up nor given back has changed nothing else.
proof fn lemma_claim_changes_nothing_else<T>(state: ChannelState<T>, ops: Seq<Op<T>>)
    requires
        !state.claimed,
        state.claim().legal(ops),
        state.claim().waits_throughout(ops),
    ensures
        state.legal(others(ops)),
        state.claim().run(ops) == state.run(others(ops)).claim(),
        state.run(others(ops)).published() == state.published(),
        !state.run(others(ops)).claimed,
    decreases ops.len(),
{
    if ops.len() > 0 {
        let earlier = ops.drop_last();
        lemma_claim_changes_nothing_else(state, earlier);
        let alone = state.run(others(earlier));
        if ignores_claim(ops.last()) {
            lemma_claim_is_ignored(alone, ops.last());
            assert(others(ops).drop_last() =~= others(earlier));
        } else {
            assert(alone.claim().claim() =~= alone.claim());
        }
    }
}

/// A publisher that offers its event any number of times to a full buffer and is then cancelled
/// leaves no trace, whatever the others did meanwhile, attempts at the claim included: the channel
/// is as it would be with the others' operations alone, nothing has been published, and the next
/// claim is on the same sequence number.
pub proof fn law_cancelled_wait_leaves_no_gap<T>(state: ChannelState<T>, ops: Seq<Op<T>>)
    requires
        !state.claimed,
        state.claim().legal(ops),
        state.claim().waits_throughout(ops),
    ensures
        state.legal(others(ops)),
        state.claim().run(ops).unclaim() == state.run(others(ops)),
        state.run(others(ops)).published() == state.published(),
        !state.run(others(ops)).claimed,
{
    lemma_claim_changes_nothing_else(state, ops);
    let alone = state.run(others(ops));
    assert(alone.claim().unclaim() =~= alone);
}

/// A publisher that is cancelled while it holds the claim leaves no trace, whatever the others did
/// meanwhile: the channel is as it would be without the claim, nothing has been published, and the
/// next claim is on the same sequence number.
pub proof fn law_cancelled_publish_leaves_no_gap<T>(state: ChannelState<T>, ops: Seq<Op<T>>)
    requires
        !state.claimed,
        forall|i: int| 0 <= i < ops.len() ==> ignores_claim(#[trigger] ops[i]),
        state.claim().legal(ops),
    ensures
        state.legal(ops),
        state.claim().run(ops).unclaim() == state.run(ops),
        state.run(ops).published() == state.published(),
        !state.run(ops).claimed,
{
    lemma_only_others(state.claim(), ops);
    law_cancelled_wait_leaves_no_gap(state, ops);
}

/// Where all operations are those of others, none is left out.
proof fn lemma_only_others<T>(state: ChannelState<T>, ops: Seq<Op<T>>)
    requires
        forall|i: int| 0 <= i < ops.len() ==> ignores_claim(#[trigger] ops[i]),
    ensures
        others(ops) == ops,
        state.waits_throughout(ops),
    decreases ops.len(),
{
    if ops.len() > 0 {
        let earlier = ops.drop_last();
        assert forall|i: int| 0 <= i < earlier.len() implies ignores_claim(
            #[trigger] earlier[i],
        ) by {
            assert(earlier[i] == ops[i]);
        }
        lemma_only_others(state, earlier);
        assert(ignores_claim(ops[ops.len() - 1]));
        assert(earlier.push(ops.last()) =~= ops);
    } else {
        assert(others(ops) =~= ops);
    }
}

/// The event that a consumer is processing stays at hand, and the same, until that consumer
/// releases it or leaves.
pub proof fn law_event_stays_while_processed<T>(
    state: ChannelState<T>,
    op: Op<T>,
    id: u64,
    sequence: int,
)
    requires
        state.inv(),
        state.enabled(op),
        state.keeps(op, id),
        op != Op::<T>::Advance(id),
        state.reading(id, sequence),
    ensures
        state.apply(op).reading(id, sequence),
        state.apply(op).log[sequence] == state.log[sequence],
        state.log[sequence] == state.unread(id)[0],
{
    assert(state.readable_from(state.positions[id] as int));
}

/// The channel is closed exactly when its last publisher is gone, and stays closed.
pub proof fn law_closing_is_final<T>(state: ChannelState<T>, op: Op<T>)
    requires
        state.inv(),
        state.enabled(op),
    ensures
        state.closed <==> state.publishers == 0,
        state.closed ==> state.apply(op).closed && state.apply(op).log == state.log,
        !state.closed && state.apply(op).closed ==> op is DropPublisher && state.publishers == 1,
{
}

/// A consumer of a closed channel is given every event that is still ahead of it before it is told
/// of the end. It never waits.
pub proof fn law_closed_channel_is_drained<T>(state: ChannelState<T>, id: u64)
    requires
        state.inv(),
        state.registered(id),
    ensures
        state.next_step(id) == WaitStep::Reached <==> state.unread(id).len() > 0,
        state.next_step(id) == WaitStep::Closed <==> state.unread(id).len() == 0 && state.closed,
        state.next_step(id) == WaitStep::Pending <==> state.unread(id).len() == 0 && !state.closed,
{
    assert(state.readable_from(state.positions[id] as int));
}

/// A consumer that waits is not forgotten: an operation that gives it an event or the end of the
/// stream wakes the consumers.
pub proof fn law_waiting_consumer_is_woken<T>(state: ChannelState<T>, op: Op<T>, id: u64)
    requires
        state.inv(),
        state.enabled(op),
        state.registered(id),
        state.keeps(op, id),
        state.next_step(id) == WaitStep::Pending,
        state.apply(op).next_step(id) != WaitStep::Pending,
    ensures
        state.signals(op).consumers,
{
    assert(state.readable_from(state.positions[id] as int));
}

/// A publisher that waits for space is not forgotten: as long as newcomers get identifiers that
/// are not in use, an operation that makes room wakes it.
pub proof fn law_waiting_publisher_is_woken<T>(state: ChannelState<T>, op: Op<T>)
    requires
        state.inv(),
        state.enabled(op),
        !state.registered(state.next_id),
        state.admission() is Full,
        !(state.apply(op).admission() is Full),
    ensures
        state.signals(op).publisher,
{
    let after = state.apply(op);
    let slow = choose|slow: u64|
        state.registered(slow) && state.published() + 1 - #[trigger] state.positions[slow]
            >= state.capacity;
    if !state.signals(op).publisher {
        assert(after.registered(slow));
        assert(after.positions.dom().contains(slow));
        assert(after.published() + 1 - after.positions[slow] >= after.capacity);
        assert(after.full());
    }
}

/// A publisher that waits for its turn is not forgotten: an operation that frees the claim wakes
/// one.
pub proof fn law_waiting_claimant_is_woken<T>(state: ChannelState<T>, op: Op<T>)
    requires
        state.inv(),
        state.enabled(op),
        state.claimed,
        !state.apply(op).claimed,
    ensures
        state.signals(op).claimant,
{
}

} // verus!
