//! `RingBuffer`, the fixed-size store of the events of a channel.
//!
//! The slots are addressed by sequence number. The buffer itself keeps no order between writers
//! and readers: that is the work of the sequence numbers above it.

use crate::sequence::{lemma_masked_is_remainder, law_slots_differ_within_a_round, Sequence};
use vstd::arithmetic::power2::*;
use vstd::prelude::*;

verus! {

/// Why a capacity is refused.
#[derive(Clone, Copy, Debug, PartialEq, Eq, Structural)]
pub enum CapacityError {
    /// The capacity is less than 2.
    TooSmall,
    /// The capacity is not a power of two.
    NotPowerOfTwo,
}

/// The capacities that a ring buffer can have: the powers of two from 2 on.
pub open spec fn valid_capacity(capacity: int) -> bool {
    capacity >= 2 && is_pow2(capacity)
}

/// Exactly one bit of a power of two is set.
proof fn lemma_single_bit(n: usize)
    requires
        n > 0,
    ensures
        (n & (n - 1) as usize) == 0 <==> is_pow2(n as int),
    decreases n,
{
    reveal(is_pow2);
    let less: usize = (n - 1) as usize;
    if n == 1 {
        assert(1usize & 0usize == 0) by (bit_vector);
    } else if n % 2 == 0 {
        let half: usize = n / 2;
        let half_less: usize = (half - 1) as usize;
        lemma_single_bit(half);
        assert(n & less == 0 <==> half & half_less == 0) by (bit_vector)
            requires
                n >= 2,
                n % 2 == 0,
                half == n / 2,
                less == n - 1,
                half_less == half - 1,
        ;
    } else {
        assert(n & less != 0) by (bit_vector)
            requires
                n % 2 == 1,
                n > 1,
                less == n - 1,
        ;
    }
}

/// A valid capacity of any machine is at most half of the range of a 64-bit word.
pub proof fn lemma_capacity_bound(capacity: int)
    requires
        valid_capacity(capacity),
        capacity <= usize::MAX,
    ensures
        capacity <= 0x8000_0000_0000_0000,
{
    is_pow2_equiv(capacity);
    let exponent = choose|i: nat| vstd::arithmetic::power::pow(2, i) == capacity;
    lemma2_to64();
    lemma2_to64_rest();
    if exponent > 63 {
        if exponent > 64 {
            lemma_pow2_strictly_increases(64, exponent);
        }
    } else if exponent < 63 {
        lemma_pow2_strictly_increases(exponent, 63);
    }
}

/// Tells whether a ring buffer can have `capacity` slots.
pub fn check_capacity(capacity: usize) -> (result: Result<(), CapacityError>)
    ensures
        result is Ok <==> valid_capacity(capacity as int),
        result == Err::<(), CapacityError>(CapacityError::TooSmall) <==> capacity < 2,
        result == Err::<(), CapacityError>(CapacityError::NotPowerOfTwo) <==> capacity >= 2
            && !is_pow2(capacity as int),
{
    if capacity < 2 {
        return Err(CapacityError::TooSmall);
    }
    proof {
        lemma_single_bit(capacity);
    }
    if capacity & (capacity - 1) != 0 {
        return Err(CapacityError::NotPowerOfTwo);
    }
    Ok(())
}

/// A fixed-size circular store. Its view is the sequence of its slots.
#[derive(Debug)]
pub struct RingBuffer<E> {
    slots: Vec<Option<E>>,
    index_mask: usize,
}

impl<E> View for RingBuffer<E> {
    type V = Seq<Option<E>>;

    closed spec fn view(&self) -> Seq<Option<E>> {
        self.slots@
    }
}

impl<E> RingBuffer<E> {
    /// The number of slots is a valid capacity, and the mask covers exactly their indices.
    pub closed spec fn wf(&self) -> bool {
        &&& valid_capacity(self.slots@.len() as int)
        &&& self.index_mask == self.slots@.len() - 1
    }

    /// The mask that maps a sequence number to a slot.
    pub open spec fn mask(&self) -> usize {
        (self@.len() - 1) as usize
    }

    /// Creates a buffer of `capacity` empty slots.
    pub fn new(capacity: usize) -> (buffer: Self)
        requires
            valid_capacity(capacity as int),
        ensures
            buffer.wf(),
            buffer@ == Seq::new(capacity as nat, |i: int| None::<E>),
    {
        let mut slots: Vec<Option<E>> = Vec::with_capacity(capacity);
        let mut filled: usize = 0;
        while filled < capacity
            invariant
                filled <= capacity,
                slots@ =~= Seq::new(filled as nat, |i: int| None::<E>),
            decreases capacity - filled,
        {
            slots.push(None);
            filled = filled + 1;
        }
        RingBuffer { slots, index_mask: capacity - 1 }
    }

    /// The slot that `sequence` falls on.
    pub fn get<S: Sequence>(&self, sequence: S) -> (slot: &Option<E>)
        requires
            self.wf(),
        ensures
            sequence.masked(self.mask()) < self@.len(),
            *slot == self@[sequence.masked(self.mask()) as int],
    {
        let index: usize = sequence.get_index_from(self.index_mask);
        &self.slots[index]
    }

    /// The slot that `sequence` falls on, for writing. The other slots stay as they are.
    pub fn get_mut<S: Sequence>(&mut self, sequence: S) -> (slot: &mut Option<E>)
        requires
            old(self).wf(),
        ensures
            final(self).wf(),
            sequence.masked(old(self).mask()) < old(self)@.len(),
            *slot == old(self)@[sequence.masked(old(self).mask()) as int],
            final(self)@ == old(self)@.update(
                sequence.masked(old(self).mask()) as int,
                *final(slot),
            ),
    {
        let index: usize = sequence.get_index_from(self.index_mask);
        &mut self.slots[index]
    }

    /// The mask that maps a sequence number to a slot: one less than the capacity.
    pub fn index_mask(&self) -> (mask: usize)
        requires
            self.wf(),
        ensures
            mask == self.mask(),
            mask == self@.len() - 1,
    {
        self.index_mask
    }

    /// The number of slots.
    pub fn capacity(&self) -> (capacity: usize)
        ensures
            capacity == self@.len(),
    {
        self.slots.len()
    }

    /// A well-formed buffer has a valid capacity.
    pub proof fn lemma_capacity(&self)
        requires
            self.wf(),
        ensures
            valid_capacity(self@.len() as int),
            self@.len() <= usize::MAX,
    {
        assert(self.slots@.len() == self.slots.len());
    }
}

/// What was written last under a sequence number is what is read under it, and a write leaves what
/// was written under the sequence numbers less than a round away.
pub proof fn law_read_gives_back_write<E>(
    slots: Seq<Option<E>>,
    sequence: i64,
    value: Option<E>,
    other: i64,
)
    requires
        valid_capacity(slots.len() as int),
        slots.len() <= usize::MAX,
    ensures
        ({
            let mask = (slots.len() - 1) as usize;
            let written = slots.update(sequence.masked(mask) as int, value);
            &&& written[sequence.masked(mask) as int] == value
            &&& 0 < sequence - other < slots.len() || 0 < other - sequence < slots.len()
                ==> written[other.masked(mask) as int] == slots[other.masked(mask) as int]
        }),
{
    let capacity = slots.len() as usize;
    lemma_masked_is_remainder(sequence, capacity);
    lemma_masked_is_remainder(other, capacity);
    if 0 < sequence - other < capacity {
        law_slots_differ_within_a_round(other, sequence, capacity);
    }
    if 0 < other - sequence < capacity {
        law_slots_differ_within_a_round(sequence, other, capacity);
    }
}

} // verus!
