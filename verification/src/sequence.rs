//! Sequence numbers and the slot of a ring buffer that each of them falls on.

use vstd::arithmetic::div_mod::*;
use vstd::arithmetic::power2::*;
use vstd::bits::*;
use vstd::prelude::*;

verus! {

/// A number that names one event of a stream.
pub trait Sequence: Sized {
    /// The index that this sequence number has under `mask`.
    spec fn masked(self, mask: usize) -> usize;

    /// Maps the sequence number to an index no larger than `mask`.
    fn get_index_from(self, mask: usize) -> (index: usize)
        ensures
            index == self.masked(mask),
            index <= mask,
    ;
}

impl Sequence for i64 {
    open spec fn masked(self, mask: usize) -> usize {
        (self as usize) & mask
    }

    fn get_index_from(self, mask: usize) -> (index: usize)
        ensures
            mask < usize::MAX && is_pow2(mask + 1) ==> index as int == (self as int) % (mask + 1),
    {
        let word: usize = #[verifier::truncate] (self as usize);
        assert(word & mask <= mask) by (bit_vector);
        proof {
            if mask < usize::MAX && is_pow2(mask + 1) {
                lemma_masked_is_remainder(self, (mask + 1) as usize);
            }
        }
        word & mask
    }
}

/// Reading an `i64` as a machine word keeps it modulo the number of words.
proof fn lemma_word_of_i64(sequence: i64)
    ensures
        usize::BITS == 64 ==> (sequence as usize) as int == (sequence as int)
            % 0x1_0000_0000_0000_0000,
        usize::BITS == 32 ==> (sequence as usize) as int == (sequence as int) % 0x1_0000_0000,
{
    assert(usize::BITS == 64 && sequence >= 0 ==> sequence as usize == sequence) by (bit_vector);
    assert(usize::BITS == 64 && sequence < 0 ==> sequence as usize == sequence
        + 0x1_0000_0000_0000_0000) by (bit_vector);
    assert(usize::BITS == 32 ==> sequence as usize == sequence as u32) by (bit_vector);
    assert(sequence as u32 == sequence as u64 as u32) by (bit_vector);
    let low = sequence as u64;
    assert(sequence >= 0 ==> sequence as u64 == sequence) by (bit_vector);
    assert(sequence < 0 ==> sequence as u64 == sequence + 0x1_0000_0000_0000_0000) by (bit_vector);
    assert(low as u32 == low % 0x1_0000_0000) by (bit_vector);
}

/// Under the mask of a power of two, the index of a sequence number is its remainder: sequence
/// numbers go round the slots in order, negative ones included.
pub proof fn lemma_masked_is_remainder(sequence: i64, capacity: usize)
    requires
        is_pow2(capacity as int),
    ensures
        capacity > 0,
        sequence.masked((capacity - 1) as usize) as int == (sequence as int) % (capacity as int),
{
    is_pow2_equiv(capacity as int);
    let exponent = choose|i: nat| vstd::arithmetic::power::pow(2, i) == capacity as int;
    lemma_pow2_pos(exponent);
    assert(usize::BITS == 32 || usize::BITS == 64);
    lemma2_to64();
    let bits = usize::BITS as nat;
    if exponent >= bits {
        if exponent > bits {
            lemma_pow2_strictly_increases(bits, exponent);
        }
        assert(false);
    }
    let word = sequence as usize;
    lemma_word_of_i64(sequence);
    assert(low_bits_mask(exponent) == capacity - 1);
    lemma_usize_low_bits_mask_is_mod(word, exponent);
    let rest = (bits - exponent) as nat;
    lemma_pow2_pos(rest);
    lemma_pow2_adds(exponent, rest);
    lemma_mod_mod(sequence as int, capacity as int, pow2(rest) as int);
}

/// Under any mask, the index has the bits of the sequence number that the mask covers, and no
/// others.
pub proof fn law_index_has_the_bits_under_the_mask(sequence: i64, mask: usize)
    ensures
        sequence.masked(mask) & mask == sequence.masked(mask),
        (sequence.masked(mask) ^ (sequence as usize)) & mask == 0,
{
    let word = sequence as usize;
    assert((word & mask) & mask == word & mask) by (bit_vector);
    assert(((word & mask) ^ word) & mask == 0) by (bit_vector);
}

/// Two sequence numbers that are less than a round apart fall on different slots.
pub proof fn law_slots_differ_within_a_round(left: i64, right: i64, capacity: usize)
    requires
        is_pow2(capacity as int),
        left < right < left + capacity,
    ensures
        left.masked((capacity - 1) as usize) != right.masked((capacity - 1) as usize),
{
    lemma_masked_is_remainder(left, capacity);
    lemma_masked_is_remainder(right, capacity);
    lemma_remainders_differ(left as int, right as int, capacity as int);
}

/// A sequence number falls on the same slot as the one a round before it, which it overwrites.
pub proof fn law_slot_comes_round(sequence: i64, capacity: usize)
    requires
        is_pow2(capacity as int),
        sequence + capacity <= i64::MAX,
    ensures
        ((sequence + capacity) as i64).masked((capacity - 1) as usize) == sequence.masked(
            (capacity - 1) as usize,
        ),
{
    lemma_masked_is_remainder(sequence, capacity);
    lemma_masked_is_remainder((sequence + capacity) as i64, capacity);
    lemma_mod_add_multiples_vanish(sequence as int, capacity as int);
}

/// Numbers that are less than `modulus` apart have different remainders.
pub proof fn lemma_remainders_differ(left: int, right: int, modulus: int)
    requires
        left < right < left + modulus,
    ensures
        left % modulus != right % modulus,
{
    lemma_fundamental_div_mod(left, modulus);
    lemma_fundamental_div_mod(right, modulus);
    let rounds = right / modulus - left / modulus;
    if left % modulus == right % modulus {
        assert(right - left == modulus * rounds) by (nonlinear_arith)
            requires
                left == modulus * (left / modulus) + left % modulus,
                right == modulus * (right / modulus) + right % modulus,
                left % modulus == right % modulus,
                rounds == right / modulus - left / modulus,
        ;
        assert(rounds < 1 && rounds > 0) by (nonlinear_arith)
            requires
                right - left == modulus * rounds,
                0 < right - left < modulus,
        ;
    }
}

} // verus!
