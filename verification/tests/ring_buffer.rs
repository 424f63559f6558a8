use gyre::ring_buffer::{check_capacity, CapacityError, RingBuffer};
use gyre::sequence::Sequence;

#[test]
fn test_ring_buffer_creation_and_capacity() {
    // Powers of two are valid capacities.
    RingBuffer::<u32>::new(4);
    RingBuffer::<u32>::new(16);
    RingBuffer::<u32>::new(1024);

    let rb = RingBuffer::<u32>::new(8);
    assert_eq!(rb.capacity(), 8);

    // The smallest one is 2.
    RingBuffer::<u32>::new(2);
    for capacity in [2usize, 4, 8, 16, 1024] {
        assert_eq!(check_capacity(capacity), Ok(()));
    }
}

#[test]
fn test_ring_buffer_invalid_capacity_not_power_of_two() {
    assert_eq!(check_capacity(3), Err(CapacityError::NotPowerOfTwo));
    assert_eq!(check_capacity(6), Err(CapacityError::NotPowerOfTwo));
    assert_eq!(check_capacity(usize::MAX), Err(CapacityError::NotPowerOfTwo));
}

#[test]
fn test_ring_buffer_invalid_capacity_too_small() {
    assert_eq!(check_capacity(1), Err(CapacityError::TooSmall));
    assert_eq!(check_capacity(0), Err(CapacityError::TooSmall));
}

#[test]
fn test_ring_buffer_indexing_logic() {
    let rb = RingBuffer::<u32>::new(4);
    assert_eq!(rb.index_mask(), 3);

    assert_eq!(0.get_index_from(rb.index_mask()), 0);
    assert_eq!(3.get_index_from(rb.index_mask()), 3);
    assert_eq!(4.get_index_from(rb.index_mask()), 0);
    assert_eq!(7.get_index_from(rb.index_mask()), 3);
    assert_eq!(8.get_index_from(rb.index_mask()), 0);

    // Negative sequences (for a cursor that starts at -1)
    assert_eq!((-1).get_index_from(rb.index_mask()), 3);
    assert_eq!((-4).get_index_from(rb.index_mask()), 0);
}

#[test]
fn test_ring_buffer_write_and_read() {
    let mut rb = RingBuffer::<u32>::new(4);

    *rb.get_mut(0) = Some(10);
    *rb.get_mut(1) = Some(20);
    *rb.get_mut(2) = Some(30);
    *rb.get_mut(3) = Some(40);

    assert_eq!(*rb.get(0), Some(10));
    assert_eq!(*rb.get(3), Some(40));

    // Sequence 4 overwrites the slot of sequence 0.
    *rb.get_mut(4) = Some(50);
    assert_eq!(*rb.get(4), Some(50));
    assert_eq!(
        0.get_index_from(rb.index_mask()),
        4.get_index_from(rb.index_mask())
    );
    assert_eq!(*rb.get(0), Some(50));
    assert_eq!(*rb.get(1), Some(20));
}

#[test]
fn test_ring_buffer_stores_initial_none() {
    let rb = RingBuffer::<String>::new(4);
    for i in 0..rb.capacity() {
        assert!(rb.get(i as i64).is_none());
    }
}

#[test]
fn slots_differ_within_a_round_and_come_round() {
    let mask = 7usize;
    for left in -20i64..20 {
        for ahead in 1i64..8 {
            assert_ne!(left.get_index_from(mask), (left + ahead).get_index_from(mask));
        }
        assert_eq!(left.get_index_from(mask), (left + 8).get_index_from(mask));
        assert_eq!(left.get_index_from(mask), left.rem_euclid(8) as usize);
    }
    assert_eq!(i64::MIN.get_index_from(mask), 0);
    assert_eq!(i64::MAX.get_index_from(mask), 7);
}
