use gyre::signal::Signals;
use gyre::{
    channel, Bus, Consumer, EventGuard, NextStep, OwnedEventGuard, PublishStep, Publisher,
};

/// Publishes `event`, which the buffer is expected to have room for. `Err` if there is no consumer.
fn publish<T>(tx: &Publisher, bus: &mut Bus<T>, event: T) -> Result<(), T> {
    let claim = tx.claim_slot(bus).expect("claim should be free");
    match tx.publish(bus, claim, event) {
        (PublishStep::Published, signals) => {
            assert_eq!(signals, Signals { consumers: true, publisher: false, claimant: true });
            Ok(())
        }
        (PublishStep::Rejected(event), signals) => {
            assert_eq!(signals, Signals { consumers: false, publisher: false, claimant: true });
            Err(event)
        }
        (PublishStep::Full(..), _) => panic!("buffer should have room"),
    }
}

/// Tries to publish `event`, and gives the claim back if the buffer is full.
fn is_full<T>(tx: &Publisher, bus: &mut Bus<T>, event: T) -> bool {
    let claim = tx.claim_slot(bus).expect("claim should be free");
    match tx.publish(bus, claim, event) {
        (PublishStep::Full(claim, _), signals) => {
            assert_eq!(signals, Signals { consumers: true, publisher: false, claimant: false });
            tx.release_claim(bus, claim);
            true
        }
        _ => false,
    }
}

/// The next event of `rx`, which is expected to be there.
fn next<T>(rx: &mut Consumer, bus: &Bus<T>) -> EventGuard {
    let guard = rx.try_acquire().expect("fence should be free");
    match rx.next(bus, guard) {
        NextStep::Ready(event) => event,
        _ => panic!("event should be there"),
    }
}

/// The next event of `rx`, shared, which is expected to be there.
fn next_owned<T>(rx: &mut Consumer, bus: &Bus<T>) -> OwnedEventGuard {
    let guard = rx.try_acquire_owned().expect("fence should be free");
    match rx.next_owned(bus, guard) {
        NextStep::Ready(event) => event,
        _ => panic!("event should be there"),
    }
}

/// Whether `rx` would wait for its next event.
fn would_wait<T>(rx: &mut Consumer, bus: &Bus<T>) -> bool {
    let guard = rx.try_acquire().expect("fence should be free");
    match rx.next(bus, guard) {
        NextStep::Pending(guard) => {
            rx.release(guard);
            true
        }
        _ => false,
    }
}

/// Whether `rx` is told that the stream has ended.
fn has_ended<T>(rx: &mut Consumer, bus: &Bus<T>) -> bool {
    let guard = rx.try_acquire().expect("fence should be free");
    matches!(rx.next(bus, guard), NextStep::Closed)
}

fn subscribe<T>(tx: &Publisher, bus: &mut Bus<T>) -> Consumer {
    let claim = tx.claim_slot(bus).expect("claim should be free");
    let (consumer, signals) = tx.subscribe(bus, claim);
    assert_eq!(signals, Signals { consumers: false, publisher: false, claimant: true });
    consumer
}

#[test]
fn test_basic_publish_and_consume() {
    let (mut bus, tx, mut rx) = channel::<i32>(4);

    publish(&tx, &mut bus, 100).unwrap();
    publish(&tx, &mut bus, 200).unwrap();

    let guard1 = next(&mut rx, &bus);
    assert_eq!(*guard1.deref(&bus), 100);
    guard1.release(&mut rx, &mut bus);

    let guard2 = next(&mut rx, &bus);
    assert_eq!(*guard2.deref(&bus), 200);
}

#[test]
fn test_publish_no_consumer() {
    let (mut bus, tx, rx) = channel::<i32>(4);

    rx.leave(&mut bus);

    let result = publish(&tx, &mut bus, 999);
    assert!(result.is_err());
    assert_eq!(result.unwrap_err(), 999);
}

#[test]
fn test_backpressure_blocking() {
    let (mut bus, tx, mut rx) = channel::<u32>(2);

    // Fills the buffer: one slot less than the capacity can be ahead of a consumer.
    publish(&tx, &mut bus, 1).unwrap();

    let claim = tx.claim_slot(&mut bus).unwrap();
    let (claim, event) = match tx.publish(&mut bus, claim, 2) {
        (PublishStep::Full(claim, event), signals) => {
            assert_eq!(signals, Signals { consumers: true, publisher: false, claimant: false });
            (claim, event)
        }
        _ => panic!("Publisher should be blocked due to backpressure"),
    };

    // The consumer frees a slot.
    let g1 = next(&mut rx, &bus);
    assert_eq!(*g1.deref(&bus), 1);
    let signals = g1.release(&mut rx, &mut bus);
    assert_eq!(signals, Signals { consumers: false, publisher: true, claimant: false });

    // Under the same claim the publisher gets through.
    match tx.publish(&mut bus, claim, event) {
        (PublishStep::Published, _) => {}
        _ => panic!("Publisher should be unblocked"),
    }

    let g2 = next(&mut rx, &bus);
    assert_eq!(*g2.deref(&bus), 2);
}

#[test]
fn test_dynamic_subscribe() {
    let (mut bus, tx, mut rx1) = channel::<String>(4);

    publish(&tx, &mut bus, "A".to_string()).unwrap();
    let g_a = next(&mut rx1, &bus);
    assert_eq!(*g_a.deref(&bus), "A");

    let mut rx2 = subscribe(&tx, &mut bus);

    publish(&tx, &mut bus, "B".to_string()).unwrap();
    publish(&tx, &mut bus, "C".to_string()).unwrap();

    // rx1 receives all events.
    g_a.release(&mut rx1, &mut bus);
    for expected in ["B", "C"] {
        let guard = next(&mut rx1, &bus);
        assert_eq!(*guard.deref(&bus), expected);
        guard.release(&mut rx1, &mut bus);
    }

    // rx2 receives those published after it subscribed, and no more.
    for expected in ["B", "C"] {
        let guard = next(&mut rx2, &bus);
        assert_eq!(*guard.deref(&bus), expected);
        guard.release(&mut rx2, &mut bus);
    }
    assert!(would_wait(&mut rx2, &bus));
}

#[test]
fn test_consumer_drop_removes_from_bus() {
    let (mut bus, _tx, rx) = channel::<()>(4);
    let id = rx.get_id();

    assert!(bus.position(id).is_some());

    let signals = rx.leave(&mut bus);
    assert_eq!(signals, Signals { consumers: false, publisher: true, claimant: false });

    assert!(bus.position(id).is_none());
}

#[test]
fn test_raii_cursor_advancement() {
    let (mut bus, tx, mut rx) = channel::<u32>(4);
    let id = rx.get_id();

    assert_eq!(bus.position(id), Some(-1));

    publish(&tx, &mut bus, 10).unwrap();

    let guard1 = next(&mut rx, &bus);
    assert_eq!(*guard1.deref(&bus), 10);

    // Not advanced while the event is being processed.
    assert_eq!(bus.position(id), Some(-1));

    guard1.release(&mut rx, &mut bus);
    assert_eq!(bus.position(id), Some(0));

    publish(&tx, &mut bus, 20).unwrap();

    let guard2 = next(&mut rx, &bus);
    assert_eq!(*guard2.deref(&bus), 20);
    guard2.release(&mut rx, &mut bus);

    assert_eq!(bus.position(id), Some(1));
}

#[test]
fn test_consumer_cloning_and_multicast() {
    let (mut bus, tx, mut rx1) = channel::<i32>(4);
    let id1 = rx1.get_id();

    publish(&tx, &mut bus, 10).unwrap();

    let mut rx2 = rx1.clone(&mut bus);
    let g1 = next(&mut rx1, &bus);
    assert_eq!(*g1.deref(&bus), 10);

    let id2 = rx2.get_id();
    assert_ne!(id1, id2);
    assert_eq!(bus.position(id1), Some(-1));
    assert_eq!(bus.position(id2), Some(-1));

    publish(&tx, &mut bus, 20).unwrap();
    publish(&tx, &mut bus, 30).unwrap();

    // rx2 goes on by itself.
    let g2_1 = next(&mut rx2, &bus);
    assert_eq!(*g2_1.deref(&bus), 10);
    g2_1.release(&mut rx2, &mut bus);

    let g2_2 = next(&mut rx2, &bus);
    assert_eq!(*g2_2.deref(&bus), 20);
    g2_2.release(&mut rx2, &mut bus);

    // So does rx1.
    g1.release(&mut rx1, &mut bus);
    let g1_2 = next(&mut rx1, &bus);
    assert_eq!(*g1_2.deref(&bus), 20);
    g1_2.release(&mut rx1, &mut bus);

    assert_eq!(bus.position(id1), Some(1));
    assert_eq!(bus.position(id2), Some(1));
}

#[test]
fn test_exclusive_access_via_fence() {
    let (mut bus, tx, mut rx) = channel::<u32>(4);

    publish(&tx, &mut bus, 100).unwrap();
    publish(&tx, &mut bus, 200).unwrap();

    // Task 1 holds event 100, and with it the fence.
    let held = next_owned(&mut rx, &bus);

    assert!(
        rx.try_acquire_owned().is_none(),
        "Task 2 should be blocked by the fence held by Task 1"
    );

    assert_eq!(*held.deref(&bus), 100);
    held.release(&mut rx, &mut bus);

    // Task 2 gets the next event.
    let guard = next_owned(&mut rx, &bus);
    assert_eq!(*guard.deref(&bus), 200);
}

#[test]
fn test_next_owned_consumption() {
    let (mut bus, tx, mut rx) = channel::<i32>(4);
    let id = rx.get_id();

    publish(&tx, &mut bus, 555).unwrap();

    let owned_guard = next_owned(&mut rx, &bus);
    assert_eq!(*owned_guard.deref(&bus), 555);
    assert_eq!(bus.position(id), Some(-1));

    let signals = owned_guard.release(&mut rx, &mut bus);
    assert_eq!(signals, Signals { consumers: false, publisher: true, claimant: false });
    assert_eq!(bus.position(id), Some(0));

    publish(&tx, &mut bus, 666).unwrap();
    let owned_guard_2 = next_owned(&mut rx, &bus);
    assert_eq!(*owned_guard_2.deref(&bus), 666);
}

#[test]
fn next_owned_waits_and_ends_like_next() {
    let (mut bus, tx, mut rx) = channel::<i32>(2);

    let guard = rx.try_acquire_owned().unwrap();
    let guard = match rx.next_owned(&bus, guard) {
        NextStep::Pending(guard) => guard,
        _ => panic!("no event yet"),
    };
    // The one who waits keeps the fence.
    assert!(rx.try_acquire_owned().is_none());
    rx.release_owned(guard);

    tx.leave(&mut bus);
    let guard = rx.try_acquire_owned().unwrap();
    assert!(matches!(rx.next_owned(&bus, guard), NextStep::Closed));
    // The end gives the fence back.
    assert!(rx.try_acquire_owned().is_some());
}

#[test]
fn every_consumer_gets_every_event_once_and_in_order() {
    let (mut bus, tx, mut rx1) = channel::<i64>(4);
    let mut rx2 = rx1.clone(&mut bus);
    let mut got1: Vec<i64> = Vec::new();
    let mut got2: Vec<i64> = Vec::new();

    for event in 0..100 {
        publish(&tx, &mut bus, event).unwrap();
        let guard = next(&mut rx1, &bus);
        got1.push(*guard.deref(&bus));
        guard.release(&mut rx1, &mut bus);
        // The second consumer goes in bursts of three.
        if event % 3 == 2 {
            for _ in 0..3 {
                let guard = next(&mut rx2, &bus);
                got2.push(*guard.deref(&bus));
                guard.release(&mut rx2, &mut bus);
            }
        }
    }
    assert_eq!(got1, (0..100).collect::<Vec<i64>>());
    assert_eq!(got2, (0..99).collect::<Vec<i64>>());
}

#[test]
fn backpressure_starts_one_short_of_the_capacity() {
    for capacity in [2usize, 4, 8, 16] {
        let (mut bus, tx, mut rx) = channel::<usize>(capacity);
        for event in 0..capacity - 1 {
            publish(&tx, &mut bus, event).unwrap();
        }
        assert!(is_full(&tx, &mut bus, 0));
        assert_eq!(bus.published(), capacity as i64 - 2);

        let guard = next(&mut rx, &bus);
        guard.release(&mut rx, &mut bus);
        assert!(!is_full(&tx, &mut bus, capacity));
    }
}

#[test]
fn the_slowest_consumer_holds_the_publisher_up_until_it_leaves() {
    let (mut bus, tx, mut fast) = channel::<u8>(4);
    let slow = fast.clone(&mut bus);
    for event in 0..3u8 {
        publish(&tx, &mut bus, event).unwrap();
        let guard = next(&mut fast, &bus);
        guard.release(&mut fast, &mut bus);
    }
    assert_eq!(bus.slowest(), Some(-1));
    assert!(is_full(&tx, &mut bus, 3));

    slow.leave(&mut bus);
    assert_eq!(bus.slowest(), Some(2));
    publish(&tx, &mut bus, 3).unwrap();
    let guard = next(&mut fast, &bus);
    assert_eq!(*guard.deref(&bus), 3);
}

#[test]
fn a_held_event_survives_what_others_do() {
    let (mut bus, tx, mut rx) = channel::<String>(4);
    publish(&tx, &mut bus, "first".to_string()).unwrap();
    let held = next(&mut rx, &bus);

    let mut other = subscribe(&tx, &mut bus);
    publish(&tx, &mut bus, "second".to_string()).unwrap();
    publish(&tx, &mut bus, "third".to_string()).unwrap();
    assert!(is_full(&tx, &mut bus, "fourth".to_string()));
    let guard = next(&mut other, &bus);
    assert_eq!(*guard.deref(&bus), "second");
    guard.release(&mut other, &mut bus);
    other.leave(&mut bus);

    assert_eq!(*held.deref(&bus), "first");
    held.release(&mut rx, &mut bus);
    let guard = next(&mut rx, &bus);
    assert_eq!(*guard.deref(&bus), "second");
}

#[test]
fn a_cancelled_claim_leaves_no_gap() {
    let (mut bus, tx, mut rx) = channel::<u8>(2);
    let claim = tx.claim_slot(&mut bus).unwrap();
    assert_eq!(claim.deref(), 0);
    assert!(tx.claim_slot(&mut bus).is_none());
    let signals = tx.release_claim(&mut bus, claim);
    assert_eq!(signals, Signals { consumers: false, publisher: false, claimant: true });

    let claim = tx.claim_slot(&mut bus).unwrap();
    assert_eq!(claim.deref(), 0);
    tx.release_claim(&mut bus, claim);

    publish(&tx, &mut bus, 9).unwrap();
    assert_eq!(bus.published(), 0);
    let guard = next(&mut rx, &bus);
    assert_eq!(*guard.deref(&bus), 9);
}

#[test]
fn a_cancelled_wait_keeps_the_position() {
    let (mut bus, tx, mut rx) = channel::<u8>(2);
    assert!(would_wait(&mut rx, &bus));
    assert_eq!(bus.position(rx.get_id()), Some(-1));
    publish(&tx, &mut bus, 1).unwrap();
    let guard = next(&mut rx, &bus);
    assert_eq!(*guard.deref(&bus), 1);
}

#[test]
fn a_rejected_event_leaves_no_trace() {
    let (mut bus, tx, rx) = channel::<u8>(2);
    rx.leave(&mut bus);
    assert_eq!(bus.slowest(), None);
    for event in 0..5u8 {
        assert_eq!(publish(&tx, &mut bus, event), Err(event));
        assert_eq!(bus.published(), -1);
    }

    let mut late = subscribe(&tx, &mut bus);
    assert_eq!(bus.position(late.get_id()), Some(-1));
    assert!(would_wait(&mut late, &bus));
    publish(&tx, &mut bus, 5).unwrap();
    assert_eq!(bus.published(), 0);
    let guard = next(&mut late, &bus);
    assert_eq!(*guard.deref(&bus), 5);
}

#[test]
fn the_last_publisher_closes_and_the_rest_is_drained() {
    let (mut bus, tx, mut rx) = channel::<u8>(4);
    assert_eq!(bus.publishers(), 1);
    let tx2 = tx.clone(&mut bus);
    assert_eq!(bus.publishers(), 2);
    publish(&tx, &mut bus, 1).unwrap();

    let signals = tx.leave(&mut bus);
    assert_eq!(signals, Signals { consumers: false, publisher: false, claimant: false });
    assert!(!bus.is_closed());

    publish(&tx2, &mut bus, 2).unwrap();
    let signals = tx2.leave(&mut bus);
    assert_eq!(signals, Signals { consumers: true, publisher: false, claimant: false });
    assert!(bus.is_closed());

    for expected in [1u8, 2] {
        let guard = next(&mut rx, &bus);
        assert_eq!(*guard.deref(&bus), expected);
        guard.release(&mut rx, &mut bus);
    }
    assert!(has_ended(&mut rx, &bus));
    assert!(has_ended(&mut rx, &bus));
}

#[test]
fn consumers_have_different_ids_and_capacity_is_kept() {
    let (mut bus, tx, rx) = channel::<u8>(8);
    assert_eq!(bus.capacity(), 8);
    let clone = rx.clone(&mut bus);
    let sub = subscribe(&tx, &mut bus);
    assert_eq!(rx.get_id(), 0);
    assert_eq!(clone.get_id(), 1);
    assert_eq!(sub.get_id(), 2);
    clone.leave(&mut bus);
    let next_one = sub.clone(&mut bus);
    assert_eq!(next_one.get_id(), 3);
    assert_eq!(bus.position(1), None);
    assert_eq!(bus.position(3), Some(-1));
}

#[test]
fn many_consumers_are_all_counted() {
    let (mut bus, tx, rx) = channel::<u32>(1024);
    let mut all: Vec<Consumer> = Vec::new();
    for event in 0..200u32 {
        all.push(rx.clone(&mut bus));
        publish(&tx, &mut bus, event).unwrap();
    }
    assert_eq!(bus.slowest(), Some(-1));
    for consumer in all.iter_mut() {
        let guard = next(consumer, &bus);
        assert_eq!(*guard.deref(&bus), 0);
        guard.release(consumer, &mut bus);
    }
    assert_eq!(bus.slowest(), Some(-1));
    rx.leave(&mut bus);
    assert_eq!(bus.slowest(), Some(0));
    for consumer in all {
        consumer.leave(&mut bus);
    }
    assert_eq!(bus.slowest(), None);
}

#[test]
fn room_is_not_lost_to_other_operations() {
    let (mut bus, tx, mut rx) = channel::<u8>(2);
    let claim = tx.claim_slot(&mut bus).unwrap();
    // There is room now; others join, move on and leave before the event is offered.
    let clone = rx.clone(&mut bus);
    clone.leave(&mut bus);
    let tx2 = tx.clone(&mut bus);
    tx2.leave(&mut bus);
    assert!(would_wait(&mut rx, &bus));
    assert!(matches!(tx.publish(&mut bus, claim, 1), (PublishStep::Published, _)));
    let guard = next(&mut rx, &bus);
    assert_eq!(*guard.deref(&bus), 1);
}

#[test]
fn a_cancelled_wait_for_space_leaves_no_gap() {
    let (mut bus, tx, mut rx) = channel::<u8>(2);
    publish(&tx, &mut bus, 1).unwrap();
    assert!(is_full(&tx, &mut bus, 2));
    assert_eq!(bus.published(), 0);
    let guard = next(&mut rx, &bus);
    guard.release(&mut rx, &mut bus);
    let claim = tx.claim_slot(&mut bus).unwrap();
    assert_eq!(claim.deref(), 1);
    assert!(matches!(tx.publish(&mut bus, claim, 3), (PublishStep::Published, _)));
    let guard = next(&mut rx, &bus);
    assert_eq!(*guard.deref(&bus), 3);
}

#[test]
fn publishers_take_turns_on_one_stream() {
    let (mut bus, tx1, mut rx) = channel::<i32>(8);
    let tx2 = tx1.clone(&mut bus);
    let claim = tx1.claim_slot(&mut bus).unwrap();
    assert!(tx2.claim_slot(&mut bus).is_none());
    assert!(matches!(tx1.publish(&mut bus, claim, 10), (PublishStep::Published, _)));
    publish(&tx2, &mut bus, 20).unwrap();
    publish(&tx1, &mut bus, 30).unwrap();
    assert_eq!(bus.published(), 2);
    for expected in [10, 20, 30] {
        let guard = next(&mut rx, &bus);
        assert_eq!(*guard.deref(&bus), expected);
        guard.release(&mut rx, &mut bus);
    }
}

#[test]
fn a_clone_is_given_the_same_stream_as_its_source() {
    let (mut bus, tx, mut rx) = channel::<i32>(4);
    publish(&tx, &mut bus, 1).unwrap();
    publish(&tx, &mut bus, 2).unwrap();
    let guard = next(&mut rx, &bus);
    guard.release(&mut rx, &mut bus);
    let mut clone = rx.clone(&mut bus);
    publish(&tx, &mut bus, 3).unwrap();
    for consumer in [&mut rx, &mut clone] {
        for expected in [2, 3] {
            let guard = next(consumer, &bus);
            assert_eq!(*guard.deref(&bus), expected);
            guard.release(consumer, &mut bus);
        }
        assert!(would_wait(consumer, &bus));
    }
}

#[test]
fn events_published_before_a_rejection_keep_their_numbers() {
    let (mut bus, tx, rx) = channel::<u8>(4);
    publish(&tx, &mut bus, 1).unwrap();
    publish(&tx, &mut bus, 2).unwrap();
    rx.leave(&mut bus);
    assert_eq!(publish(&tx, &mut bus, 3), Err(3));
    assert_eq!(bus.published(), 1);
    let claim = tx.claim_slot(&mut bus).unwrap();
    assert_eq!(claim.deref(), 2);
    tx.release_claim(&mut bus, claim);
}

#[test]
fn a_cancelled_wait_leaves_no_gap_while_others_go_on() {
    let (mut bus, tx, mut rx) = channel::<u8>(2);
    let tx2 = tx.clone(&mut bus);
    publish(&tx, &mut bus, 1).unwrap();

    // A publisher waits for space; meanwhile others come, try for the claim and go.
    let claim = tx.claim_slot(&mut bus).unwrap();
    let (claim, event) = match tx.publish(&mut bus, claim, 2) {
        (PublishStep::Full(claim, event), _) => (claim, event),
        _ => panic!("buffer should be full"),
    };
    let other = rx.clone(&mut bus);
    assert!(tx2.claim_slot(&mut bus).is_none());
    let claim = match tx.publish(&mut bus, claim, event) {
        (PublishStep::Full(claim, _), _) => claim,
        _ => panic!("buffer should be full"),
    };
    other.leave(&mut bus);
    let guard = next(&mut rx, &bus);
    assert_eq!(*guard.deref(&bus), 1);
    guard.release(&mut rx, &mut bus);

    // It is cancelled although there is room by now.
    tx.release_claim(&mut bus, claim);
    assert_eq!(bus.published(), 0);
    assert_eq!(bus.position(rx.get_id()), Some(0));
    let claim = tx2.claim_slot(&mut bus).unwrap();
    assert_eq!(claim.deref(), 1);
    assert!(matches!(tx2.publish(&mut bus, claim, 3), (PublishStep::Published, _)));
    let guard = next(&mut rx, &bus);
    assert_eq!(*guard.deref(&bus), 3);
}
