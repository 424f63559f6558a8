use gyre::controller::SequenceController;
use gyre::cursor::Cursor;
use gyre::sequence_barrier::{SequenceBarrier, WaitStep};
use gyre::signal::Signals;

#[test]
fn test_sequence_pair_initialization() {
    let barrier = SequenceBarrier::new(Cursor::new(99));
    assert_eq!(barrier.cursor(), 99);
    assert!(!barrier.is_closed());
}

#[test]
fn test_notifier_publish_advances_cursor() {
    let mut barrier = SequenceBarrier::new(Cursor::new(-1));

    assert!(barrier.publish(0).consumers);
    assert_eq!(barrier.cursor(), 0);

    assert!(barrier.publish(1).consumers);
    assert_eq!(barrier.cursor(), 1);
}

#[test]
fn test_waiter_waits_until_target() {
    let mut barrier = SequenceBarrier::new(Cursor::new(-1));

    // Waiting for a sequence > 4
    assert_eq!(barrier.wait_until(4), WaitStep::Pending, "Waiter should be blocked");

    for i in 0..=4 {
        barrier.publish(i);
    }

    assert_eq!(barrier.cursor(), 4);
    assert_eq!(
        barrier.wait_until(4),
        WaitStep::Pending,
        "Waiter should still be blocked at target 4"
    );

    barrier.publish(5);
    assert_eq!(
        barrier.wait_until(4),
        WaitStep::Reached,
        "Waiter waiting for cursor > 4 should be unblocked when cursor becomes 5"
    );
}

#[test]
fn test_wait_until_already_met() {
    let mut barrier = SequenceBarrier::new(Cursor::new(-1));
    for i in 0..=10 {
        barrier.publish(i);
    }
    assert_eq!(
        barrier.wait_until(5),
        WaitStep::Reached,
        "Wait should return immediately if target is met"
    );
}

#[test]
fn test_waiter_unblocked_by_notifier_drop() {
    let mut barrier = SequenceBarrier::new(Cursor::new(-1));
    assert_eq!(barrier.wait_until(100), WaitStep::Pending);

    assert!(barrier.close().consumers, "Task should be unblocked by drop");
    assert_eq!(
        barrier.wait_until(100),
        WaitStep::Closed,
        "Wait should return error on close"
    );
    assert!(barrier.is_closed());
}

#[test]
fn test_waiter_double_check() {
    let mut barrier = SequenceBarrier::new(Cursor::new(-1));
    assert_eq!(barrier.wait_until(-1), WaitStep::Pending);

    // The cursor moves before the waiter is woken; its second look finds the event.
    let owed = barrier.publish(0);
    assert_eq!(
        barrier.wait_until(-1),
        WaitStep::Reached,
        "Wait should succeed due to double check"
    );
    assert!(owed.consumers);
}

#[test]
fn closed_barrier_still_shows_what_was_published() {
    let mut barrier = SequenceBarrier::new(Cursor::new(-1));
    barrier.publish(3);
    barrier.close();
    assert_eq!(barrier.wait_until(2), WaitStep::Reached);
    assert_eq!(barrier.wait_until(3), WaitStep::Closed);
}

#[test]
fn controller_lets_one_publisher_in_at_a_time() {
    let mut controller = SequenceController::new(SequenceBarrier::new(Cursor::new(4)));
    let claim = controller.claim_slot().unwrap();
    assert_eq!(claim.deref(), 5);
    assert!(controller.claim_slot().is_none());

    let signals = controller.release_claim(claim);
    assert_eq!(signals, Signals { consumers: false, publisher: false, claimant: true });

    // Nothing was published: the next claim is on the same sequence number.
    assert_eq!(controller.claim_slot().unwrap().deref(), 5);
}

#[test]
fn controller_publishes_and_closes() {
    let mut controller = SequenceController::new(SequenceBarrier::new(Cursor::new(-1)));
    assert!(controller.notify_one().consumers);
    assert!(controller.publish(0).consumers);
    assert_eq!(controller.cursor(), 0);
    assert!(!controller.is_closed());
    assert!(controller.close().consumers);
    assert!(controller.is_closed());
    assert_eq!(controller.wait_until(-1), WaitStep::Reached);
    assert_eq!(controller.wait_until(0), WaitStep::Closed);
}

#[test]
fn signals_add_up() {
    let all = Signals::to_consumers()
        .and(Signals::to_publisher())
        .and(Signals::to_claimant())
        .and(Signals::none());
    assert_eq!(all, Signals { consumers: true, publisher: true, claimant: true });
    assert_eq!(
        Signals::none(),
        Signals { consumers: false, publisher: false, claimant: false }
    );
}
