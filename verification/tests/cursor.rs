use gyre::consumer_id::ConsumerIds;
use gyre::cursor::Cursor;
use std::cmp::Ordering;

#[test]
fn test_cursor_new_and_relaxed_load() {
    let cursor = Cursor::new(42);
    assert_eq!(cursor.relaxed(), 42);

    let default_cursor = Cursor::default();
    assert_eq!(default_cursor.relaxed(), 0);
}

#[test]
fn test_cursor_fetch_add() {
    let mut cursor = Cursor::new(100);

    let old_value = cursor.fetch_add(5);
    assert_eq!(old_value, 100);
    assert_eq!(cursor.relaxed(), 105);

    let old_value = cursor.fetch_add(-10);
    assert_eq!(old_value, 105);
    assert_eq!(cursor.relaxed(), 95);
}

#[test]
fn test_cursor_compare_exchange_success() {
    let mut cursor = Cursor::new(50);

    let result = cursor.compare_exchange(50, 51);
    assert!(result.is_ok());
    assert_eq!(result.unwrap(), 50);
    assert_eq!(cursor.relaxed(), 51);
}

#[test]
fn test_cursor_compare_exchange_failure() {
    let mut cursor = Cursor::new(50);

    let result = cursor.compare_exchange(49, 51);
    assert!(result.is_err());
    assert_eq!(result.unwrap_err(), 50);
    assert_eq!(cursor.relaxed(), 50);
}

#[test]
fn test_cursor_equality() {
    let c1 = Cursor::new(10);
    let c2 = Cursor::new(10);
    let c3 = Cursor::new(20);

    assert_eq!(c1, c2);
    assert_ne!(c1, c3);

    assert_eq!(c1, 10);
    assert_ne!(c1, 11);
}

#[test]
fn test_cursor_ordering() {
    let c1 = Cursor::new(10);
    let c2 = Cursor::new(20);
    let c3 = Cursor::new(10);

    assert!(c1 < c2);
    assert!(c2 > c1);
    assert!(c1 <= c3);
    assert!(c1 >= c3);

    assert!(c1 < 11);
    assert!(c2 > 15);
    assert!(c1 <= 10);
}

#[test]
fn cursor_order_is_the_order_of_positions() {
    let low = Cursor::new(-5);
    let high = Cursor::new(6);
    assert_eq!(low.cmp(&high), Ordering::Less);
    assert_eq!(high.cmp(&low), Ordering::Greater);
    assert_eq!(low.cmp(&Cursor::new(-5)), Ordering::Equal);
}

#[test]
fn cursor_wraps_and_stores() {
    let mut cursor = Cursor::new(i64::MAX);
    assert_eq!(cursor.fetch_add(1), i64::MAX);
    assert_eq!(cursor.relaxed(), i64::MIN);
    cursor.store(7);
    assert_eq!(cursor.relaxed(), 7);
}

#[test]
fn consumer_ids_come_in_order() {
    let mut ids = ConsumerIds::default();
    assert_eq!(ids.next_id(), 0);
    assert_eq!(ids.next_id(), 1);
    assert_eq!(ids.next_id(), 2);
}
