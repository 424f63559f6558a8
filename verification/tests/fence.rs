use gyre::fence::Fence;

#[test]
fn test_fence_acquire_and_release() {
    let mut fence = Fence::default();

    let guard1 = fence.try_acquire().unwrap();
    assert!(fence.is_taken());

    guard1.release(&mut fence);
    assert!(!fence.is_taken());

    let guard2 = fence.try_acquire().unwrap();
    assert!(fence.is_taken());
    guard2.release(&mut fence);
}

#[test]
fn test_fence_exclusive_blocking() {
    let mut fence = Fence::default();

    // One task takes the fence.
    let guard = fence.try_acquire().unwrap();
    assert!(fence.is_taken());

    // Another one is kept out, however often it tries.
    assert!(fence.try_acquire().is_none(), "Task 2 should be blocked");
    assert!(fence.try_acquire().is_none());

    guard.release(&mut fence);
    assert!(!fence.is_taken());

    // Now it gets in.
    let guard = fence.try_acquire().expect("Task 2 should be unblocked");
    assert!(fence.is_taken(), "Task 2 should hold the flag now");
    guard.release(&mut fence);
}

#[test]
fn test_owned_fence_acquire_and_drop() {
    let mut fence = Fence::default();

    let guard = fence.try_acquire_owned().unwrap();
    assert!(fence.is_taken());
    assert!(fence.try_acquire_owned().is_none());
    assert!(fence.try_acquire().is_none());

    guard.release(&mut fence);
    assert!(!fence.is_taken());
}
