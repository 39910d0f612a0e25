use early_kernel::synchronization::interface::Mutex;
use early_kernel::synchronization::NullLock;

#[test]
fn lock_returns_what_the_closure_returns() {
    let mut lock = NullLock::new(0u64);
    assert_eq!(lock.lock(|_data: &mut u64| 42u8), 42);
    assert_eq!(lock.lock(|_data: &mut u64| "k"), "k");
}

#[test]
fn lock_keeps_what_the_closure_wrote() {
    let mut lock = NullLock::new(5u64);
    lock.lock(|data: &mut u64| *data += 1);
    assert_eq!(lock.lock(|data: &mut u64| *data), 6);
    lock.lock(|data: &mut u64| *data = 100);
    assert_eq!(lock.lock(|data: &mut u64| *data), 100);
}

#[test]
fn lock_hands_out_what_was_wrapped() {
    let mut lock = NullLock::new(vec![1u8, 2, 3]);
    assert_eq!(lock.lock(|data: &mut Vec<u8>| data.len()), 3);
    let popped = lock.lock(|data: &mut Vec<u8>| data.pop());
    assert_eq!(popped, Some(3));
    assert_eq!(lock.lock(|data: &mut Vec<u8>| data.clone()), vec![1u8, 2]);
}

#[test]
fn lock_runs_the_closure_once() {
    let mut lock = NullLock::new(0u32);
    let mut calls: u32 = 0;
    lock.lock(|data: &mut u32| {
        calls += 1;
        *data += 10;
    });
    assert_eq!(calls, 1);
    assert_eq!(lock.lock(|data: &mut u32| *data), 10);
}
