use wasix_core::futex::{futex_wait, futex_wake, futex_wake_all, Errno, FutexTable, FutexWait, Waiter};
use wasix_core::memory::GuestMemory;

fn waiter(id: u64) -> Waiter {
    Waiter { id, waker: Some(100 + id) }
}

#[test]
fn wake_on_unwaited_address_is_noop() {
    let mut t = FutexTable::new();
    assert_eq!(t.wake(0x40), None);
    assert!(t.wake_all(0x40).is_empty());
    assert_eq!(t.waiter_count(0x40), 0);
    t.wait(0x80, 1, 1, waiter(1), None);
    assert_eq!(t.wake(0x40), None);
    assert!(t.wake_all(0x40).is_empty());
    assert_eq!(t.waiter_count(0x80), 1);
}

#[test]
fn wake_all_releases_every_waiter_once() {
    let mut t = FutexTable::new();
    for id in 1..=4u64 {
        assert_eq!(t.wait(0x10, 7, 7, waiter(id), None), FutexWait::Pending);
    }
    let released = t.wake_all(0x10);
    let ids: Vec<u64> = released.iter().map(|w| w.id).collect();
    assert_eq!(ids, vec![1, 2, 3, 4]);
    for id in 1..=4u64 {
        assert_eq!(t.poll_wait(0x10, waiter(id)), FutexWait::Woken);
    }
    assert!(t.wake_all(0x10).is_empty());
}

#[test]
fn single_wakes_are_fifo() {
    let mut t = FutexTable::new();
    for id in 1..=3u64 {
        t.wait(0x20, 0, 0, waiter(id), None);
    }
    let mut order = Vec::new();
    while let Some(w) = t.wake(0x20) {
        order.push(w.id);
    }
    assert_eq!(order, vec![1, 2, 3]);
    assert_eq!(t.waiter_count(0x20), 0);
}

#[test]
fn value_mismatch_never_blocks() {
    let mut t = FutexTable::new();
    for (expected, actual) in [(0u32, 1u32), (5, 4), (u32::MAX, 0)] {
        assert_eq!(t.wait(0x30, expected, actual, waiter(1), None), FutexWait::ValueMismatch);
        assert_eq!(t.waiter_count(0x30), 0);
    }
}

#[test]
fn zero_timeout_returns_at_once() {
    let mut t = FutexTable::new();
    assert_eq!(t.wait(0x30, 3, 3, waiter(1), Some(0)), FutexWait::TimedOut);
    assert_eq!(t.waiter_count(0x30), 0);
    assert_eq!(t.wait(0x30, 3, 3, waiter(1), Some(10)), FutexWait::Pending);
    assert_eq!(t.waiter_count(0x30), 1);
}

#[test]
fn timeout_and_wake_resolve_once() {
    let mut t = FutexTable::new();
    t.wait(0x50, 0, 0, waiter(1), Some(5));
    t.wait(0x50, 0, 0, waiter(2), Some(5));
    assert_eq!(t.cancel_wait(0x50, 1), FutexWait::TimedOut);
    assert_eq!(t.waiter_count(0x50), 1);
    assert_eq!(t.wake(0x50).map(|w| w.id), Some(2));
    assert_eq!(t.cancel_wait(0x50, 2), FutexWait::Woken);
    assert_eq!(t.wake(0x50), None);
}

#[test]
fn repoll_keeps_place_and_updates_waker() {
    let mut t = FutexTable::new();
    t.wait(0x60, 0, 0, Waiter { id: 1, waker: None }, None);
    t.wait(0x60, 0, 0, waiter(2), None);
    assert_eq!(t.poll_wait(0x60, Waiter { id: 1, waker: Some(9) }), FutexWait::Pending);
    assert_eq!(t.waiter_count(0x60), 2);
    assert_eq!(t.wake(0x60), Some(Waiter { id: 1, waker: Some(9) }));
}

#[test]
fn futex_wait_then_wake_scenario() {
    let mut memory = GuestMemory::zeroed(0x2000);
    let mut t = FutexTable::new();
    let t1 = waiter(1);
    assert_eq!(futex_wait(&mut t, &memory, 0x1000, 0, t1, None), Ok(FutexWait::Pending));
    assert!(memory.write_u32(0x1000, 1));
    let (count, released) = futex_wake(&mut t, 0x1000);
    assert_eq!(count, 1);
    assert_eq!(released, Some(t1));
    assert_eq!(t.poll_wait(0x1000, t1), FutexWait::Woken);
    assert_eq!(futex_wake(&mut t, 0x1000).0, 0);
    assert_eq!(futex_wait(&mut t, &memory, 0x1000, 0, t1, None), Ok(FutexWait::ValueMismatch));
}

#[test]
fn futex_wait_outside_memory() {
    let memory = GuestMemory::zeroed(16);
    let mut t = FutexTable::new();
    assert_eq!(futex_wait(&mut t, &memory, 13, 0, waiter(1), None), Err(Errno::Memviolation));
    assert_eq!(futex_wait(&mut t, &memory, 12, 0, waiter(1), None), Ok(FutexWait::Pending));
}

#[test]
fn futex_wake_all_writes_flag_and_returns_wakers() {
    let mut memory = GuestMemory::zeroed(64);
    let mut t = FutexTable::new();
    t.wait(8, 0, 0, Waiter { id: 1, waker: Some(11) }, None);
    t.wait(8, 0, 0, Waiter { id: 2, waker: None }, None);
    t.wait(8, 0, 0, Waiter { id: 3, waker: Some(33) }, None);
    let (errno, woken, wakers) = futex_wake_all(&mut t, &mut memory, 8, 40);
    assert_eq!(errno, Errno::Success);
    assert_eq!(woken, 3);
    assert_eq!(wakers, vec![11, 33]);
    assert_eq!(memory.bytes[40], 1);
    assert_eq!(t.waiter_count(8), 0);
    let (errno, woken, wakers) = futex_wake_all(&mut t, &mut memory, 8, 40);
    assert_eq!(errno, Errno::Success);
    assert_eq!(woken, 0);
    assert!(wakers.is_empty());
    assert_eq!(memory.bytes[40], 0);
    let (errno, woken, wakers) = futex_wake_all(&mut t, &mut memory, 8, 64);
    assert_eq!(errno, Errno::Memviolation);
    assert_eq!(woken, 0);
    assert!(wakers.is_empty());
}

#[test]
fn futex_wake_all_on_unwaited_address_reports_none() {
    let mut memory = GuestMemory::zeroed(8);
    memory.write_u8(5, 7);
    let mut t = FutexTable::new();
    let (errno, woken, wakers) = futex_wake_all(&mut t, &mut memory, 0x1000, 5);
    assert_eq!(errno, Errno::Success);
    assert_eq!(woken, 0);
    assert!(wakers.is_empty());
    assert_eq!(memory.bytes, vec![0, 0, 0, 0, 0, 0, 0, 0]);
}

#[test]
fn memory_is_little_endian() {
    let mut memory = GuestMemory::zeroed(8);
    assert!(memory.write_u32(2, 0x1234_5678));
    assert_eq!(memory.bytes, vec![0, 0, 0x78, 0x56, 0x34, 0x12, 0, 0]);
    assert_eq!(memory.read_u32(2), Some(0x1234_5678));
    assert_eq!(memory.read_u32(4), Some(0x1234));
    assert_eq!(memory.read_u32(5), None);
    assert!(!memory.write_u32(6, 1));
    assert!(memory.write_u8(7, 0xff));
    assert!(!memory.write_u8(8, 0xff));
    assert_eq!(memory.duplicate().bytes, memory.bytes);
}
