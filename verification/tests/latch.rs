use service_harness::latch::{Latch, PollStatus};

#[test]
fn new_latch_is_locked() {
    let mut latch: Latch<u32> = Latch::new();
    assert_eq!(latch.poll(7), PollStatus::Pending);
}

#[test]
fn poll_registers_the_waiter() {
    let mut latch: Latch<u32> = Latch::new();
    assert_eq!(latch.poll(7), PollStatus::Pending);
    let woken = latch.unlock();
    assert_eq!(woken, Some(7));
}

#[test]
fn later_waiter_displaces_earlier_one() {
    let mut latch: Latch<u32> = Latch::new();
    assert_eq!(latch.poll(1), PollStatus::Pending);
    assert_eq!(latch.poll(2), PollStatus::Pending);
    let woken = latch.unlock();
    assert_eq!(woken, Some(2));
}

#[test]
fn unlock_without_waiter_wakes_nobody() {
    let mut latch: Latch<u32> = Latch::new();
    assert_eq!(latch.unlock(), None);
}

#[test]
fn polls_after_unlock_always_report_ready() {
    let mut latch: Latch<u32> = Latch::new();
    latch.unlock();
    for waker in 0u32..10u32 {
        assert_eq!(latch.poll(waker), PollStatus::Ready);
    }
}

#[test]
fn polls_after_unlock_report_ready_with_earlier_waiter() {
    let mut latch: Latch<u32> = Latch::new();
    assert_eq!(latch.poll(3), PollStatus::Pending);
    assert_eq!(latch.unlock(), Some(3));
    assert_eq!(latch.poll(4), PollStatus::Ready);
    assert_eq!(latch.poll(5), PollStatus::Ready);
}

#[test]
fn repeated_unlocks_wake_at_most_once() {
    let mut latch: Latch<u32> = Latch::new();
    assert_eq!(latch.poll(9), PollStatus::Pending);
    assert_eq!(latch.unlock(), Some(9));
    assert_eq!(latch.unlock(), None);
    assert_eq!(latch.unlock(), None);
}
