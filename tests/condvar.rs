use esp_idf_mutex::condvar::RawCondvar;
use esp_idf_mutex::fault::Fault;
use esp_idf_mutex::mutex::{Acquire, RawMutex};
use esp_idf_mutex::timeout::{TimeSpec, TimeVal};

#[test]
fn notify_one_without_waiters_changes_nothing() {
    let mut cv = RawCondvar::new();
    assert_eq!(cv.notify_one(), None);
    assert_eq!(cv.notify_one(), None);
    assert!(!cv.is_inside(1));
    assert_eq!(cv.destroy(), Ok(()));
}

#[test]
fn notify_all_without_waiters_wakes_nobody() {
    let mut cv = RawCondvar::new();
    assert_eq!(cv.notify_all(), 0);
    assert_eq!(cv.destroy(), Ok(()));
}

#[test]
fn wait_releases_the_lock() {
    let mut m = RawMutex::new();
    let mut cv = RawCondvar::new();
    assert_eq!(m.lock(1), Ok(Acquire::Acquired));
    assert_eq!(cv.wait(&mut m, 1), Ok(()));
    assert_eq!(m.holder, None);
    assert!(cv.is_inside(1));
}

#[test]
fn wait_without_holding_is_a_fault() {
    let mut m = RawMutex::new();
    let mut cv = RawCondvar::new();
    assert_eq!(cv.wait(&mut m, 1), Err(Fault::NotOwner));
    assert_eq!(m.lock(2), Ok(Acquire::Acquired));
    assert_eq!(cv.wait(&mut m, 1), Err(Fault::NotOwner));
    assert_eq!(m.holder, Some(2));
    assert!(!cv.is_inside(1));
}

#[test]
fn second_wait_by_a_waiting_thread_is_a_fault() {
    let mut m = RawMutex::new();
    let mut cv = RawCondvar::new();
    assert_eq!(m.lock(1), Ok(Acquire::Acquired));
    assert_eq!(cv.wait(&mut m, 1), Ok(()));
    assert_eq!(m.lock(1), Ok(Acquire::Acquired));
    assert_eq!(cv.wait(&mut m, 1), Err(Fault::AlreadyWaiting));
    assert_eq!(m.holder, Some(1));
}

#[test]
fn notify_one_wakes_longest_waiting() {
    let mut m = RawMutex::new();
    let mut cv = RawCondvar::new();
    for t in [7u64, 8, 9] {
        assert_eq!(m.lock(t), Ok(Acquire::Acquired));
        assert_eq!(cv.wait(&mut m, t), Ok(()));
    }
    assert_eq!(cv.notify_one(), Some(7));
    assert_eq!(cv.notify_one(), Some(8));
    assert_eq!(cv.reacquire(&mut m, 9), Err(Fault::NotWaiting));
    assert_eq!(cv.reacquire(&mut m, 8), Ok(Acquire::Acquired));
    assert_eq!(cv.reacquire(&mut m, 7), Ok(Acquire::Contended));
    assert_eq!(m.unlock(8), Ok(()));
    assert_eq!(cv.reacquire(&mut m, 7), Ok(Acquire::Acquired));
    assert!(!cv.is_inside(7));
    assert!(!cv.is_inside(8));
    assert!(cv.is_inside(9));
}

#[test]
fn notify_all_wakes_every_waiter() {
    let k: u64 = 6;
    let mut m = RawMutex::new();
    let mut cv = RawCondvar::new();
    for t in 0..k {
        assert_eq!(m.lock(t), Ok(Acquire::Acquired));
        assert_eq!(cv.wait(&mut m, t), Ok(()));
    }
    assert_eq!(m.lock(100), Ok(Acquire::Acquired));
    assert_eq!(cv.notify_all(), k as usize);
    assert_eq!(cv.notify_one(), None);
    assert_eq!(m.unlock(100), Ok(()));
    for t in 0..k {
        assert_eq!(cv.reacquire(&mut m, t), Ok(Acquire::Acquired));
        assert_eq!(m.holder, Some(t));
        assert_eq!(m.unlock(t), Ok(()));
        assert!(!cv.is_inside(t));
    }
    assert_eq!(cv.destroy(), Ok(()));
    assert_eq!(m.destroy(), Ok(()));
}

#[test]
fn no_missed_wakeup_over_many_rounds() {
    let (a, b) = (1u64, 2u64);
    let mut m = RawMutex::new();
    let mut cv = RawCondvar::new();
    for _ in 0..1000 {
        let mut flag = false;
        assert_eq!(m.lock(a), Ok(Acquire::Acquired));
        assert!(!flag);
        assert_eq!(cv.wait(&mut m, a), Ok(()));
        assert_eq!(m.lock(b), Ok(Acquire::Acquired));
        flag = true;
        assert_eq!(cv.notify_one(), Some(a));
        assert_eq!(m.unlock(b), Ok(()));
        assert_eq!(cv.reacquire(&mut m, a), Ok(Acquire::Acquired));
        assert!(flag);
        assert_eq!(m.unlock(a), Ok(()));
    }
    assert_eq!(cv.destroy(), Ok(()));
}

#[test]
fn timed_wait_without_signal_times_out() {
    let mut m = RawMutex::new();
    let mut cv = RawCondvar::new();
    assert_eq!(m.lock(4), Ok(Acquire::Acquired));
    let now = TimeVal { tv_sec: 100, tv_usec: 250_000 };
    let d = cv.wait_timeout(&mut m, 4, now, 0, 0);
    assert_eq!(d, Ok(TimeSpec { tv_sec: 100, tv_nsec: 250_000_000 }));
    assert_eq!(m.holder, None);
    assert_eq!(cv.expire(4), Ok(true));
    assert_eq!(cv.notify_one(), None);
    assert_eq!(cv.reacquire(&mut m, 4), Ok(Acquire::Acquired));
    assert_eq!(m.holder, Some(4));
}

#[test]
fn timed_wait_signalled_before_deadline_does_not_time_out() {
    let mut m = RawMutex::new();
    let mut cv = RawCondvar::new();
    assert_eq!(m.lock(4), Ok(Acquire::Acquired));
    let now = TimeVal { tv_sec: 100, tv_usec: 0 };
    let d = cv.wait_timeout(&mut m, 4, now, 2, 5);
    assert_eq!(d, Ok(TimeSpec { tv_sec: 102, tv_nsec: 5 }));
    assert_eq!(cv.notify_one(), Some(4));
    assert_eq!(cv.expire(4), Ok(false));
    assert_eq!(cv.reacquire(&mut m, 4), Ok(Acquire::Acquired));
    assert_eq!(m.holder, Some(4));
}

#[test]
fn timed_wait_without_holding_is_a_fault() {
    let mut m = RawMutex::new();
    let mut cv = RawCondvar::new();
    let now = TimeVal { tv_sec: 1, tv_usec: 0 };
    assert_eq!(cv.wait_timeout(&mut m, 4, now, 1, 0), Err(Fault::NotOwner));
}

#[test]
fn expire_of_a_thread_not_waiting_is_a_fault() {
    let mut cv = RawCondvar::new();
    assert_eq!(cv.expire(3), Err(Fault::NotWaiting));
}

#[test]
fn destroy_with_waiter_is_a_fault() {
    let mut m = RawMutex::new();
    let mut cv = RawCondvar::new();
    assert_eq!(m.lock(1), Ok(Acquire::Acquired));
    assert_eq!(cv.wait(&mut m, 1), Ok(()));
    assert_eq!(cv.destroy(), Err(Fault::Occupied));
    assert_eq!(cv.notify_one(), Some(1));
    assert_eq!(cv.destroy(), Err(Fault::Occupied));
    assert_eq!(cv.reacquire(&mut m, 1), Ok(Acquire::Acquired));
    assert_eq!(cv.destroy(), Ok(()));
    assert_eq!(cv.destroy(), Err(Fault::Destroyed));
    assert_eq!(m.unlock(1), Ok(()));
    assert_eq!(cv.wait(&mut m, 1), Err(Fault::Destroyed));
}

#[test]
fn repeated_create_destroy_cycles() {
    for _ in 0..10_000 {
        let mut m = RawMutex::new();
        let mut cv = RawCondvar::new();
        assert_eq!(cv.destroy(), Ok(()));
        assert_eq!(m.destroy(), Ok(()));
    }
}
