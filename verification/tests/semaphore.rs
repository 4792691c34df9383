use liten::num::NonZeroUsize;
use liten::semaphore::{AcquirePoll, Semaphore};

fn size(n: usize) -> NonZeroUsize {
    NonZeroUsize::new(n).unwrap()
}

#[test]
fn try_acquire_grants_exactly_size_permits() {
    let mut s: Semaphore<u32> = Semaphore::with_size(size(3));
    assert!(s.try_acquire().is_ok());
    assert!(s.try_acquire().is_ok());
    assert!(s.try_acquire().is_ok());
    assert!(s.try_acquire().is_err());
}

#[test]
fn failed_try_acquire_reports_error_message() {
    let mut s: Semaphore<u32> = Semaphore::with_size(size(1));
    let _held = s.try_acquire().unwrap();
    let err = s.try_acquire().err().unwrap();
    assert_eq!(err.message(), "AcquireLockError: Failed to acquire lock");
}

#[test]
fn release_makes_permit_available_again() {
    let mut s: Semaphore<u32> = Semaphore::with_size(size(1));
    let lock = s.try_acquire().unwrap();
    assert!(s.try_acquire().is_err());
    assert_eq!(lock.release(&mut s), None);
    assert!(s.try_acquire().is_ok());
}

#[test]
fn acquire_then_release_restores_free_permits() {
    let mut s: Semaphore<u32> = Semaphore::with_size(size(2));
    let lock = s.try_acquire().unwrap();
    assert_eq!(lock.release(&mut s), None);
    let a = s.try_acquire();
    let b = s.try_acquire();
    assert!(a.is_ok() && b.is_ok());
    assert!(s.try_acquire().is_err());
}

#[test]
fn poll_is_ready_when_a_permit_is_free() {
    let mut s: Semaphore<u32> = Semaphore::with_size(size(1));
    let mut fut = s.acquire();
    assert!(matches!(fut.poll(&mut s, 7), AcquirePoll::Ready(_)));
    assert!(s.try_acquire().is_err());
}

#[test]
fn pending_poll_queues_waker_and_release_wakes_it() {
    let mut s: Semaphore<u32> = Semaphore::with_size(size(1));
    let lock = s.try_acquire().unwrap();
    let mut fut = s.acquire();
    assert!(matches!(fut.poll(&mut s, 7), AcquirePoll::Pending));
    assert_eq!(lock.release(&mut s), Some(7));
    // the woken waiter polls again and gets the permit
    assert!(matches!(fut.poll(&mut s, 7), AcquirePoll::Ready(_)));
}

#[test]
fn waiters_are_woken_in_the_order_they_queued() {
    let mut s: Semaphore<u32> = Semaphore::with_size(size(1));
    let lock = s.try_acquire().unwrap();
    let mut f1 = s.acquire();
    let mut f2 = s.acquire();
    let mut f3 = s.acquire();
    assert!(matches!(f1.poll(&mut s, 1), AcquirePoll::Pending));
    assert!(matches!(f2.poll(&mut s, 2), AcquirePoll::Pending));
    assert!(matches!(f3.poll(&mut s, 3), AcquirePoll::Pending));
    assert_eq!(lock.release(&mut s), Some(1));
    let lock1 = match f1.poll(&mut s, 1) {
        AcquirePoll::Ready(l) => l,
        AcquirePoll::Pending => panic!("woken waiter should get the permit"),
    };
    assert_eq!(lock1.release(&mut s), Some(2));
}

#[test]
fn release_with_free_permits_wakes_nobody() {
    let mut s: Semaphore<u32> = Semaphore::with_size(size(2));
    let a = s.try_acquire().unwrap();
    let b = s.try_acquire().unwrap();
    let mut f = s.acquire();
    assert!(matches!(f.poll(&mut s, 9), AcquirePoll::Pending));
    // the first release goes from no free permit to one, and wakes the waiter
    assert_eq!(a.release(&mut s), Some(9));
    // the second finds a free permit already, and wakes nobody
    assert_eq!(b.release(&mut s), None);
}

#[test]
fn nonzero_rejects_zero() {
    assert!(NonZeroUsize::new(0).is_none());
    assert_eq!(NonZeroUsize::new(5).unwrap().get(), 5);
}
