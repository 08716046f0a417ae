use std::sync::atomic::{AtomicUsize, Ordering};
use std::sync::Arc;
use std::task::{Wake, Waker};

use awaitable::{Error, InnerState};

struct CountingWake {
    count: AtomicUsize,
}

impl Wake for CountingWake {
    fn wake(self: Arc<Self>) {
        self.count.fetch_add(1, Ordering::SeqCst);
    }
}

#[test]
fn state_machine_cycle() {
    let mut s: InnerState<u32, u32> = InnerState::Uninitialized;
    assert_eq!(s.take_input(), Err(Error::Uninitialized));
    s.reset(Some(5));
    assert!(matches!(s, InnerState::Ongoing(Some(5), None)));
    assert_eq!(s.take_input(), Ok(Some(5)));
    assert!(matches!(s, InnerState::Ongoing(None, None)));
    let c = Arc::new(CountingWake { count: AtomicUsize::new(0) });
    assert_eq!(s.install_waker(Waker::from(c.clone())), Ok(false));
    assert!(matches!(s, InnerState::Ongoing(None, Some(_))));
    let woken = s.done(42).unwrap();
    assert!(woken.is_some());
    assert!(matches!(s, InnerState::Done(42)));
    assert!(s.is_done());
    assert_eq!(c.count.load(Ordering::SeqCst), 0);
    woken.unwrap().wake();
    assert_eq!(c.count.load(Ordering::SeqCst), 1);
    assert_eq!(s.take_output(), Some(42));
    assert!(s.is_consumed());
    s.reset(Some(7));
    assert!(matches!(s, InnerState::Ongoing(Some(7), None)));
}

#[test]
fn state_machine_failed_done_changes_nothing() {
    let mut s: InnerState<u32, u32> = InnerState::Done(1);
    assert!(matches!(s.done(2), Err(Error::AlreadyDone)));
    assert!(matches!(s, InnerState::Done(1)));
    let mut u: InnerState<u32, u32> = InnerState::Uninitialized;
    assert!(matches!(u.done(2), Err(Error::Uninitialized)));
    assert!(matches!(u, InnerState::Uninitialized));
    let mut c: InnerState<u32, u32> = InnerState::Consumed;
    assert!(matches!(c.done(2), Err(Error::AlreadyConsumed)));
    assert!(matches!(c, InnerState::Consumed));
}

#[test]
fn state_machine_take_output_from_ongoing() {
    let mut s: InnerState<u32, u32> = InnerState::Ongoing(Some(3), None);
    assert_eq!(s.take_output(), None);
    assert!(matches!(s, InnerState::Consumed));
    assert!(!s.is_done());
}
