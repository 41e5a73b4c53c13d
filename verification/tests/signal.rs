use embassy::executor::{Executor, Poll, TaskState};
use embassy::util::signal::Signal;

#[test]
fn scenario_c_second_signal_overwrites_the_first() {
    let mut executor = Executor::new(1);
    let waker = executor.spawn().unwrap();
    executor.take_ready();
    let mut signal: Signal<u32> = Signal::new();
    signal.signal(5, &mut executor);
    signal.signal(7, &mut executor);
    assert!(signal.signaled());
    assert!(matches!(signal.poll_wait(&waker), Poll::Ready(7)));
    // The mailbox is empty again: the earlier value is never seen.
    assert!(!signal.signaled());
    assert!(matches!(signal.poll_wait(&waker), Poll::Pending));
}

#[test]
fn signal_wakes_the_waiting_consumer() {
    let mut executor = Executor::new(1);
    let waker = executor.spawn().unwrap();
    executor.take_ready();
    let mut signal: Signal<u8> = Signal::new();
    assert!(matches!(signal.poll_wait(&waker), Poll::Pending));
    assert_eq!(executor.state(waker.task), TaskState::Suspended);
    signal.signal(42, &mut executor);
    assert_eq!(executor.state(waker.task), TaskState::Ready);
    assert!(matches!(signal.poll_wait(&waker), Poll::Ready(42)));
}

#[test]
fn signal_without_consumer_wakes_nobody() {
    let mut executor = Executor::new(1);
    let waker = executor.spawn().unwrap();
    executor.take_ready();
    let mut signal: Signal<u8> = Signal::new();
    signal.signal(1, &mut executor);
    assert_eq!(executor.state(waker.task), TaskState::Suspended);
}

#[test]
fn reset_empties_the_mailbox() {
    let mut executor = Executor::new(1);
    let waker = executor.spawn().unwrap();
    let mut signal: Signal<u8> = Signal::new();
    signal.signal(3, &mut executor);
    signal.reset();
    assert!(!signal.signaled());
    assert!(matches!(signal.poll_wait(&waker), Poll::Pending));
}
