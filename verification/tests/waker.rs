use embassy::executor::{Executor, TaskState, Waker};
use embassy::util::waker::AtomicWaker;

fn suspended(executor: &mut Executor) -> Waker {
    let waker = executor.spawn().unwrap();
    executor.take_ready();
    assert_eq!(executor.state(waker.task), TaskState::Suspended);
    waker
}

#[test]
fn wake_on_empty_slot_is_a_no_op() {
    let mut executor = Executor::new(2);
    let waker = suspended(&mut executor);
    let mut slot = AtomicWaker::new();
    slot.wake(&mut executor);
    assert_eq!(executor.state(waker.task), TaskState::Suspended);
    assert_eq!(executor.state(1), TaskState::Vacant);
}

#[test]
fn register_then_wake_invokes_once() {
    let mut executor = Executor::new(2);
    let waker = suspended(&mut executor);
    let mut slot = AtomicWaker::new();
    slot.register(&waker);
    slot.wake(&mut executor);
    assert_eq!(executor.state(waker.task), TaskState::Ready);
    // The task is polled and suspends again; a second wake finds the slot
    // empty.
    assert_eq!(executor.take_ready(), vec![waker.task]);
    slot.wake(&mut executor);
    assert_eq!(executor.state(waker.task), TaskState::Suspended);
    assert!(executor.take_ready().is_empty());
}

#[test]
fn second_registration_replaces_the_first() {
    let mut executor = Executor::new(2);
    let first = executor.spawn().unwrap();
    let second = executor.spawn().unwrap();
    assert_eq!((first.task, second.task), (0, 1));
    executor.take_ready();
    let mut slot = AtomicWaker::new();
    slot.register(&first);
    slot.register(&second);
    slot.wake(&mut executor);
    assert_eq!(executor.state(first.task), TaskState::Suspended);
    assert_eq!(executor.state(second.task), TaskState::Ready);
}
