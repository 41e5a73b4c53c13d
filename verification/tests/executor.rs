use embassy::executor::{Action, Executor, TaskState, Waker};

#[test]
fn new_table_is_vacant_and_idle() {
    let executor = Executor::new(3);
    assert_eq!(executor.capacity(), 3);
    for task in 0..4 {
        assert_eq!(executor.state(task), TaskState::Vacant);
    }
    assert_eq!(executor.next_action(), Action::Sleep);
    assert_eq!(executor.alarm(), None);
    assert_eq!(executor.next_expiration(), None);
}

#[test]
fn spawn_fills_the_first_vacant_slot() {
    let mut executor = Executor::new(2);
    assert_eq!(executor.spawn(), Some(Waker { task: 0 }));
    assert_eq!(executor.spawn(), Some(Waker { task: 1 }));
    assert_eq!(executor.spawn(), None);
    assert_eq!(executor.next_action(), Action::Poll);
    executor.take_ready();
    executor.complete(0);
    assert_eq!(executor.state(0), TaskState::Vacant);
    assert_eq!(executor.spawn(), Some(Waker { task: 0 }));
}

#[test]
fn a_round_polls_each_ready_task_once_in_wake_order() {
    let mut executor = Executor::new(3);
    let a = executor.spawn().unwrap();
    let b = executor.spawn().unwrap();
    let c = executor.spawn().unwrap();
    assert_eq!(executor.take_ready(), vec![0, 1, 2]);
    assert_eq!(executor.next_action(), Action::Sleep);
    executor.wake(c);
    executor.wake(a);
    executor.wake(c);
    assert_eq!(executor.state(b.task), TaskState::Suspended);
    assert_eq!(executor.take_ready(), vec![2, 0]);
    assert!(executor.take_ready().is_empty());
}

#[test]
fn wake_of_a_vacant_or_unknown_slot_changes_nothing() {
    let mut executor = Executor::new(1);
    executor.wake(Waker { task: 0 });
    executor.wake(Waker { task: 9 });
    assert_eq!(executor.state(0), TaskState::Vacant);
    assert_eq!(executor.next_action(), Action::Sleep);
}

#[test]
fn complete_drops_a_wakeup_that_came_during_the_poll() {
    let mut executor = Executor::new(2);
    let a = executor.spawn().unwrap();
    let b = executor.spawn().unwrap();
    executor.take_ready();
    executor.wake(a);
    executor.wake(b);
    executor.complete(a.task);
    executor.complete(7);
    assert_eq!(executor.state(a.task), TaskState::Vacant);
    assert_eq!(executor.take_ready(), vec![b.task]);
}

#[test]
fn alarm_is_programmed_with_the_earliest_deadline() {
    let mut executor = Executor::new(3);
    let a = executor.spawn().unwrap();
    let b = executor.spawn().unwrap();
    executor.spawn().unwrap();
    executor.take_ready();
    executor.sleep_until(a.task, 300);
    executor.sleep_until(b.task, 200);
    executor.sleep_until(b.task, 250);
    assert_eq!(executor.deadline(a.task), Some(300));
    assert_eq!(executor.deadline(b.task), Some(200));
    assert_eq!(executor.deadline(2), None);
    assert_eq!(executor.next_expiration(), Some(200));
    assert_eq!(executor.program_alarm(), Some(200));
    assert_eq!(executor.alarm(), Some(200));
}

#[test]
fn timer_wakes_what_is_due_and_nothing_else() {
    let mut executor = Executor::new(3);
    let a = executor.spawn().unwrap();
    let b = executor.spawn().unwrap();
    let c = executor.spawn().unwrap();
    executor.take_ready();
    executor.sleep_until(a.task, 300);
    executor.sleep_until(b.task, 200);
    executor.sleep_until(c.task, 100);
    executor.expire(99);
    assert_eq!(executor.next_action(), Action::Sleep);
    executor.expire(200);
    assert_eq!(executor.state(a.task), TaskState::Suspended);
    assert_eq!(executor.state(b.task), TaskState::Ready);
    assert_eq!(executor.state(c.task), TaskState::Ready);
    assert_eq!(executor.deadline(b.task), None);
    assert_eq!(executor.program_alarm(), Some(300));
    assert_eq!(executor.take_ready(), vec![b.task, c.task]);
    executor.expire(u64::MAX);
    assert_eq!(executor.program_alarm(), None);
    assert_eq!(executor.take_ready(), vec![a.task]);
}

#[test]
fn sleep_request_of_a_task_that_is_not_suspended_is_ignored() {
    let mut executor = Executor::new(2);
    let a = executor.spawn().unwrap();
    executor.sleep_until(a.task, 5);
    executor.sleep_until(1, 5);
    executor.sleep_until(8, 5);
    assert_eq!(executor.next_expiration(), None);
}
