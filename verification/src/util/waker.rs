//! The single-slot store of the task to resume.
//!
//! A driver writes the slot from task context; the interrupt handler empties
//! it. Each of the two steps is one indivisible exchange, so the slot is
//! modelled as a plain optional handle.

use crate::executor::{Executor, ExecutorView, Waker};
use vstd::prelude::*;

verus! {

/// What a registration leaves in the slot: the new handle, whatever was there.
pub open spec fn registered(slot: Option<Waker>, waker: Waker) -> Option<Waker> {
    Some(waker)
}

/// What a wake leaves behind: an empty slot, and a scheduler on which the
/// handle that was in the slot, if any, has been invoked once.
pub open spec fn woken(slot: Option<Waker>, executor: ExecutorView) -> (
    Option<Waker>,
    ExecutorView,
) {
    (None, executor.wake_opt(slot))
}

pub struct AtomicWaker {
    waker: Option<Waker>,
}

impl View for AtomicWaker {
    type V = Option<Waker>;

    closed spec fn view(&self) -> Option<Waker> {
        self.waker
    }
}

impl AtomicWaker {
    /// An empty slot.
    pub fn new() -> (slot: AtomicWaker)
        ensures
            slot@ is None,
    {
        AtomicWaker { waker: None }
    }

    /// Stores `waker`, overwriting any handle registered before.
    pub fn register(&mut self, waker: &Waker)
        ensures
            final(self)@ == registered(old(self)@, *waker),
    {
        self.waker = Some(*waker);
    }

    /// Takes the handle out of the slot and invokes it; does nothing on an
    /// empty slot.
    pub fn wake(&mut self, executor: &mut Executor)
        requires
            old(executor).wf(),
        ensures
            final(executor).wf(),
            (final(self)@, final(executor)@) == woken(old(self)@, old(executor)@),
    {
        match self.waker.take() {
            Some(waker) => executor.wake(waker),
            None => {},
        }
    }
}

/// A registered handle is invoked by the next wake, and by that one alone: a
/// second wake finds the slot empty and changes nothing.
pub proof fn law_register_then_wake(slot: Option<Waker>, waker: Waker, executor: ExecutorView)
    ensures
        woken(registered(slot, waker), executor) == (None::<Waker>, executor.wake(waker.task)),
        woken(woken(registered(slot, waker), executor).0, executor.wake(waker.task)) == (
            None::<Waker>,
            executor.wake(waker.task),
        ),
{
}

/// A wake on an empty slot is a no-op.
pub proof fn law_wake_empty(executor: ExecutorView)
    ensures
        woken(None, executor) == (None::<Waker>, executor),
{
}

/// Of two registrations in a row only the second is woken: the task of the
/// first, if it is another one, stays as it was.
pub proof fn law_last_registration_wins(
    slot: Option<Waker>,
    first: Waker,
    second: Waker,
    executor: ExecutorView,
)
    ensures
        woken(registered(registered(slot, first), second), executor).1 == executor.wake(
            second.task,
        ),
        first.task != second.task ==> executor.wake(second.task).state_of(first.task)
            == executor.state_of(first.task),
{
}

} // verus!
