//! The single-slot mailbox between one producer and one waiting consumer.

use crate::executor::{Executor, ExecutorView, Poll, Waker};
use vstd::prelude::*;

verus! {

/// The states of the mailbox.
pub enum Mailbox<T> {
    /// No value, nobody waiting.
    Empty,
    /// No value; the consumer is suspended and left this handle.
    Waiting(Waker),
    /// A value that has not been read.
    Filled(T),
}

impl<T> Mailbox<T> {
    /// The consumer that a signal has to wake.
    pub open spec fn waiter(self) -> Option<Waker> {
        match self {
            Mailbox::Waiting(waker) => Some(waker),
            _ => None,
        }
    }

    /// Only one consumer may wait: a poll with `waker` is in order unless
    /// another handle already waits.
    pub open spec fn admits(self, waker: Waker) -> bool {
        self matches Mailbox::Waiting(present) ==> present == waker
    }

    /// The mailbox after `signal(value)`.
    pub open spec fn signal(self, value: T) -> Mailbox<T> {
        Mailbox::Filled(value)
    }

    /// The mailbox after a poll with `waker`, and what the poll answers.
    pub open spec fn poll_wait(self, waker: Waker) -> (Mailbox<T>, Option<T>) {
        match self {
            Mailbox::Filled(value) => (Mailbox::Empty, Some(value)),
            _ => (Mailbox::Waiting(waker), None),
        }
    }
}

pub struct Signal<T> {
    state: Mailbox<T>,
}

impl<T> View for Signal<T> {
    type V = Mailbox<T>;

    closed spec fn view(&self) -> Mailbox<T> {
        self.state
    }
}

impl<T> Signal<T> {
    /// An empty mailbox.
    pub fn new() -> (signal: Signal<T>)
        ensures
            signal@ == Mailbox::<T>::Empty,
    {
        Signal { state: Mailbox::Empty }
    }

    /// Puts `value` into the mailbox, over any value that was not read, and
    /// wakes the consumer if one waits.
    pub fn signal(&mut self, value: T, executor: &mut Executor)
        requires
            old(executor).wf(),
        ensures
            final(self)@ == old(self)@.signal(value),
            final(executor).wf(),
            final(executor)@ == old(executor)@.wake_opt(old(self)@.waiter()),
    {
        let mut state = Mailbox::Filled(value);
        core::mem::swap(&mut self.state, &mut state);
        match state {
            Mailbox::Waiting(waker) => executor.wake(waker),
            _ => {},
        }
    }

    /// One poll of `wait()`: takes the value if there is one, and else leaves
    /// `waker` behind for the next signal.
    pub fn poll_wait(&mut self, waker: &Waker) -> (poll: Poll<T>)
        requires
            old(self)@.admits(*waker),
        ensures
            final(self)@ == old(self)@.poll_wait(*waker).0,
            match poll {
                Poll::Ready(value) => old(self)@.poll_wait(*waker).1 == Some(value),
                Poll::Pending => old(self)@.poll_wait(*waker).1 is None,
            },
    {
        let mut state = Mailbox::Empty;
        core::mem::swap(&mut self.state, &mut state);
        match state {
            Mailbox::Filled(value) => Poll::Ready(value),
            _ => {
                self.state = Mailbox::Waiting(*waker);
                Poll::Pending
            },
        }
    }

    /// Whether a value waits to be read.
    pub fn signaled(&self) -> (filled: bool)
        ensures
            filled == (self@ is Filled),
    {
        match &self.state {
            Mailbox::Filled(_) => true,
            _ => false,
        }
    }

    /// Empties the mailbox and forgets any waiting consumer.
    pub fn reset(&mut self)
        ensures
            final(self)@ == Mailbox::<T>::Empty,
    {
        self.state = Mailbox::Empty;
    }
}

/// A second signal overwrites the first: the next poll yields the later value
/// and leaves the mailbox empty, so the earlier one is never seen.
pub proof fn law_signal_overwrites<T>(mailbox: Mailbox<T>, first: T, second: T, waker: Waker)
    ensures
        mailbox.signal(first).signal(second).poll_wait(waker) == (
            Mailbox::<T>::Empty,
            Some(second),
        ),
        mailbox.signal(first).signal(second).poll_wait(waker).0.poll_wait(waker).1 is None,
{
}

/// A consumer that polled an empty mailbox is woken by the next signal, and
/// its next poll yields the value signalled.
pub proof fn law_signal_wakes_waiter<T>(value: T, waker: Waker, executor: ExecutorView)
    ensures
        Mailbox::<T>::Empty.poll_wait(waker).1 is None,
        executor.wake_opt(Mailbox::<T>::Empty.poll_wait(waker).0.waiter()) == executor.wake(
            waker.task,
        ),
        Mailbox::<T>::Empty.poll_wait(waker).0.signal(value).poll_wait(waker).1 == Some(value),
{
}

} // verus!
