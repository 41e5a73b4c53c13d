//! Interrupt lines: the capability to set a handler and to enable, disable
//! and unpend one line of the interrupt controller.

use crate::executor::{Executor, Waker};
use crate::util::Unborrow;
use vstd::prelude::*;

verus! {

/// The lines that the drivers of this crate use.
#[derive(Clone, Copy, Debug, PartialEq, Eq, Structural)]
#[allow(non_camel_case_types)]
pub enum Irq {
    UARTE0_UART0,
    UARTE1,
    SAADC,
}

/// What runs when a line fires.
#[derive(Clone, Copy, Debug, PartialEq, Eq, Structural)]
pub enum Handler {
    /// The UART driver's handler.
    Uarte,
    /// A handler that disables its line and wakes one task.
    Wake(Waker),
}

/// The state of one line in the interrupt controller.
#[derive(Clone, Copy, Debug, PartialEq, Eq, Structural)]
pub struct Line {
    pub handler: Option<Handler>,
    pub enabled: bool,
    pub pending: bool,
}

impl Line {
    /// The line after `wake_on_interrupt`: enabled, with a handler that wakes
    /// `waker`.
    pub open spec fn waking(self, waker: Waker) -> Line {
        Line { handler: Some(Handler::Wake(waker)), enabled: true, pending: self.pending }
    }

    /// Whether the controller runs the handler now.
    pub open spec fn fires(self) -> bool {
        self.enabled && self.pending && self.handler is Some
    }
}

/// The capability for one interrupt line.
pub struct Interrupt {
    irq: Irq,
    line: Line,
}

impl Interrupt {
    pub closed spec fn irq(&self) -> Irq {
        self.irq
    }

    pub closed spec fn line(&self) -> Line {
        self.line
    }

    /// The capability for line `irq`, as it is after reset: disabled, not
    /// pending, without a handler.
    pub fn take(irq: Irq) -> (interrupt: Interrupt)
        ensures
            interrupt.irq() == irq,
            interrupt.line() == (Line { handler: None, enabled: false, pending: false }),
    {
        Interrupt { irq, line: Line { handler: None, enabled: false, pending: false } }
    }

    pub fn number(&self) -> (irq: Irq)
        ensures
            irq == self.irq(),
    {
        self.irq
    }

    /// The line's state in the controller.
    pub fn state(&self) -> (line: Line)
        ensures
            line == self.line(),
    {
        self.line
    }

    pub fn set_handler(&mut self, handler: Handler)
        ensures
            final(self).irq() == old(self).irq(),
            final(self).line() == (Line { handler: Some(handler), ..old(self).line() }),
    {
        self.line.handler = Some(handler);
    }

    pub fn enable(&mut self)
        ensures
            final(self).irq() == old(self).irq(),
            final(self).line() == (Line { enabled: true, ..old(self).line() }),
    {
        self.line.enabled = true;
    }

    pub fn disable(&mut self)
        ensures
            final(self).irq() == old(self).irq(),
            final(self).line() == (Line { enabled: false, ..old(self).line() }),
    {
        self.line.enabled = false;
    }

    /// Marks the line pending, as the peripheral does when it raises an event
    /// whose interrupt is enabled.
    pub fn pend(&mut self)
        ensures
            final(self).irq() == old(self).irq(),
            final(self).line() == (Line { pending: true, ..old(self).line() }),
    {
        self.line.pending = true;
    }

    pub fn unpend(&mut self)
        ensures
            final(self).irq() == old(self).irq(),
            final(self).line() == (Line { pending: false, ..old(self).line() }),
    {
        self.line.pending = false;
    }

    /// Whether the controller runs the handler now.
    pub fn fires(&self) -> (fires: bool)
        ensures
            fires == self.line().fires(),
    {
        self.line.enabled && self.line.pending && self.line.handler.is_some()
    }
}

impl Unborrow for Interrupt {
    type Target = Interrupt;

    open spec fn unborrowed(self) -> Interrupt {
        self
    }

    fn unborrow(self) -> (target: Interrupt) {
        self
    }
}

/// Arranges for the next firing of `interrupt` to wake `waker`.
pub fn wake_on_interrupt(interrupt: &mut Interrupt, waker: &Waker)
    ensures
        final(interrupt).irq() == old(interrupt).irq(),
        final(interrupt).line() == old(interrupt).line().waking(*waker),
{
    interrupt.disable();
    interrupt.set_handler(Handler::Wake(*waker));
    interrupt.enable();
}

/// The handler that `wake_on_interrupt` installs: it serves the line,
/// disables it, so that it does not fire again before the task has looked at
/// the event, and wakes the task.
pub fn irq_wake_handler(interrupt: &mut Interrupt, executor: &mut Executor)
    requires
        old(executor).wf(),
        old(interrupt).line().handler matches Some(Handler::Wake(_)),
    ensures
        final(interrupt).irq() == old(interrupt).irq(),
        final(interrupt).line() == (Line {
            enabled: false,
            pending: false,
            ..old(interrupt).line()
        }),
        final(executor).wf(),
        old(interrupt).line().handler matches Some(Handler::Wake(waker)) && final(executor)@
            == old(executor)@.wake(waker.task),
{
    interrupt.unpend();
    interrupt.disable();
    match interrupt.state().handler {
        Some(Handler::Wake(waker)) => executor.wake(waker),
        _ => {},
    }
}

} // verus!
