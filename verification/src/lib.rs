//! A verified model of an interrupt-driven asynchronous peripheral framework.
//!
//! Every unit of work is a suspendable task. Drivers program a transfer into
//! a peripheral's registers, leave a waker behind and suspend; the interrupt
//! handler wakes the task again; the scheduler polls what is ready. All of it
//! is written over plain values, so that each step is a function from the
//! state before to the state after, with a contract that says which.

pub mod chip;
pub mod executor;
pub mod gpio;
pub mod interrupt;
pub mod operation;
pub mod pac;
pub mod peripherals;
pub mod saadc;
pub mod spi;
pub mod target_constants;
pub mod uarte;
pub mod util;
