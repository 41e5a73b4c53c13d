//! What a UART instance gives its driver, and nobody else.

use crate::pac::uarte0::{RegisterBlock, Registers};
use crate::util::waker::AtomicWaker;
use vstd::prelude::*;

verus! {

/// The state that a driver shares with its interrupt handler.
pub struct State {
    pub endrx_waker: AtomicWaker,
    pub endtx_waker: AtomicWaker,
}

impl State {
    /// Two empty waker slots.
    pub fn new() -> (state: State)
        ensures
            state.endrx_waker@ is None,
            state.endtx_waker@ is None,
    {
        State { endrx_waker: AtomicWaker::new(), endtx_waker: AtomicWaker::new() }
    }
}

/// Resolves a capability to the instance's registers and shared state.
pub trait Instance {
    /// The register block of the instance, as it is before a driver has
    /// touched it.
    fn regs() -> (regs: RegisterBlock)
        ensures
            regs@ == Registers::reset(),
    ;

    /// The state that the driver and the handler of the instance share.
    fn state() -> (state: State)
        ensures
            state.endrx_waker@ is None,
            state.endtx_waker@ is None,
    ;
}

} // verus!
