//! Primitives shared by the drivers and the scheduler, and the two traits by
//! which a capability is handed to a driver.

use vstd::prelude::*;

pub mod critical_section;
pub mod forever;
pub mod on_drop;
pub mod signal;
pub mod waker;

verus! {

/// A value that can be turned into the capability it stands for. A driver's
/// constructor takes its capabilities through this trait and keeps what
/// `unborrow` yields; the value handed in is gone after the call.
pub trait Unborrow: Sized {
    type Target;

    /// The capability that `unborrow` yields.
    spec fn unborrowed(self) -> Self::Target;

    fn unborrow(self) -> (target: Self::Target)
        ensures
            target == self.unborrowed(),
    ;
}

/// A capability that can be made out of nothing. To steal one is in order
/// only where no other live handle to the same peripheral exists: the caller
/// answers for that.
pub trait Steal: Sized {
    /// The capability in the state that `steal` yields.
    spec fn stolen() -> Self;

    fn steal() -> (capability: Self)
        ensures
            capability == Self::stolen(),
    ;
}

} // verus!
