//! The register blocks of the peripherals, as plain values.
//!
//! A register block here is what the drivers see of a peripheral: the bits
//! they read, and a journal of every access they make, in program order. The
//! peripheral's side of the registers, the events it raises and the faults it
//! reports, is set through separate methods, which leave no trace in the
//! journal.

pub mod saadc;
pub mod uarte0;

use vstd::prelude::*;

verus! {

/// The two ordering points of a transfer by direct memory access.
#[derive(Clone, Copy, Debug, PartialEq, Eq, Structural)]
pub enum Fence {
    /// What software wrote before this point is visible to the peripheral
    /// after it. Stands between programming a transfer and starting it.
    WritesVisibleToHardware,
    /// What the peripheral wrote before this point is visible to software
    /// after it. Stands between seeing a transfer complete and reading its
    /// data.
    HardwareWritesVisible,
}

/// Keeps the compiler from moving memory accesses across this point, by
/// `core::sync::atomic::compiler_fence` with sequentially consistent
/// ordering. It returns nothing, and nothing is claimed of it.
#[verifier::external_body]
pub(crate) fn ordering_point() {
    core::sync::atomic::compiler_fence(core::sync::atomic::Ordering::SeqCst);
}

} // verus!
