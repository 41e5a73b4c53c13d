//! The states that every asynchronous hardware operation goes through.

use vstd::prelude::*;

verus! {

/// The states of one operation.
#[derive(Clone, Copy, Debug, PartialEq, Eq, Structural)]
pub enum Phase {
    /// No operation has been asked for.
    Idle,
    /// Address and length are in the descriptor, the completion event is
    /// cleared and its interrupt enabled.
    DescriptorProgrammed,
    /// The peripheral has been told to start.
    Started,
    /// The completion event was seen and the outcome returned.
    Completed,
    /// The task gave the operation up; the peripheral has been told to stop
    /// and has not confirmed it yet.
    Stopping,
    /// The peripheral has confirmed the stop: the buffer is free again.
    CancelConfirmed,
}

impl Phase {
    /// Whether the peripheral may still touch the buffer of the operation.
    pub open spec fn in_flight(self) -> bool {
        self == Phase::Started || self == Phase::Stopping
    }
}

} // verus!
