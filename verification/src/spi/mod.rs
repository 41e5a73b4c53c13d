//! The serial peripheral interface: its settings, its faults, and the traits
//! that tie pins to instances.

pub(crate) mod sealed;

use vstd::prelude::*;

verus! {

/// The faults that the peripheral reports of a transfer. A driver hands the
/// fault to its caller as the outcome of the transfer and does not try
/// again.
#[derive(Clone, Copy, Debug, PartialEq, Eq, Structural)]
pub enum Error {
    Framing,
    Crc,
    ModeFault,
    Overrun,
}

/// Which bit of a word goes over the line first.
#[derive(Clone, Copy, Debug, PartialEq, Eq, Structural)]
pub enum ByteOrder {
    LsbFirst,
    MsbFirst,
}

/// The level of the clock line while nothing is sent.
#[derive(Clone, Copy, Debug, PartialEq, Eq, Structural)]
pub enum Polarity {
    IdleLow,
    IdleHigh,
}

/// The clock edge on which data is captured.
#[derive(Clone, Copy, Debug, PartialEq, Eq, Structural)]
pub enum Phase {
    CaptureOnFirstTransition,
    CaptureOnSecondTransition,
}

/// Clock polarity and phase together.
#[derive(Clone, Copy, Debug, PartialEq, Eq, Structural)]
pub struct Mode {
    pub polarity: Polarity,
    pub phase: Phase,
}

impl Mode {
    /// Mode 0: the clock idles low and data is captured on the first edge.
    pub open spec fn zero() -> Mode {
        Mode { polarity: Polarity::IdleLow, phase: Phase::CaptureOnFirstTransition }
    }

    /// Mode 0: the clock idles low and data is captured on the first edge.
    pub fn mode_0() -> (mode: Mode)
        ensures
            mode == Mode::zero(),
    {
        Mode { polarity: Polarity::IdleLow, phase: Phase::CaptureOnFirstTransition }
    }
}

/// Settings of an SPI instance.
#[non_exhaustive]
pub struct Config {
    pub mode: Mode,
    pub byte_order: ByteOrder,
}

impl Default for Config {
    /// Mode 0, the most significant bit first.
    fn default() -> (config: Config)
        ensures
            config.mode == Mode::zero(),
            config.byte_order == ByteOrder::MsbFirst,
    {
        Config { mode: Mode::mode_0(), byte_order: ByteOrder::MsbFirst }
    }
}

/// An SPI instance.
pub trait Instance: sealed::Instance {

}

/// A pin that can carry the clock of instance `T`.
pub trait SckPin<T: Instance>: sealed::SckPin<T> {

}

/// A pin that can carry the data that instance `T` sends.
pub trait MosiPin<T: Instance>: sealed::MosiPin<T> {

}

/// A pin that can carry the data that instance `T` receives.
pub trait MisoPin<T: Instance>: sealed::MisoPin<T> {

}

} // verus!
