//! General-purpose pins, as far as the drivers configure them.

use crate::util::Unborrow;
use vstd::prelude::*;

verus! {

/// The pin-select value of a signal that is routed to no pin.
pub const PSEL_DISCONNECTED: u32 = 0x8000_0000;

/// The configuration of one pin.
#[derive(Clone, Copy, Debug, PartialEq, Eq, Structural)]
pub struct PinConf {
    /// The pin drives its line.
    pub output: bool,
    /// The input buffer is connected to the line.
    pub input_connected: bool,
    /// The pin drives both levels with high strength.
    pub high_drive: bool,
}

/// A pin of either port, with its configuration and the level it drives.
#[derive(Clone, Copy, Debug, PartialEq, Eq, Structural)]
pub struct AnyPin {
    /// The port in bit 5, the number within the port below.
    pub pin_port: u8,
    pub conf: PinConf,
    /// The output level: high or low.
    pub high: bool,
}

/// A capability for one pin.
pub trait Pin: Sized {
    /// The port in bit 5, the number within the port below.
    spec fn number(&self) -> u8;

    fn pin_port(&self) -> (pin_port: u8)
        ensures
            pin_port == self.number(),
    ;

    /// The pin without its type: the same pin, as it is after reset.
    fn degrade(self) -> (pin: AnyPin)
        ensures
            pin == reset_pin(self.number()),
    {
        let pin_port = self.pin_port();
        AnyPin {
            pin_port,
            conf: PinConf { output: false, input_connected: false, high_drive: false },
            high: false,
        }
    }
}

/// A pin as it is after reset: an input whose buffer is disconnected.
pub open spec fn reset_pin(pin_port: u8) -> AnyPin {
    AnyPin {
        pin_port,
        conf: PinConf { output: false, input_connected: false, high_drive: false },
        high: false,
    }
}

/// A pin set up as an input with its buffer connected.
pub open spec fn as_input(pin: AnyPin) -> AnyPin {
    AnyPin {
        conf: PinConf { output: false, input_connected: true, high_drive: true },
        ..pin
    }
}

/// A pin set up as an output that idles high.
pub open spec fn as_output_high(pin: AnyPin) -> AnyPin {
    AnyPin {
        conf: PinConf { output: true, input_connected: false, high_drive: true },
        high: true,
        ..pin
    }
}

/// The pin-select value of a signal: the pin's number, or the mark of a
/// signal that is left unconnected.
pub open spec fn psel_of(pin: Option<AnyPin>) -> u32 {
    match pin {
        Some(pin) => pin.pin_port as u32,
        None => PSEL_DISCONNECTED,
    }
}

impl AnyPin {
    /// The capability for pin `pin_port`, in its state after reset.
    pub fn new(pin_port: u8) -> (pin: AnyPin)
        ensures
            pin == reset_pin(pin_port),
    {
        AnyPin {
            pin_port,
            conf: PinConf { output: false, input_connected: false, high_drive: false },
            high: false,
        }
    }

    /// The value that routes a peripheral's signal to this pin.
    pub fn psel_bits(&self) -> (bits: u32)
        ensures
            bits == psel_of(Some(*self)),
    {
        self.pin_port as u32
    }

    pub fn set_high(&mut self)
        ensures
            *final(self) == (AnyPin { high: true, ..*old(self) }),
    {
        self.high = true;
    }

    pub fn set_low(&mut self)
        ensures
            *final(self) == (AnyPin { high: false, ..*old(self) }),
    {
        self.high = false;
    }

    /// Writes the pin's configuration register.
    pub fn configure(&mut self, conf: PinConf)
        ensures
            *final(self) == (AnyPin { conf, ..*old(self) }),
    {
        self.conf = conf;
    }

    /// Sets the pin up as an input with its buffer connected.
    pub fn into_input(&mut self)
        ensures
            *final(self) == as_input(*old(self)),
    {
        self.configure(PinConf { output: false, input_connected: true, high_drive: true });
    }

    /// Drives the pin high and sets it up as an output.
    pub fn into_output_high(&mut self)
        ensures
            *final(self) == as_output_high(*old(self)),
    {
        self.set_high();
        self.configure(PinConf { output: true, input_connected: false, high_drive: true });
    }
}

/// The pin-select value of an optional signal.
pub fn psel_bits(pin: &Option<AnyPin>) -> (bits: u32)
    ensures
        bits == psel_of(*pin),
{
    match pin {
        Some(pin) => pin.psel_bits(),
        None => PSEL_DISCONNECTED,
    }
}

impl Unborrow for AnyPin {
    type Target = AnyPin;

    open spec fn unborrowed(self) -> AnyPin {
        self
    }

    fn unborrow(self) -> (target: AnyPin) {
        self
    }
}

impl Unborrow for Option<AnyPin> {
    type Target = Option<AnyPin>;

    open spec fn unborrowed(self) -> Option<AnyPin> {
        self
    }

    fn unborrow(self) -> (target: Option<AnyPin>) {
        self
    }
}

} // verus!
