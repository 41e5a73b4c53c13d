//! What an SPI instance and its pins give the driver, and nobody else.

use crate::gpio::Pin;
use vstd::prelude::*;

verus! {

/// An SPI instance, as the driver knows it.
pub trait Instance {

}

/// A pin that can carry the clock of instance `T`.
pub trait SckPin<T: Instance>: Pin {
    /// The number of the alternate function that routes the clock to the
    /// pin.
    fn af_num(&self) -> u8;
}

/// A pin that can carry the data that instance `T` sends.
pub trait MosiPin<T: Instance>: Pin {
    /// The number of the alternate function that routes the signal to the
    /// pin.
    fn af_num(&self) -> u8;
}

/// A pin that can carry the data that instance `T` receives.
pub trait MisoPin<T: Instance>: Pin {
    /// The number of the alternate function that routes the signal to the
    /// pin.
    fn af_num(&self) -> u8;
}

} // verus!
