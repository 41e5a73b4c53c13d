//! Limits of the target chip.

use vstd::prelude::*;

verus! {

/// The longest buffer that one transfer by direct memory access can move.
pub const EASY_DMA_SIZE: usize = 65535;

} // verus!
