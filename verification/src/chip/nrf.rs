//! The clock sources that the start-up code of an nRF chip can be told to
//! use.

use vstd::prelude::*;

verus! {

/// The source of the high-frequency clock.
#[derive(Clone, Copy, Debug, PartialEq, Eq, Structural)]
pub enum HfclkSource {
    Internal,
    ExternalXtal,
}

/// The source of the low-frequency clock.
#[derive(Clone, Copy, Debug, PartialEq, Eq, Structural)]
pub enum LfclkSource {
    InternalRC,
    Synthesized,
    ExternalXtal,
    ExternalLowSwing,
    ExternalFullSwing,
}

/// The arguments of the start-up code.
#[derive(Debug)]
pub struct Args {
    /// The path under which the framework's crates are found; empty for the
    /// crate root.
    pub embassy_prefix: String,
    pub hfclk_source: HfclkSource,
    pub lfclk_source: LfclkSource,
}

impl HfclkSource {
    /// The name of the source, as the start-up code spells it.
    pub open spec fn ident(self) -> Seq<char> {
        match self {
            HfclkSource::Internal => "Internal"@,
            HfclkSource::ExternalXtal => "ExternalXtal"@,
        }
    }

    /// The name of the source, as the start-up code spells it.
    pub fn name(&self) -> (name: &'static str)
        ensures
            name@ == self.ident(),
    {
        match self {
            HfclkSource::Internal => "Internal",
            HfclkSource::ExternalXtal => "ExternalXtal",
        }
    }
}

impl LfclkSource {
    /// The name of the source, as the start-up code spells it.
    pub open spec fn ident(self) -> Seq<char> {
        match self {
            LfclkSource::InternalRC => "InternalRC"@,
            LfclkSource::Synthesized => "Synthesized"@,
            LfclkSource::ExternalXtal => "ExternalXtal"@,
            LfclkSource::ExternalLowSwing => "ExternalLowSwing"@,
            LfclkSource::ExternalFullSwing => "ExternalFullSwing"@,
        }
    }

    /// The name of the source, as the start-up code spells it.
    pub fn name(&self) -> (name: &'static str)
        ensures
            name@ == self.ident(),
    {
        match self {
            LfclkSource::InternalRC => "InternalRC",
            LfclkSource::Synthesized => "Synthesized",
            LfclkSource::ExternalXtal => "ExternalXtal",
            LfclkSource::ExternalLowSwing => "ExternalLowSwing",
            LfclkSource::ExternalFullSwing => "ExternalFullSwing",
        }
    }
}

impl Default for HfclkSource {
    fn default() -> (source: HfclkSource)
        ensures
            source == HfclkSource::Internal,
    {
        HfclkSource::Internal
    }
}

impl Default for LfclkSource {
    fn default() -> (source: LfclkSource)
        ensures
            source == LfclkSource::InternalRC,
    {
        LfclkSource::InternalRC
    }
}

impl Default for Args {
    /// No prefix, and both clocks from their internal sources.
    fn default() -> (args: Args)
        ensures
            args.embassy_prefix@.len() == 0,
            args.hfclk_source == HfclkSource::Internal,
            args.lfclk_source == LfclkSource::InternalRC,
    {
        Args {
            embassy_prefix: String::new(),
            hfclk_source: HfclkSource::Internal,
            lfclk_source: LfclkSource::InternalRC,
        }
    }
}

} // verus!
