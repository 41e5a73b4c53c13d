//! The register block of the analog-to-digital converter.

use crate::pac::{ordering_point, Fence};
use vstd::prelude::*;

verus! {

/// Output resolution in bits.
#[derive(Clone, Copy, Debug, PartialEq, Eq, Structural)]
#[allow(non_camel_case_types)]
pub enum Resolution {
    _8BIT,
    _10BIT,
    _12BIT,
    _14BIT,
}

/// How many input samples are averaged into one result.
#[derive(Clone, Copy, Debug, PartialEq, Eq, Structural)]
#[allow(non_camel_case_types)]
pub enum Oversample {
    BYPASS,
    OVER2X,
    OVER4X,
    OVER8X,
    OVER16X,
    OVER32X,
    OVER64X,
    OVER128X,
    OVER256X,
}

/// Reference voltage of the input.
#[derive(Clone, Copy, Debug, PartialEq, Eq, Structural)]
#[allow(non_camel_case_types)]
pub enum Reference {
    INTERNAL,
    VDD1_4,
}

/// Gain of the input stage.
#[derive(Clone, Copy, Debug, PartialEq, Eq, Structural)]
#[allow(non_camel_case_types)]
pub enum Gain {
    GAIN1_6,
    GAIN1_5,
    GAIN1_4,
    GAIN1_3,
    GAIN1_2,
    GAIN1,
    GAIN2,
    GAIN4,
}

/// Resistor on an input.
#[derive(Clone, Copy, Debug, PartialEq, Eq, Structural)]
#[allow(non_camel_case_types)]
pub enum Resistor {
    BYPASS,
    PULLDOWN,
    PULLUP,
    VDD1_2,
}

/// Acquisition time.
#[derive(Clone, Copy, Debug, PartialEq, Eq, Structural)]
#[allow(non_camel_case_types)]
pub enum Time {
    _3US,
    _5US,
    _10US,
    _15US,
    _20US,
    _40US,
}

/// What the positive input of a channel is connected to.
#[derive(Clone, Copy, Debug, PartialEq, Eq, Structural)]
#[allow(non_camel_case_types)]
pub enum PositiveChannel {
    NC,
    ANALOGINPUT0,
    ANALOGINPUT1,
    ANALOGINPUT2,
    ANALOGINPUT3,
    ANALOGINPUT4,
    ANALOGINPUT5,
    ANALOGINPUT6,
    ANALOGINPUT7,
    VDD,
}

/// The events that the converter raises.
#[derive(Clone, Copy, Debug, PartialEq, Eq, Structural)]
pub enum Event {
    /// The result buffer is full.
    End,
    /// The converter has stopped.
    Stopped,
}

/// The tasks that software triggers.
#[derive(Clone, Copy, Debug, PartialEq, Eq, Structural)]
pub enum Task {
    Start,
    Sample,
    Stop,
}

/// The configuration of the first channel, in single-ended mode with the
/// negative input's resistor bypassed.
#[derive(Clone, Copy, Debug, PartialEq, Eq, Structural)]
pub struct ChannelConfig {
    pub reference: Reference,
    pub gain: Gain,
    pub time: Time,
    pub resistor: Resistor,
    /// Whether one sample task takes all the samples of an oversampled
    /// result.
    pub burst: bool,
}

/// One access of software to the register block.
#[derive(Clone, Copy, Debug, PartialEq, Eq, Structural)]
pub enum Access {
    Enable(bool),
    SetResolution(Resolution),
    SetOversample(Oversample),
    ConfigureChannel(ChannelConfig),
    SelectPositive(PositiveChannel),
    /// Disables the interrupt of every event.
    DisableAllInterrupts,
    /// Writes the address of the result buffer and its length in samples.
    SetDescriptor(u32, u32),
    ClearEvent(Event),
    EnableInterrupt(Event),
    DisableInterrupt(Event),
    TriggerTask(Task),
    Fence(Fence),
}

/// One bit for each event.
#[derive(Clone, Copy, Debug, PartialEq, Eq, Structural)]
pub struct Flags {
    pub end: bool,
    pub stopped: bool,
}

/// What the registers hold, and the sample in the result buffer.
#[derive(Clone, Copy, Debug, PartialEq, Eq, Structural)]
pub struct Bits {
    pub enabled: bool,
    pub resolution: Resolution,
    pub oversample: Oversample,
    pub channel: ChannelConfig,
    pub positive: PositiveChannel,
    pub inten: Flags,
    pub events: Flags,
    pub result_ptr: u32,
    pub result_maxcnt: u32,
    /// What the converter last wrote into the result buffer.
    pub sample: i16,
}

impl Flags {
    pub open spec fn none() -> Flags {
        Flags { end: false, stopped: false }
    }

    pub open spec fn get(self, event: Event) -> bool {
        match event {
            Event::End => self.end,
            Event::Stopped => self.stopped,
        }
    }

    pub open spec fn with(self, event: Event, value: bool) -> Flags {
        match event {
            Event::End => Flags { end: value, ..self },
            Event::Stopped => Flags { stopped: value, ..self },
        }
    }

    /// Whether some bit is set here and in `other`.
    pub open spec fn meets(self, other: Flags) -> bool {
        (self.end && other.end) || (self.stopped && other.stopped)
    }

    fn read(&self, event: Event) -> (value: bool)
        ensures
            value == self.get(event),
    {
        match event {
            Event::End => self.end,
            Event::Stopped => self.stopped,
        }
    }

    fn set(&mut self, event: Event, value: bool)
        ensures
            *final(self) == old(self).with(event, value),
    {
        match event {
            Event::End => self.end = value,
            Event::Stopped => self.stopped = value,
        }
    }
}

impl Bits {
    /// The registers after reset.
    pub open spec fn reset() -> Bits {
        Bits {
            enabled: false,
            resolution: Resolution::_10BIT,
            oversample: Oversample::BYPASS,
            channel: ChannelConfig {
                reference: Reference::INTERNAL,
                gain: Gain::GAIN1_6,
                time: Time::_10US,
                resistor: Resistor::BYPASS,
                burst: false,
            },
            positive: PositiveChannel::NC,
            inten: Flags::none(),
            events: Flags::none(),
            result_ptr: 0,
            result_maxcnt: 0,
            sample: 0,
        }
    }

    /// What the registers hold after one access.
    pub open spec fn after(self, access: Access) -> Bits {
        match access {
            Access::Enable(on) => Bits { enabled: on, ..self },
            Access::SetResolution(resolution) => Bits { resolution, ..self },
            Access::SetOversample(oversample) => Bits { oversample, ..self },
            Access::ConfigureChannel(channel) => Bits { channel, ..self },
            Access::SelectPositive(positive) => Bits { positive, ..self },
            Access::DisableAllInterrupts => Bits { inten: Flags::none(), ..self },
            Access::SetDescriptor(ptr, maxcnt) => Bits {
                result_ptr: ptr,
                result_maxcnt: maxcnt,
                ..self
            },
            Access::ClearEvent(event) => Bits { events: self.events.with(event, false), ..self },
            Access::EnableInterrupt(event) => Bits {
                inten: self.inten.with(event, true),
                ..self
            },
            Access::DisableInterrupt(event) => Bits {
                inten: self.inten.with(event, false),
                ..self
            },
            Access::TriggerTask(_) => self,
            Access::Fence(_) => self,
        }
    }
}

/// The mathematical model of a [`RegisterBlock`].
pub struct Registers {
    pub bits: Bits,
    /// Every access that software made, the first one first.
    pub journal: Seq<Access>,
}

impl Registers {
    /// A register block after reset, on which nothing has been done.
    pub open spec fn reset() -> Registers {
        Registers { bits: Bits::reset(), journal: Seq::empty() }
    }

    /// The registers after software made `access`.
    pub open spec fn written(self, access: Access) -> Registers {
        Registers { bits: self.bits.after(access), journal: self.journal.push(access) }
    }

    /// The registers after the converter raised `event`.
    pub open spec fn raised(self, event: Event) -> Registers {
        Registers { bits: Bits { events: self.bits.events.with(event, true), ..self.bits }, ..self }
    }

    /// The registers after the converter wrote `sample` into the result
    /// buffer and raised the end event.
    pub open spec fn delivered(self, sample: i16) -> Registers {
        Registers {
            bits: Bits { events: self.bits.events.with(Event::End, true), sample, ..self.bits },
            ..self
        }
    }

    pub open spec fn event(self, event: Event) -> bool {
        self.bits.events.get(event)
    }

    /// Whether the converter asserts its interrupt line.
    pub open spec fn interrupt_asserted(self) -> bool {
        self.bits.events.meets(self.bits.inten)
    }
}

/// How often `access` stands in `journal`.
pub open spec fn occurrences(journal: Seq<Access>, access: Access) -> nat
    decreases journal.len(),
{
    if journal.len() == 0 {
        0
    } else {
        occurrences(journal.drop_last(), access) + if journal.last() == access {
            1nat
        } else {
            0nat
        }
    }
}

/// One more access adds one occurrence of itself and none of any other.
pub proof fn lemma_occurrences_push(journal: Seq<Access>, pushed: Access, access: Access)
    ensures
        occurrences(journal.push(pushed), access) == occurrences(journal, access) + if pushed
            == access {
            1nat
        } else {
            0nat
        },
{
    assert(journal.push(pushed).drop_last() =~= journal);
}

pub struct RegisterBlock {
    bits: Bits,
    journal: Vec<Access>,
}

impl View for RegisterBlock {
    type V = Registers;

    closed spec fn view(&self) -> Registers {
        Registers { bits: self.bits, journal: self.journal@ }
    }
}

impl RegisterBlock {
    /// The register block of the converter after reset.
    pub fn reset() -> (regs: RegisterBlock)
        ensures
            regs@ == Registers::reset(),
    {
        RegisterBlock {
            bits: Bits {
                enabled: false,
                resolution: Resolution::_10BIT,
                oversample: Oversample::BYPASS,
                channel: ChannelConfig {
                    reference: Reference::INTERNAL,
                    gain: Gain::GAIN1_6,
                    time: Time::_10US,
                    resistor: Resistor::BYPASS,
                    burst: false,
                },
                positive: PositiveChannel::NC,
                inten: Flags { end: false, stopped: false },
                events: Flags { end: false, stopped: false },
                result_ptr: 0,
                result_maxcnt: 0,
                sample: 0,
            },
            journal: Vec::new(),
        }
    }

    /// Makes one access and notes it in the journal.
    pub fn write(&mut self, access: Access)
        ensures
            final(self)@ == old(self)@.written(access),
    {
        match access {
            Access::Enable(on) => self.bits.enabled = on,
            Access::SetResolution(resolution) => self.bits.resolution = resolution,
            Access::SetOversample(oversample) => self.bits.oversample = oversample,
            Access::ConfigureChannel(channel) => self.bits.channel = channel,
            Access::SelectPositive(positive) => self.bits.positive = positive,
            Access::DisableAllInterrupts => self.bits.inten = Flags { end: false, stopped: false },
            Access::SetDescriptor(ptr, maxcnt) => {
                self.bits.result_ptr = ptr;
                self.bits.result_maxcnt = maxcnt;
            },
            Access::ClearEvent(event) => self.bits.events.set(event, false),
            Access::EnableInterrupt(event) => self.bits.inten.set(event, true),
            Access::DisableInterrupt(event) => self.bits.inten.set(event, false),
            Access::TriggerTask(_) => {},
            Access::Fence(_) => ordering_point(),
        }
        self.journal.push(access);
    }

    pub fn read_event(&self, event: Event) -> (raised: bool)
        ensures
            raised == self@.event(event),
    {
        self.bits.events.read(event)
    }

    /// What the registers hold now.
    pub fn bits(&self) -> (bits: Bits)
        ensures
            bits == self@.bits,
    {
        self.bits
    }

    /// The accesses made so far, the first one first.
    pub fn journal(&self) -> (journal: &Vec<Access>)
        ensures
            journal@ == self@.journal,
    {
        &self.journal
    }

    /// Hands out the journal and starts a new one; the bits stay.
    pub fn take_journal(&mut self) -> (journal: Vec<Access>)
        ensures
            journal@ == old(self)@.journal,
            final(self)@ == (Registers { bits: old(self)@.bits, journal: Seq::empty() }),
    {
        let mut journal: Vec<Access> = Vec::new();
        core::mem::swap(&mut self.journal, &mut journal);
        journal
    }

    /// Whether the converter asserts its interrupt line.
    pub fn interrupt_asserted(&self) -> (asserted: bool)
        ensures
            asserted == self@.interrupt_asserted(),
    {
        (self.bits.events.end && self.bits.inten.end) || (self.bits.events.stopped
            && self.bits.inten.stopped)
    }

    /// The converter's side: raises `event`.
    pub fn raise_event(&mut self, event: Event)
        ensures
            final(self)@ == old(self)@.raised(event),
    {
        self.bits.events.set(event, true);
    }

    /// The converter's side: writes `sample` into the result buffer and
    /// raises the end event.
    pub fn deliver(&mut self, sample: i16)
        ensures
            final(self)@ == old(self)@.delivered(sample),
    {
        self.bits.sample = sample;
        self.bits.events.set(Event::End, true);
    }
}

} // verus!
