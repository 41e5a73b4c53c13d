//! The register block of the UART with direct memory access.

use crate::gpio::PSEL_DISCONNECTED;
use crate::pac::{ordering_point, Fence};
use vstd::prelude::*;

verus! {

/// Whether a parity bit is sent and checked.
#[derive(Clone, Copy, Debug, PartialEq, Eq, Structural)]
pub enum Parity {
    Excluded,
    Included,
}

/// The line speeds that the peripheral offers.
#[derive(Clone, Copy, Debug, PartialEq, Eq, Structural)]
pub enum Baudrate {
    Baud1200,
    Baud2400,
    Baud4800,
    Baud9600,
    Baud14400,
    Baud19200,
    Baud28800,
    Baud31250,
    Baud38400,
    Baud56000,
    Baud57600,
    Baud76800,
    Baud115200,
    Baud230400,
    Baud250000,
    Baud460800,
    Baud921600,
    Baud1M,
}

/// The events that the peripheral raises.
#[derive(Clone, Copy, Debug, PartialEq, Eq, Structural)]
pub enum Event {
    /// The receive buffer is full, or reception was stopped.
    EndRx,
    /// The last byte of the transmit buffer was sent, or transmission was
    /// stopped.
    EndTx,
    /// The receiver has timed out after a stop.
    RxTo,
    /// The transmitter has stopped.
    TxStopped,
    /// The receiver has started.
    RxStarted,
    /// The transmitter has started.
    TxStarted,
}

/// The tasks that software triggers.
#[derive(Clone, Copy, Debug, PartialEq, Eq, Structural)]
pub enum Task {
    StartRx,
    StopRx,
    StartTx,
    StopTx,
}

/// The two transfer descriptors.
#[derive(Clone, Copy, Debug, PartialEq, Eq, Structural)]
pub enum Channel {
    Rx,
    Tx,
}

/// The four signals that are routed to pins.
#[derive(Clone, Copy, Debug, PartialEq, Eq, Structural)]
pub enum Signal {
    Rxd,
    Txd,
    Cts,
    Rts,
}

/// One access of software to the register block.
#[derive(Clone, Copy, Debug, PartialEq, Eq, Structural)]
pub enum Access {
    /// Switches the peripheral on or off.
    Enable(bool),
    /// Routes a signal to the pin with this pin-select value.
    SelectPin(Signal, u32),
    /// Sets hardware flow control and parity.
    Configure(bool, Parity),
    SetBaudrate(Baudrate),
    /// Writes the address and the length of a buffer into a descriptor.
    SetDescriptor(Channel, u32, u32),
    ClearEvent(Event),
    EnableInterrupt(Event),
    DisableInterrupt(Event),
    /// Disables the interrupt of every event.
    DisableAllInterrupts,
    TriggerTask(Task),
    /// Reads the error source register and clears what it held.
    ClearFaults,
    Fence(Fence),
}

/// One bit for each event.
#[derive(Clone, Copy, Debug, PartialEq, Eq, Structural)]
pub struct Flags {
    pub endrx: bool,
    pub endtx: bool,
    pub rxto: bool,
    pub txstopped: bool,
    pub rxstarted: bool,
    pub txstarted: bool,
}

/// The faults that the receiver reports.
#[derive(Clone, Copy, Debug, PartialEq, Eq, Structural)]
pub struct Faults {
    pub framing: bool,
    pub parity: bool,
    pub overrun: bool,
}

/// The address and the length of a buffer.
#[derive(Clone, Copy, Debug, PartialEq, Eq, Structural)]
pub struct Descriptor {
    pub ptr: u32,
    pub maxcnt: u32,
}

/// What the registers hold.
#[derive(Clone, Copy, Debug, PartialEq, Eq, Structural)]
pub struct Bits {
    pub enabled: bool,
    pub psel_rxd: u32,
    pub psel_txd: u32,
    pub psel_cts: u32,
    pub psel_rts: u32,
    pub hwfc: bool,
    pub parity: Parity,
    pub baudrate: Baudrate,
    /// The events whose interrupt is enabled.
    pub inten: Flags,
    /// The events that are raised and not cleared.
    pub events: Flags,
    pub rxd: Descriptor,
    pub txd: Descriptor,
    pub errorsrc: Faults,
}

impl Flags {
    pub open spec fn none() -> Flags {
        Flags {
            endrx: false,
            endtx: false,
            rxto: false,
            txstopped: false,
            rxstarted: false,
            txstarted: false,
        }
    }

    pub open spec fn get(self, event: Event) -> bool {
        match event {
            Event::EndRx => self.endrx,
            Event::EndTx => self.endtx,
            Event::RxTo => self.rxto,
            Event::TxStopped => self.txstopped,
            Event::RxStarted => self.rxstarted,
            Event::TxStarted => self.txstarted,
        }
    }

    pub open spec fn with(self, event: Event, value: bool) -> Flags {
        match event {
            Event::EndRx => Flags { endrx: value, ..self },
            Event::EndTx => Flags { endtx: value, ..self },
            Event::RxTo => Flags { rxto: value, ..self },
            Event::TxStopped => Flags { txstopped: value, ..self },
            Event::RxStarted => Flags { rxstarted: value, ..self },
            Event::TxStarted => Flags { txstarted: value, ..self },
        }
    }

    /// Whether some bit is set here and in `other`.
    pub open spec fn meets(self, other: Flags) -> bool {
        ||| self.endrx && other.endrx
        ||| self.endtx && other.endtx
        ||| self.rxto && other.rxto
        ||| self.txstopped && other.txstopped
        ||| self.rxstarted && other.rxstarted
        ||| self.txstarted && other.txstarted
    }

    fn read(&self, event: Event) -> (value: bool)
        ensures
            value == self.get(event),
    {
        match event {
            Event::EndRx => self.endrx,
            Event::EndTx => self.endtx,
            Event::RxTo => self.rxto,
            Event::TxStopped => self.txstopped,
            Event::RxStarted => self.rxstarted,
            Event::TxStarted => self.txstarted,
        }
    }

    fn set(&mut self, event: Event, value: bool)
        ensures
            *final(self) == old(self).with(event, value),
    {
        match event {
            Event::EndRx => self.endrx = value,
            Event::EndTx => self.endtx = value,
            Event::RxTo => self.rxto = value,
            Event::TxStopped => self.txstopped = value,
            Event::RxStarted => self.rxstarted = value,
            Event::TxStarted => self.txstarted = value,
        }
    }
}

impl Faults {
    pub open spec fn none() -> Faults {
        Faults { framing: false, parity: false, overrun: false }
    }

    pub open spec fn any(self) -> bool {
        self.framing || self.parity || self.overrun
    }

    /// The faults of `self` and of `other` together.
    pub open spec fn or(self, other: Faults) -> Faults {
        Faults {
            framing: self.framing || other.framing,
            parity: self.parity || other.parity,
            overrun: self.overrun || other.overrun,
        }
    }
}

impl Bits {
    /// The registers after reset.
    pub open spec fn reset() -> Bits {
        Bits {
            enabled: false,
            psel_rxd: PSEL_DISCONNECTED,
            psel_txd: PSEL_DISCONNECTED,
            psel_cts: PSEL_DISCONNECTED,
            psel_rts: PSEL_DISCONNECTED,
            hwfc: false,
            parity: Parity::Excluded,
            baudrate: Baudrate::Baud250000,
            inten: Flags::none(),
            events: Flags::none(),
            rxd: Descriptor { ptr: 0, maxcnt: 0 },
            txd: Descriptor { ptr: 0, maxcnt: 0 },
            errorsrc: Faults::none(),
        }
    }

    /// What the registers hold after one access.
    pub open spec fn after(self, access: Access) -> Bits {
        match access {
            Access::Enable(on) => Bits { enabled: on, ..self },
            Access::SelectPin(signal, psel) => match signal {
                Signal::Rxd => Bits { psel_rxd: psel, ..self },
                Signal::Txd => Bits { psel_txd: psel, ..self },
                Signal::Cts => Bits { psel_cts: psel, ..self },
                Signal::Rts => Bits { psel_rts: psel, ..self },
            },
            Access::Configure(hwfc, parity) => Bits { hwfc, parity, ..self },
            Access::SetBaudrate(baudrate) => Bits { baudrate, ..self },
            Access::SetDescriptor(channel, ptr, maxcnt) => match channel {
                Channel::Rx => Bits { rxd: Descriptor { ptr, maxcnt }, ..self },
                Channel::Tx => Bits { txd: Descriptor { ptr, maxcnt }, ..self },
            },
            Access::ClearEvent(event) => Bits { events: self.events.with(event, false), ..self },
            Access::EnableInterrupt(event) => Bits {
                inten: self.inten.with(event, true),
                ..self
            },
            Access::DisableInterrupt(event) => Bits {
                inten: self.inten.with(event, false),
                ..self
            },
            Access::DisableAllInterrupts => Bits { inten: Flags::none(), ..self },
            Access::TriggerTask(_) => self,
            Access::ClearFaults => Bits { errorsrc: Faults::none(), ..self },
            Access::Fence(_) => self,
        }
    }
}

/// The mathematical model of a [`RegisterBlock`].
pub struct Registers {
    pub bits: Bits,
    /// Every access that software made, the first one first.
    pub journal: Seq<Access>,
}

impl Registers {
    /// A register block after reset, on which nothing has been done.
    pub open spec fn reset() -> Registers {
        Registers { bits: Bits::reset(), journal: Seq::empty() }
    }

    /// The registers after software made `access`.
    pub open spec fn written(self, access: Access) -> Registers {
        Registers { bits: self.bits.after(access), journal: self.journal.push(access) }
    }

    /// The registers after the peripheral raised `event`.
    pub open spec fn raised(self, event: Event) -> Registers {
        Registers { bits: Bits { events: self.bits.events.with(event, true), ..self.bits }, ..self }
    }

    /// The registers after the peripheral reported `faults`.
    pub open spec fn faulted(self, faults: Faults) -> Registers {
        Registers { bits: Bits { errorsrc: self.bits.errorsrc.or(faults), ..self.bits }, ..self }
    }

    pub open spec fn event(self, event: Event) -> bool {
        self.bits.events.get(event)
    }

    /// The registers after the interrupt of `event` was disabled, if the
    /// event is raised.
    pub open spec fn silenced(self, event: Event) -> Registers {
        if self.event(event) {
            self.written(Access::DisableInterrupt(event))
        } else {
            self
        }
    }

    /// Whether the peripheral asserts its interrupt line: some event is
    /// raised whose interrupt is enabled.
    pub open spec fn interrupt_asserted(self) -> bool {
        self.bits.events.meets(self.bits.inten)
    }
}

/// How often `access` stands in `journal`.
pub open spec fn occurrences(journal: Seq<Access>, access: Access) -> nat
    decreases journal.len(),
{
    if journal.len() == 0 {
        0
    } else {
        occurrences(journal.drop_last(), access) + if journal.last() == access {
            1nat
        } else {
            0nat
        }
    }
}

/// One more access adds one occurrence of itself and none of any other.
pub proof fn lemma_occurrences_push(journal: Seq<Access>, pushed: Access, access: Access)
    ensures
        occurrences(journal.push(pushed), access) == occurrences(journal, access) + if pushed
            == access {
            1nat
        } else {
            0nat
        },
{
    assert(journal.push(pushed).drop_last() =~= journal);
}

pub struct RegisterBlock {
    bits: Bits,
    journal: Vec<Access>,
}

impl View for RegisterBlock {
    type V = Registers;

    closed spec fn view(&self) -> Registers {
        Registers { bits: self.bits, journal: self.journal@ }
    }
}

impl RegisterBlock {
    /// The register block of a peripheral after reset.
    pub fn reset() -> (regs: RegisterBlock)
        ensures
            regs@ == Registers::reset(),
    {
        let none = Flags {
            endrx: false,
            endtx: false,
            rxto: false,
            txstopped: false,
            rxstarted: false,
            txstarted: false,
        };
        RegisterBlock {
            bits: Bits {
                enabled: false,
                psel_rxd: PSEL_DISCONNECTED,
                psel_txd: PSEL_DISCONNECTED,
                psel_cts: PSEL_DISCONNECTED,
                psel_rts: PSEL_DISCONNECTED,
                hwfc: false,
                parity: Parity::Excluded,
                baudrate: Baudrate::Baud250000,
                inten: none,
                events: none,
                rxd: Descriptor { ptr: 0, maxcnt: 0 },
                txd: Descriptor { ptr: 0, maxcnt: 0 },
                errorsrc: Faults { framing: false, parity: false, overrun: false },
            },
            journal: Vec::new(),
        }
    }

    /// Makes one access and notes it in the journal.
    pub fn write(&mut self, access: Access)
        ensures
            final(self)@ == old(self)@.written(access),
    {
        match access {
            Access::Enable(on) => self.bits.enabled = on,
            Access::SelectPin(signal, psel) => match signal {
                Signal::Rxd => self.bits.psel_rxd = psel,
                Signal::Txd => self.bits.psel_txd = psel,
                Signal::Cts => self.bits.psel_cts = psel,
                Signal::Rts => self.bits.psel_rts = psel,
            },
            Access::Configure(hwfc, parity) => {
                self.bits.hwfc = hwfc;
                self.bits.parity = parity;
            },
            Access::SetBaudrate(baudrate) => self.bits.baudrate = baudrate,
            Access::SetDescriptor(channel, ptr, maxcnt) => match channel {
                Channel::Rx => self.bits.rxd = Descriptor { ptr, maxcnt },
                Channel::Tx => self.bits.txd = Descriptor { ptr, maxcnt },
            },
            Access::ClearEvent(event) => self.bits.events.set(event, false),
            Access::EnableInterrupt(event) => self.bits.inten.set(event, true),
            Access::DisableInterrupt(event) => self.bits.inten.set(event, false),
            Access::DisableAllInterrupts => {
                self.bits.inten = Flags {
                    endrx: false,
                    endtx: false,
                    rxto: false,
                    txstopped: false,
                    rxstarted: false,
                    txstarted: false,
                };
            },
            Access::TriggerTask(_) => {},
            Access::ClearFaults => {
                self.bits.errorsrc = Faults { framing: false, parity: false, overrun: false };
            },
            Access::Fence(_) => ordering_point(),
        }
        self.journal.push(access);
    }

    /// Writes the address and the length of a buffer into a descriptor.
    pub fn set_descriptor(&mut self, channel: Channel, address: u32, length: u32)
        ensures
            final(self)@ == old(self)@.written(Access::SetDescriptor(channel, address, length)),
    {
        self.write(Access::SetDescriptor(channel, address, length));
    }

    pub fn clear_event(&mut self, event: Event)
        ensures
            final(self)@ == old(self)@.written(Access::ClearEvent(event)),
    {
        self.write(Access::ClearEvent(event));
    }

    pub fn read_event(&self, event: Event) -> (raised: bool)
        ensures
            raised == self@.event(event),
    {
        self.bits.events.read(event)
    }

    pub fn enable_interrupt(&mut self, event: Event)
        ensures
            final(self)@ == old(self)@.written(Access::EnableInterrupt(event)),
    {
        self.write(Access::EnableInterrupt(event));
    }

    pub fn disable_interrupt(&mut self, event: Event)
        ensures
            final(self)@ == old(self)@.written(Access::DisableInterrupt(event)),
    {
        self.write(Access::DisableInterrupt(event));
    }

    /// Disables the interrupt of `event` if the event is raised, and says
    /// whether it is.
    pub fn silence(&mut self, event: Event) -> (raised: bool)
        ensures
            raised == old(self)@.event(event),
            final(self)@ == old(self)@.silenced(event),
    {
        let raised = self.read_event(event);
        if raised {
            self.disable_interrupt(event);
        }
        raised
    }

    pub fn trigger_task(&mut self, task: Task)
        ensures
            final(self)@ == old(self)@.written(Access::TriggerTask(task)),
    {
        self.write(Access::TriggerTask(task));
    }

    /// One of the two ordering points of a transfer.
    pub fn fence(&mut self, fence: Fence)
        ensures
            final(self)@ == old(self)@.written(Access::Fence(fence)),
    {
        self.write(Access::Fence(fence));
    }

    /// Reads the faults that the receiver has reported and clears them.
    pub fn take_faults(&mut self) -> (faults: Faults)
        ensures
            faults == old(self)@.bits.errorsrc,
            final(self)@ == old(self)@.written(Access::ClearFaults),
    {
        let faults = self.bits.errorsrc;
        self.write(Access::ClearFaults);
        faults
    }

    /// What the registers hold now.
    pub fn bits(&self) -> (bits: Bits)
        ensures
            bits == self@.bits,
    {
        self.bits
    }

    /// The accesses made so far, the first one first.
    pub fn journal(&self) -> (journal: &Vec<Access>)
        ensures
            journal@ == self@.journal,
    {
        &self.journal
    }

    /// Hands out the journal and starts a new one; the bits stay.
    pub fn take_journal(&mut self) -> (journal: Vec<Access>)
        ensures
            journal@ == old(self)@.journal,
            final(self)@ == (Registers { bits: old(self)@.bits, journal: Seq::empty() }),
    {
        let mut journal: Vec<Access> = Vec::new();
        core::mem::swap(&mut self.journal, &mut journal);
        journal
    }

    /// Whether the peripheral asserts its interrupt line.
    pub fn interrupt_asserted(&self) -> (asserted: bool)
        ensures
            asserted == self@.interrupt_asserted(),
    {
        let e = &self.bits.events;
        let i = &self.bits.inten;
        let asserted = (e.endrx && i.endrx) || (e.endtx && i.endtx) || (e.rxto && i.rxto) || (
        e.txstopped && i.txstopped) || (e.rxstarted && i.rxstarted) || (e.txstarted
            && i.txstarted);
        asserted
    }

    /// The peripheral's side: raises `event`.
    pub fn raise_event(&mut self, event: Event)
        ensures
            final(self)@ == old(self)@.raised(event),
    {
        self.bits.events.set(event, true);
    }

    /// The peripheral's side: reports `faults`, on top of those that were
    /// reported and not read yet.
    pub fn report_faults(&mut self, faults: Faults)
        ensures
            final(self)@ == old(self)@.faulted(faults),
    {
        let present = self.bits.errorsrc;
        self.bits.errorsrc = Faults {
            framing: present.framing || faults.framing,
            parity: present.parity || faults.parity,
            overrun: present.overrun || faults.overrun,
        };
    }
}

} // verus!
