//! The asynchronous UART driver.
//!
//! A transfer is programmed and started by [`Uarte::read`] or
//! [`Uarte::write`], polled by [`Uarte::poll_read`] or [`Uarte::poll_write`]
//! until it answers, and, where the task gives it up instead, stopped by
//! [`Uarte::cancel_read`] or [`Uarte::cancel_write`] and awaited with
//! [`Uarte::stop_confirmed`].

pub(crate) mod sealed;

use crate::executor::{Executor, ExecutorView, Poll, Waker};
use crate::gpio::{as_input, as_output_high, psel_bits, psel_of, AnyPin};
use crate::interrupt::{Handler, Interrupt, Irq, Line};
use crate::operation::Phase;
use crate::pac::uarte0::{
    lemma_occurrences_push, occurrences, Access, Channel, Event, Faults, RegisterBlock, Registers,
    Signal, Task,
};
use crate::pac::Fence;
use crate::peripherals;
use crate::target_constants::EASY_DMA_SIZE;
use crate::util::on_drop::{Guard, OnDrop};
use crate::util::Unborrow;
use vstd::prelude::*;

pub use crate::pac::uarte0::{Baudrate, Parity};
pub use crate::uarte::sealed::State;

verus! {

/// Line settings of the UART.
#[non_exhaustive]
pub struct Config {
    pub parity: Parity,
    pub baudrate: Baudrate,
}

impl Default for Config {
    /// 115200 baud, no parity.
    fn default() -> (config: Config)
        ensures
            config.parity == Parity::Excluded,
            config.baudrate == Baudrate::Baud115200,
    {
        Config { parity: Parity::Excluded, baudrate: Baudrate::Baud115200 }
    }
}

/// Why a transfer did not succeed.
#[derive(Clone, Copy, Debug, PartialEq, Eq, Structural)]
pub enum Error {
    /// The buffer is longer than one transfer can move. Nothing was started.
    Length,
    /// A byte arrived without a valid stop bit.
    Framing,
    /// A byte arrived with a wrong parity bit.
    Parity,
    /// A byte arrived before the one before it was stored.
    Overrun,
}

/// What has to be done when a started transfer is given up.
#[derive(Clone, Copy, Debug, PartialEq, Eq, Structural)]
pub enum Teardown {
    /// Tell the peripheral to stop the transfer on this channel, and wait
    /// until it has.
    Stop(Channel),
}

/// The model of one transfer.
pub struct TransferView {
    pub phase: Phase,
    /// The address of the buffer, once programmed.
    pub address: u32,
    /// The length of the buffer, once programmed.
    pub len: usize,
    pub guard: Guard<Teardown>,
}

/// The event that ends a transfer on `channel`, and that confirms its stop.
pub open spec fn end_event(channel: Channel) -> Event {
    match channel {
        Channel::Rx => Event::EndRx,
        Channel::Tx => Event::EndTx,
    }
}

/// The event that tells that a transfer on `channel` has started.
pub open spec fn started_event(channel: Channel) -> Event {
    match channel {
        Channel::Rx => Event::RxStarted,
        Channel::Tx => Event::TxStarted,
    }
}

/// The event that tells that `channel` has come to rest after a stop.
pub open spec fn halted_event(channel: Channel) -> Event {
    match channel {
        Channel::Rx => Event::RxTo,
        Channel::Tx => Event::TxStopped,
    }
}

pub open spec fn start_task(channel: Channel) -> Task {
    match channel {
        Channel::Rx => Task::StartRx,
        Channel::Tx => Task::StartTx,
    }
}

pub open spec fn stop_task(channel: Channel) -> Task {
    match channel {
        Channel::Rx => Task::StopRx,
        Channel::Tx => Task::StopTx,
    }
}

/// The outcome of a completed transfer: the first fault among framing,
/// parity and overrun that the peripheral reported, or success if it
/// reported none.
pub open spec fn outcome(faults: Faults) -> Result<(), Error> {
    if faults.framing {
        Err(Error::Framing)
    } else if faults.parity {
        Err(Error::Parity)
    } else if faults.overrun {
        Err(Error::Overrun)
    } else {
        Ok(())
    }
}

/// The guard that belongs to a transfer in `phase`: armed while the transfer
/// runs, fired once it was given up, and defused otherwise.
pub open spec fn guard_in(phase: Phase, channel: Channel) -> Guard<Teardown> {
    match phase {
        Phase::Started => Guard::Armed(Teardown::Stop(channel)),
        Phase::Stopping | Phase::CancelConfirmed => Guard::Fired,
        _ => Guard::Defused,
    }
}

impl TransferView {
    pub open spec fn idle() -> TransferView {
        TransferView { phase: Phase::Idle, address: 0, len: 0, guard: Guard::Defused }
    }

    /// Whether the peripheral may still touch the buffer.
    pub open spec fn in_flight(self) -> bool {
        self.phase == Phase::Started || self.phase == Phase::Stopping
    }

    pub open spec fn wf(self, channel: Channel) -> bool {
        &&& self.phase != Phase::DescriptorProgrammed
        &&& self.guard == guard_in(self.phase, channel)
        &&& self.len <= EASY_DMA_SIZE
    }
}

/// The mathematical model of a [`Uarte`].
pub struct UarteView {
    pub regs: Registers,
    pub endrx_waker: Option<Waker>,
    pub endtx_waker: Option<Waker>,
    pub irq: Line,
    pub rxd: AnyPin,
    pub txd: AnyPin,
    pub cts: Option<AnyPin>,
    pub rts: Option<AnyPin>,
    pub rx: TransferView,
    pub tx: TransferView,
    /// Set once the driver is being shut down: whether a transfer on the
    /// channel was stopped midway, so that its channel has to come to rest
    /// first.
    pub closing: Option<(bool, bool)>,
}

impl UarteView {
    /// While a transfer on `channel` runs and has not ended, the interrupt
    /// of its end event is enabled.
    pub open spec fn listening(self, channel: Channel) -> bool {
        self.transfer(channel).phase == Phase::Started && !self.regs.event(end_event(channel))
            ==> self.regs.bits.inten.get(end_event(channel))
    }

    pub open spec fn wf(self) -> bool {
        &&& self.rx.wf(Channel::Rx)
        &&& self.tx.wf(Channel::Tx)
        &&& self.listening(Channel::Rx)
        &&& self.listening(Channel::Tx)
        &&& self.irq.enabled
        &&& self.irq.handler == Some(Handler::Uarte)
        &&& self.closing is Some ==> !self.rx.in_flight() && !self.tx.in_flight()
    }

    pub open spec fn transfer(self, channel: Channel) -> TransferView {
        match channel {
            Channel::Rx => self.rx,
            Channel::Tx => self.tx,
        }
    }

    pub open spec fn with_transfer(self, channel: Channel, transfer: TransferView) -> UarteView {
        match channel {
            Channel::Rx => UarteView { rx: transfer, ..self },
            Channel::Tx => UarteView { tx: transfer, ..self },
        }
    }

    pub open spec fn waker(self, channel: Channel) -> Option<Waker> {
        match channel {
            Channel::Rx => self.endrx_waker,
            Channel::Tx => self.endtx_waker,
        }
    }

    pub open spec fn with_waker(self, channel: Channel, waker: Option<Waker>) -> UarteView {
        match channel {
            Channel::Rx => UarteView { endrx_waker: waker, ..self },
            Channel::Tx => UarteView { endtx_waker: waker, ..self },
        }
    }

    /// Whether a transfer may be started on `channel`.
    pub open spec fn can_start(self, channel: Channel) -> bool {
        self.closing is None && !self.transfer(channel).in_flight()
    }

    /// The driver right after its construction.
    pub open spec fn configured(
        irq: Line,
        rxd: AnyPin,
        txd: AnyPin,
        cts: Option<AnyPin>,
        rts: Option<AnyPin>,
        parity: Parity,
        baudrate: Baudrate,
    ) -> UarteView {
        UarteView {
            regs: Registers::reset().written(Access::SelectPin(Signal::Rxd, psel_of(Some(rxd))))
                .written(Access::SelectPin(Signal::Txd, psel_of(Some(txd)))).written(
                Access::SelectPin(Signal::Cts, psel_of(cts)),
            ).written(Access::SelectPin(Signal::Rts, psel_of(rts))).written(
                Access::Configure(rts is Some, parity),
            ).written(Access::SetBaudrate(baudrate)).written(Access::DisableAllInterrupts).written(
                Access::ClearEvent(Event::RxStarted),
            ).written(Access::ClearEvent(Event::TxStarted)).written(Access::Enable(true)),
            endrx_waker: None,
            endtx_waker: None,
            irq: Line { handler: Some(Handler::Uarte), enabled: true, pending: false },
            rxd: as_input(rxd),
            txd: as_output_high(txd),
            cts: match cts {
                Some(pin) => Some(as_input(pin)),
                None => None,
            },
            rts: match rts {
                Some(pin) => Some(as_output_high(pin)),
                None => None,
            },
            rx: TransferView::idle(),
            tx: TransferView::idle(),
            closing: None,
        }
    }

    /// The registers after a transfer was programmed: the descriptor is
    /// written, the completion event cleared and its interrupt enabled.
    pub open spec fn programmed_regs(self, channel: Channel, address: u32, len: usize) -> Registers {
        self.regs.written(Access::SetDescriptor(channel, address, len as u32)).written(
            Access::ClearEvent(end_event(channel)),
        ).written(Access::EnableInterrupt(end_event(channel)))
    }

    /// The driver after a transfer of `len` bytes at `address` was started on
    /// `channel`: programmed, fenced, and only then told to start.
    pub open spec fn started(self, channel: Channel, address: u32, len: usize) -> UarteView {
        UarteView {
            regs: self.programmed_regs(channel, address, len).written(
                Access::Fence(Fence::WritesVisibleToHardware),
            ).written(Access::TriggerTask(start_task(channel))),
            ..self
        }.with_transfer(
            channel,
            TransferView {
                phase: Phase::Started,
                address,
                len,
                guard: Guard::Armed(Teardown::Stop(channel)),
            },
        )
    }

    /// The driver after a poll of the transfer on `channel` that found it
    /// complete.
    pub open spec fn completed(self, channel: Channel) -> UarteView {
        UarteView {
            regs: self.regs.written(Access::Fence(Fence::HardwareWritesVisible)).written(
                Access::ClearEvent(started_event(channel)),
            ).written(Access::ClearFaults),
            ..self
        }.with_transfer(
            channel,
            TransferView {
                phase: Phase::Completed,
                guard: Guard::Defused,
                ..self.transfer(channel)
            },
        )
    }

    /// One poll of the transfer on `channel`: the waker is registered first,
    /// the completion event tested after.
    pub open spec fn polled(self, channel: Channel, waker: Waker) -> (
        UarteView,
        Poll<Result<(), Error>>,
    ) {
        let registered = self.with_waker(channel, Some(waker));
        if self.regs.event(end_event(channel)) {
            (registered.completed(channel), Poll::Ready(outcome(self.regs.bits.errorsrc)))
        } else {
            (registered, Poll::Pending)
        }
    }

    /// The driver after the transfer on `channel` was given up: if it was
    /// running, its guard has fired and the peripheral was told to stop.
    pub open spec fn cancelled(self, channel: Channel) -> UarteView {
        if self.transfer(channel).phase == Phase::Started {
            UarteView {
                regs: self.regs.written(Access::DisableInterrupt(end_event(channel))).written(
                    Access::ClearEvent(halted_event(channel)),
                ).written(Access::TriggerTask(stop_task(channel))),
                ..self
            }.with_transfer(
                channel,
                TransferView {
                    phase: Phase::Stopping,
                    guard: Guard::Fired,
                    ..self.transfer(channel)
                },
            )
        } else {
            self
        }
    }

    /// Whether the peripheral has confirmed the stop on `channel`.
    pub open spec fn stopped(self, channel: Channel) -> bool {
        self.regs.event(end_event(channel))
    }

    /// The driver after a look at the stop on `channel`.
    pub open spec fn stop_polled(self, channel: Channel) -> UarteView {
        if self.transfer(channel).phase == Phase::Stopping && self.stopped(channel) {
            self.with_transfer(
                channel,
                TransferView { phase: Phase::CancelConfirmed, ..self.transfer(channel) },
            )
        } else {
            self
        }
    }

    /// The waker that the handler takes out of the slot of `channel`.
    pub open spec fn taken(self, channel: Channel) -> Option<Waker> {
        if self.regs.event(end_event(channel)) {
            self.waker(channel)
        } else {
            None
        }
    }

    /// The registers after the interrupt handler ran: the interrupt of each
    /// of the four events that it serves is disabled if the event was raised.
    pub open spec fn served_regs(self) -> Registers {
        self.regs.silenced(Event::EndRx).silenced(Event::EndTx).silenced(Event::RxTo).silenced(
            Event::TxStopped,
        )
    }

    /// The driver after its interrupt handler ran. The line stays pending
    /// only if the peripheral still asserts it.
    pub open spec fn interrupted(self) -> UarteView {
        UarteView {
            regs: self.served_regs(),
            irq: Line { pending: self.served_regs().interrupt_asserted(), ..self.irq },
            endrx_waker: if self.regs.event(Event::EndRx) {
                None
            } else {
                self.endrx_waker
            },
            endtx_waker: if self.regs.event(Event::EndTx) {
                None
            } else {
                self.endtx_waker
            },
            ..self
        }
    }

    /// The driver after the peripheral raised `event`: the line is pending if
    /// the interrupt of a raised event is enabled.
    pub open spec fn raised(self, event: Event) -> UarteView {
        UarteView {
            regs: self.regs.raised(event),
            irq: Line {
                pending: self.irq.pending || self.regs.raised(event).interrupt_asserted(),
                ..self.irq
            },
            ..self
        }
    }

    /// The driver after its shutdown has begun.
    pub open spec fn closing(self) -> UarteView {
        UarteView {
            regs: self.regs.written(Access::EnableInterrupt(Event::RxTo)).written(
                Access::EnableInterrupt(Event::TxStopped),
            ),
            closing: Some((self.regs.event(Event::RxStarted), self.regs.event(Event::TxStarted))),
            ..self
        }
    }

    /// Whether every channel that was stopped midway has come to rest.
    pub open spec fn at_rest(self) -> bool {
        match self.closing {
            Some((rx, tx)) => (rx ==> self.regs.event(Event::RxTo)) && (tx ==> self.regs.event(
                Event::TxStopped,
            )),
            None => false,
        }
    }
}

/// A UART instance: its interrupt line belongs to it.
pub trait Instance: sealed::Instance {
    spec fn interrupt() -> Irq;

    /// The interrupt line of the instance.
    fn irq() -> (irq: Irq)
        ensures
            irq == Self::interrupt(),
    ;
}

impl sealed::Instance for peripherals::UARTE0 {
    fn regs() -> (regs: RegisterBlock) {
        RegisterBlock::reset()
    }

    fn state() -> (state: State) {
        State::new()
    }
}

impl Instance for peripherals::UARTE0 {
    open spec fn interrupt() -> Irq {
        Irq::UARTE0_UART0
    }

    fn irq() -> (irq: Irq) {
        Irq::UARTE0_UART0
    }
}

impl sealed::Instance for peripherals::UARTE1 {
    fn regs() -> (regs: RegisterBlock) {
        RegisterBlock::reset()
    }

    fn state() -> (state: State) {
        State::new()
    }
}

impl Instance for peripherals::UARTE1 {
    open spec fn interrupt() -> Irq {
        Irq::UARTE1
    }

    fn irq() -> (irq: Irq) {
        Irq::UARTE1
    }
}

struct Transfer {
    phase: Phase,
    address: u32,
    len: usize,
    guard: OnDrop<Teardown>,
}

impl View for Transfer {
    type V = TransferView;

    closed spec fn view(&self) -> TransferView {
        TransferView {
            phase: self.phase,
            address: self.address,
            len: self.len,
            guard: self.guard@,
        }
    }
}

impl Transfer {
    fn idle() -> (transfer: Transfer)
        ensures
            transfer@ == TransferView::idle(),
    {
        Transfer { phase: Phase::Idle, address: 0, len: 0, guard: OnDrop::defused() }
    }

    fn phase(&self) -> (phase: Phase)
        ensures
            phase == self@.phase,
    {
        self.phase
    }

    /// Arms the guard of a transfer that is about to be programmed.
    fn arm(&mut self, channel: Channel, address: u32, len: usize)
        ensures
            final(self)@ == (TransferView {
                phase: Phase::Idle,
                address,
                len,
                guard: Guard::Armed(Teardown::Stop(channel)),
            }),
    {
        self.phase = Phase::Idle;
        self.address = address;
        self.len = len;
        self.guard = OnDrop::new(Teardown::Stop(channel));
    }

    fn advance(&mut self, phase: Phase)
        ensures
            final(self)@ == (TransferView { phase, ..old(self)@ }),
    {
        self.phase = phase;
    }

    /// The success path: the guard is defused.
    fn complete(&mut self)
        ensures
            final(self)@ == (TransferView {
                phase: Phase::Completed,
                guard: old(self)@.guard.defuse(),
                ..old(self)@
            }),
    {
        self.guard.defuse();
        self.phase = Phase::Completed;
    }

    /// The scope of the transfer is left: the guard hands out what is due.
    fn leave(&mut self) -> (action: Option<Teardown>)
        ensures
            action == old(self)@.guard.leave().1,
            final(self)@ == (TransferView {
                phase: if action is Some {
                    Phase::Stopping
                } else {
                    old(self)@.phase
                },
                guard: old(self)@.guard.leave().0,
                ..old(self)@
            }),
    {
        let action = self.guard.leave();
        if action.is_some() {
            self.phase = Phase::Stopping;
        }
        action
    }
}

/// The event that ends a transfer on `channel`.
fn end_of(channel: Channel) -> (event: Event)
    ensures
        event == end_event(channel),
{
    match channel {
        Channel::Rx => Event::EndRx,
        Channel::Tx => Event::EndTx,
    }
}

/// The first fault that the peripheral reported, or success.
fn outcome_of(faults: Faults) -> (result: Result<(), Error>)
    ensures
        result == outcome(faults),
{
    if faults.framing {
        Err(Error::Framing)
    } else if faults.parity {
        Err(Error::Parity)
    } else if faults.overrun {
        Err(Error::Overrun)
    } else {
        Ok(())
    }
}

/// Interface to a UART instance.
pub struct Uarte<T: Instance> {
    peri: T,
    regs: RegisterBlock,
    state: State,
    irq: Interrupt,
    rxd: AnyPin,
    txd: AnyPin,
    cts: Option<AnyPin>,
    rts: Option<AnyPin>,
    rx: Transfer,
    tx: Transfer,
    closing: Option<(bool, bool)>,
}

impl<T: Instance> View for Uarte<T> {
    type V = UarteView;

    closed spec fn view(&self) -> UarteView {
        UarteView {
            regs: self.regs@,
            endrx_waker: self.state.endrx_waker@,
            endtx_waker: self.state.endtx_waker@,
            irq: self.irq.line(),
            rxd: self.rxd,
            txd: self.txd,
            cts: self.cts,
            rts: self.rts,
            rx: self.rx@,
            tx: self.tx@,
            closing: self.closing,
        }
    }
}

impl<T: Instance> Uarte<T> {
    pub open spec fn wf(&self) -> bool {
        self@.wf()
    }

    /// Creates the interface to a UART instance: sets the pins up and routes
    /// the signals to them, sets flow control, parity and baud rate, silences
    /// every interrupt source, installs the handler and switches the
    /// peripheral on.
    ///
    /// The two flow-control pins come as a pair: to supply one of them alone
    /// is a defect of the board's configuration, which the precondition
    /// rules out.
    pub fn new<U, I, RX, TX, CTS, RTS>(
        uarte: U,
        irq: I,
        rxd: RX,
        txd: TX,
        cts: CTS,
        rts: RTS,
        config: Config,
    ) -> (driver: Uarte<T>) where
        U: Unborrow<Target = T>,
        I: Unborrow<Target = Interrupt>,
        RX: Unborrow<Target = AnyPin>,
        TX: Unborrow<Target = AnyPin>,
        CTS: Unborrow<Target = Option<AnyPin>>,
        RTS: Unborrow<Target = Option<AnyPin>>,

        requires
            irq.unborrowed().irq() == T::interrupt(),
            cts.unborrowed() is Some <==> rts.unborrowed() is Some,
        ensures
            driver.wf(),
            driver@ == UarteView::configured(
                irq.unborrowed().line(),
                rxd.unborrowed(),
                txd.unborrowed(),
                cts.unborrowed(),
                rts.unborrowed(),
                config.parity,
                config.baudrate,
            ),
    {
        let peri = uarte.unborrow();
        let mut irq = irq.unborrow();
        let mut rxd = rxd.unborrow();
        let mut txd = txd.unborrow();
        let mut cts = cts.unborrow();
        let mut rts = rts.unborrow();

        let mut r = T::regs();
        // The peripheral is off: no other driver has it.
        assert(!r@.bits.enabled);

        rxd.into_input();
        r.write(Access::SelectPin(Signal::Rxd, rxd.psel_bits()));

        txd.into_output_high();
        r.write(Access::SelectPin(Signal::Txd, txd.psel_bits()));

        match rts {
            Some(pin) => {
                let mut pin = pin;
                pin.into_output_high();
                rts = Some(pin);
            },
            None => {},
        }
        r.write(Access::SelectPin(Signal::Cts, psel_bits(&cts)));

        match cts {
            Some(pin) => {
                let mut pin = pin;
                pin.into_input();
                cts = Some(pin);
            },
            None => {},
        }
        r.write(Access::SelectPin(Signal::Rts, psel_bits(&rts)));

        let hardware_flow_control = rts.is_some();
        r.write(Access::Configure(hardware_flow_control, config.parity));
        r.write(Access::SetBaudrate(config.baudrate));

        r.write(Access::DisableAllInterrupts);

        // The two started events tell the shutdown whether a transfer was
        // stopped midway.
        r.write(Access::ClearEvent(Event::RxStarted));
        r.write(Access::ClearEvent(Event::TxStarted));

        irq.set_handler(Handler::Uarte);
        irq.unpend();
        irq.enable();

        r.write(Access::Enable(true));

        Uarte {
            peri,
            regs: r,
            state: T::state(),
            irq,
            rxd,
            txd,
            cts,
            rts,
            rx: Transfer::idle(),
            tx: Transfer::idle(),
            closing: None,
        }
    }

    /// Validates, arms the guard, programs the descriptor, and starts the
    /// transfer behind an ordering point.
    fn start(&mut self, channel: Channel, address: u32, len: usize) -> (result: Result<(), Error>)
        requires
            old(self).wf(),
            old(self)@.can_start(channel),
        ensures
            final(self).wf(),
            len > EASY_DMA_SIZE ==> result == Err::<(), Error>(Error::Length) && final(self)@
                == old(self)@,
            len <= EASY_DMA_SIZE ==> result == Ok::<(), Error>(()) && final(self)@
                == old(self)@.started(channel, address, len),
    {
        if len > EASY_DMA_SIZE {
            return Err(Error::Length);
        }
        match channel {
            Channel::Rx => self.rx.arm(channel, address, len),
            Channel::Tx => self.tx.arm(channel, address, len),
        }

        self.regs.set_descriptor(channel, address, len as u32);
        self.regs.clear_event(end_of(channel));
        self.regs.enable_interrupt(end_of(channel));
        match channel {
            Channel::Rx => self.rx.advance(Phase::DescriptorProgrammed),
            Channel::Tx => self.tx.advance(Phase::DescriptorProgrammed),
        }

        self.regs.fence(Fence::WritesVisibleToHardware);

        match channel {
            Channel::Rx => {
                self.regs.trigger_task(Task::StartRx);
                self.rx.advance(Phase::Started);
            },
            Channel::Tx => {
                self.regs.trigger_task(Task::StartTx);
                self.tx.advance(Phase::Started);
            },
        }
        Ok(())
    }

    /// Registers the waker, then tests the completion event.
    fn poll(&mut self, channel: Channel, waker: &Waker) -> (poll: Poll<Result<(), Error>>)
        requires
            old(self).wf(),
            old(self)@.transfer(channel).phase == Phase::Started,
        ensures
            final(self).wf(),
            (final(self)@, poll) == old(self)@.polled(channel, *waker),
    {
        match channel {
            Channel::Rx => self.state.endrx_waker.register(waker),
            Channel::Tx => self.state.endtx_waker.register(waker),
        }
        if !self.regs.read_event(end_of(channel)) {
            return Poll::Pending;
        }
        self.regs.fence(Fence::HardwareWritesVisible);
        match channel {
            Channel::Rx => {
                self.regs.clear_event(Event::RxStarted);
                self.rx.complete();
            },
            Channel::Tx => {
                self.regs.clear_event(Event::TxStarted);
                self.tx.complete();
            },
        }
        let faults = self.regs.take_faults();
        Poll::Ready(outcome_of(faults))
    }

    /// Leaves the scope of the transfer; if its guard is still armed, runs
    /// the first half of the teardown: the stop command.
    fn cancel(&mut self, channel: Channel) -> (stopping: bool)
        requires
            old(self).wf(),
        ensures
            final(self).wf(),
            final(self)@ == old(self)@.cancelled(channel),
            stopping == (old(self)@.transfer(channel).phase == Phase::Started),
    {
        let action = match channel {
            Channel::Rx => self.rx.leave(),
            Channel::Tx => self.tx.leave(),
        };
        match action {
            Some(Teardown::Stop(Channel::Rx)) => {
                self.regs.disable_interrupt(Event::EndRx);
                self.regs.clear_event(Event::RxTo);
                self.regs.trigger_task(Task::StopRx);
                true
            },
            Some(Teardown::Stop(Channel::Tx)) => {
                self.regs.disable_interrupt(Event::EndTx);
                self.regs.clear_event(Event::TxStopped);
                self.regs.trigger_task(Task::StopTx);
                true
            },
            None => false,
        }
    }

    /// Starts to receive `len` bytes into the buffer at `address`.
    ///
    /// A buffer longer than [`EASY_DMA_SIZE`] is refused before any register
    /// is touched. Otherwise the descriptor is programmed once, the
    /// completion event cleared and its interrupt enabled, and the receiver
    /// started behind an ordering point. The buffer belongs to the
    /// peripheral until [`Uarte::poll_read`] answers or
    /// [`Uarte::stop_confirmed`] confirms a stop.
    pub fn read(&mut self, address: u32, len: usize) -> (result: Result<(), Error>)
        requires
            old(self).wf(),
            old(self)@.can_start(Channel::Rx),
        ensures
            final(self).wf(),
            len > EASY_DMA_SIZE ==> result == Err::<(), Error>(Error::Length) && final(self)@
                == old(self)@,
            len <= EASY_DMA_SIZE ==> result == Ok::<(), Error>(()) && final(self)@
                == old(self)@.started(Channel::Rx, address, len),
    {
        self.start(Channel::Rx, address, len)
    }

    /// Starts to send the `len` bytes of the buffer at `address`; in all else
    /// like [`Uarte::read`].
    pub fn write(&mut self, address: u32, len: usize) -> (result: Result<(), Error>)
        requires
            old(self).wf(),
            old(self)@.can_start(Channel::Tx),
        ensures
            final(self).wf(),
            len > EASY_DMA_SIZE ==> result == Err::<(), Error>(Error::Length) && final(self)@
                == old(self)@,
            len <= EASY_DMA_SIZE ==> result == Ok::<(), Error>(()) && final(self)@
                == old(self)@.started(Channel::Tx, address, len),
    {
        self.start(Channel::Tx, address, len)
    }

    /// One poll of a started read. The waker is registered before the
    /// completion event is looked at, so that a completion between the two
    /// steps still finds a waker to wake. Once the event is there, the
    /// outcome is the first fault reported, or success.
    pub fn poll_read(&mut self, waker: &Waker) -> (poll: Poll<Result<(), Error>>)
        requires
            old(self).wf(),
            old(self)@.rx.phase == Phase::Started,
        ensures
            final(self).wf(),
            (final(self)@, poll) == old(self)@.polled(Channel::Rx, *waker),
    {
        self.poll(Channel::Rx, waker)
    }

    /// One poll of a started write; like [`Uarte::poll_read`].
    pub fn poll_write(&mut self, waker: &Waker) -> (poll: Poll<Result<(), Error>>)
        requires
            old(self).wf(),
            old(self)@.tx.phase == Phase::Started,
        ensures
            final(self).wf(),
            (final(self)@, poll) == old(self)@.polled(Channel::Tx, *waker),
    {
        self.poll(Channel::Tx, waker)
    }

    /// Gives the pending read up. If it was started and has not completed,
    /// the receiver is told to stop, and the answer is `true`: the caller
    /// must not go on before [`Uarte::stop_confirmed`] says that the stop is
    /// confirmed. On any other read nothing is done.
    pub fn cancel_read(&mut self) -> (stopping: bool)
        requires
            old(self).wf(),
        ensures
            final(self).wf(),
            final(self)@ == old(self)@.cancelled(Channel::Rx),
            stopping == (old(self)@.rx.phase == Phase::Started),
    {
        self.cancel(Channel::Rx)
    }

    /// Gives the pending write up; like [`Uarte::cancel_read`].
    pub fn cancel_write(&mut self) -> (stopping: bool)
        requires
            old(self).wf(),
        ensures
            final(self).wf(),
            final(self)@ == old(self)@.cancelled(Channel::Tx),
            stopping == (old(self)@.tx.phase == Phase::Started),
    {
        self.cancel(Channel::Tx)
    }

    /// One look at a stop that is under way on `channel`: it is confirmed
    /// once the peripheral has raised the channel's end event, and not
    /// before. The answer is `true` when no stop is left to wait for.
    pub fn stop_confirmed(&mut self, channel: Channel) -> (confirmed: bool)
        requires
            old(self).wf(),
        ensures
            final(self).wf(),
            final(self)@ == old(self)@.stop_polled(channel),
            confirmed == (final(self)@.transfer(channel).phase != Phase::Stopping),
            confirmed == (old(self)@.transfer(channel).phase == Phase::Stopping ==> old(
                self,
            )@.stopped(channel)),
    {
        let phase = match channel {
            Channel::Rx => self.rx.phase(),
            Channel::Tx => self.tx.phase(),
        };
        if phase != Phase::Stopping {
            return true;
        }
        if !self.regs.read_event(end_of(channel)) {
            return false;
        }
        match channel {
            Channel::Rx => self.rx.advance(Phase::CancelConfirmed),
            Channel::Tx => self.tx.advance(Phase::CancelConfirmed),
        }
        true
    }

    /// The interrupt handler. For each of the two completion events that is
    /// raised it wakes the waker of the transfer and disables the event's
    /// interrupt; for each of the two halt events that is raised it disables
    /// the event's interrupt. It clears no event.
    pub fn on_interrupt(&mut self, executor: &mut Executor)
        requires
            old(self).wf(),
            old(executor).wf(),
        ensures
            final(self).wf(),
            final(executor).wf(),
            final(self)@ == old(self)@.interrupted(),
            final(executor)@ == old(executor)@.wake_opt(old(self)@.taken(Channel::Rx)).wake_opt(
                old(self)@.taken(Channel::Tx),
            ),
    {
        if self.regs.read_event(Event::EndRx) {
            self.state.endrx_waker.wake(executor);
        }
        self.regs.silence(Event::EndRx);
        if self.regs.read_event(Event::EndTx) {
            self.state.endtx_waker.wake(executor);
        }
        self.regs.silence(Event::EndTx);
        self.regs.silence(Event::RxTo);
        self.regs.silence(Event::TxStopped);
        if self.regs.interrupt_asserted() {
            self.irq.pend();
        } else {
            self.irq.unpend();
        }
    }

    /// Begins the shutdown: notes which channels were stopped midway and
    /// enables the interrupts of the two halt events, so that the core can
    /// sleep until the channels have come to rest.
    pub fn begin_drop(&mut self)
        requires
            old(self).wf(),
            old(self)@.closing is None,
            !old(self)@.rx.in_flight(),
            !old(self)@.tx.in_flight(),
        ensures
            final(self).wf(),
            final(self)@ == old(self)@.closing(),
    {
        let did_stoprx = self.regs.read_event(Event::RxStarted);
        let did_stoptx = self.regs.read_event(Event::TxStarted);
        self.regs.enable_interrupt(Event::RxTo);
        self.regs.enable_interrupt(Event::TxStopped);
        self.closing = Some((did_stoprx, did_stoptx));
    }

    /// Whether the shutdown may be finished: every channel that was stopped
    /// midway has raised its halt event. Until then the core waits.
    pub fn at_rest(&self) -> (rest: bool)
        requires
            self.wf(),
        ensures
            rest == self@.at_rest(),
    {
        match self.closing {
            Some((did_stoprx, did_stoptx)) => {
                let rx_waits = did_stoprx && !self.regs.read_event(Event::RxTo);
                let tx_waits = did_stoptx && !self.regs.read_event(Event::TxStopped);
                !(rx_waits || tx_waits)
            },
            None => false,
        }
    }

    /// Finishes the shutdown: switches the peripheral off and hands back its
    /// registers.
    pub fn drop(self) -> (regs: RegisterBlock)
        requires
            self.wf(),
            self@.at_rest(),
        ensures
            regs@ == self@.regs.written(Access::Enable(false)),
    {
        let mut regs = self.regs;
        regs.write(Access::Enable(false));
        regs
    }

    /// Gives the transfer on `channel` up while it runs, and blocks until the
    /// stop is confirmed, against a simulated peripheral that lets `latency`
    /// looks at the end event pass before it raises it. Answers the number of
    /// looks that found the stop unconfirmed.
    pub fn cancel_and_wait(&mut self, channel: Channel, latency: u64) -> (polls: u64)
        requires
            old(self).wf(),
            old(self)@.transfer(channel).phase == Phase::Started,
            !old(self)@.regs.event(end_event(channel)),
        ensures
            final(self).wf(),
            polls == latency,
            final(self)@ == old(self)@.cancelled(channel).raised(end_event(channel)).stop_polled(
                channel,
            ),
            final(self)@.transfer(channel).phase == Phase::CancelConfirmed,
    {
        self.cancel(channel);
        let ghost stopping = self@;
        let mut polls: u64 = 0;
        while !self.stop_confirmed(channel)
            invariant
                self.wf(),
                polls <= latency,
                self@ == if self@.regs.event(end_event(channel)) {
                    if self@.transfer(channel).phase == Phase::Stopping {
                        stopping.raised(end_event(channel))
                    } else {
                        stopping.raised(end_event(channel)).stop_polled(channel)
                    }
                } else {
                    stopping
                },
                stopping.transfer(channel).phase == Phase::Stopping,
                !stopping.regs.event(end_event(channel)),
                self@.regs.event(end_event(channel)) ==> polls == latency,
            decreases
                    latency - polls + if self@.regs.event(end_event(channel)) {
                        0int
                    } else {
                        1int
                    },
        {
            if polls == latency {
                self.raise_event(end_of(channel));
            } else {
                polls = polls + 1;
            }
        }
        polls
    }

    /// The peripheral's side: raises `event`, and with it the interrupt line
    /// if the event's interrupt is enabled.
    pub fn raise_event(&mut self, event: Event)
        requires
            old(self).wf(),
        ensures
            final(self).wf(),
            final(self)@ == old(self)@.raised(event),
    {
        self.regs.raise_event(event);
        if self.regs.interrupt_asserted() {
            self.irq.pend();
        }
    }

    /// The peripheral's side: reports `faults`.
    pub fn report_faults(&mut self, faults: Faults)
        requires
            old(self).wf(),
        ensures
            final(self).wf(),
            final(self)@ == (UarteView { regs: old(self)@.regs.faulted(faults), ..old(self)@ }),
    {
        self.regs.report_faults(faults);
    }

    /// The registers of the instance.
    pub fn registers(&self) -> (regs: &RegisterBlock)
        ensures
            regs@ == self@.regs,
    {
        &self.regs
    }

    /// Hands out the journal of the accesses made since the last call.
    pub fn take_journal(&mut self) -> (journal: Vec<Access>)
        requires
            old(self).wf(),
        ensures
            final(self).wf(),
            journal@ == old(self)@.regs.journal,
            final(self)@ == (UarteView {
                regs: Registers { bits: old(self)@.regs.bits, journal: Seq::empty() },
                ..old(self)@
            }),
    {
        self.regs.take_journal()
    }

    /// The state of the transfer on `channel`.
    pub fn phase(&self, channel: Channel) -> (phase: Phase)
        ensures
            phase == self@.transfer(channel).phase,
    {
        match channel {
            Channel::Rx => self.rx.phase(),
            Channel::Tx => self.tx.phase(),
        }
    }

    /// The state of the instance's interrupt line.
    pub fn interrupt(&self) -> (line: Line)
        ensures
            line == self@.irq,
    {
        self.irq.state()
    }

    /// Whether the interrupt controller runs the handler now.
    pub fn interrupt_fires(&self) -> (fires: bool)
        ensures
            fires == self@.irq.fires(),
    {
        self.irq.fires()
    }

    /// The pins of the four signals: receive, transmit, clear to send,
    /// request to send.
    pub fn pins(&self) -> (pins: (AnyPin, AnyPin, Option<AnyPin>, Option<AnyPin>))
        ensures
            pins == (self@.rxd, self@.txd, self@.cts, self@.rts),
    {
        (self.rxd, self.txd, self.cts, self.rts)
    }
}

/// How often the journal holds a write of `address` and `length` to the
/// descriptor of `channel`.
pub open spec fn descriptor_writes(
    journal: Seq<Access>,
    channel: Channel,
    address: u32,
    length: u32,
) -> nat {
    occurrences(journal, Access::SetDescriptor(channel, address, length))
}

/// How often the journal holds the trigger of `task`.
pub open spec fn triggers(journal: Seq<Access>, task: Task) -> nat {
    occurrences(journal, Access::TriggerTask(task))
}

/// Starting a transfer programs its descriptor exactly once, with the
/// address and the length given: the journal grows by the five accesses of a
/// start, among which that one write to the descriptor stands once and no
/// other write to it at all, and the start command comes last, behind the
/// ordering point.
pub proof fn law_start_programs_descriptor_once(
    driver: UarteView,
    channel: Channel,
    address: u32,
    len: usize,
)
    requires
        len <= EASY_DMA_SIZE,
    ensures
        driver.started(channel, address, len).regs.journal == driver.regs.journal + seq![
            Access::SetDescriptor(channel, address, len as u32),
            Access::ClearEvent(end_event(channel)),
            Access::EnableInterrupt(end_event(channel)),
            Access::Fence(Fence::WritesVisibleToHardware),
            Access::TriggerTask(start_task(channel)),
        ],
        len as u32 == len,
        forall|a: u32, l: u32|
            #[trigger] descriptor_writes(
                driver.started(channel, address, len).regs.journal,
                channel,
                a,
                l,
            ) == descriptor_writes(driver.regs.journal, channel, a, l) + if a == address && l
                == len {
                1nat
            } else {
                0nat
            },
        triggers(driver.started(channel, address, len).regs.journal, start_task(channel))
            == triggers(driver.regs.journal, start_task(channel)) + 1,
{
    let j0 = driver.regs.journal;
    let a1 = Access::SetDescriptor(channel, address, len as u32);
    let a2 = Access::ClearEvent(end_event(channel));
    let a3 = Access::EnableInterrupt(end_event(channel));
    let a4 = Access::Fence(Fence::WritesVisibleToHardware);
    let a5 = Access::TriggerTask(start_task(channel));
    let after = driver.started(channel, address, len).regs.journal;
    assert(after == j0.push(a1).push(a2).push(a3).push(a4).push(a5));
    assert(after =~= j0 + seq![a1, a2, a3, a4, a5]);
    assert forall|a: u32, l: u32|
        #[trigger] descriptor_writes(after, channel, a, l) == descriptor_writes(
            j0,
            channel,
            a,
            l,
        ) + if a == address && l == len {
            1nat
        } else {
            0nat
        } by {
        let x = Access::SetDescriptor(channel, a, l);
        lemma_occurrences_push(j0, a1, x);
        lemma_occurrences_push(j0.push(a1), a2, x);
        lemma_occurrences_push(j0.push(a1).push(a2), a3, x);
        lemma_occurrences_push(j0.push(a1).push(a2).push(a3), a4, x);
        lemma_occurrences_push(j0.push(a1).push(a2).push(a3).push(a4), a5, x);
    }
    lemma_occurrences_push(j0, a1, a5);
    lemma_occurrences_push(j0.push(a1), a2, a5);
    lemma_occurrences_push(j0.push(a1).push(a2), a3, a5);
    lemma_occurrences_push(j0.push(a1).push(a2).push(a3), a4, a5);
    lemma_occurrences_push(j0.push(a1).push(a2).push(a3).push(a4), a5, a5);
}

/// A started transfer answers when, and only when, the peripheral has raised
/// its end event, and the answer is success if and only if no fault is
/// reported then.
pub proof fn law_outcome_follows_hardware(driver: UarteView, channel: Channel, waker: Waker)
    ensures
        driver.polled(channel, waker).1 is Ready <==> driver.regs.event(end_event(channel)),
        driver.polled(channel, waker).1 == Poll::Ready(Ok::<(), Error>(())) <==> driver.regs.event(
            end_event(channel),
        ) && !driver.regs.bits.errorsrc.any(),
        driver.polled(channel, waker).1 is Pending ==> driver.polled(channel, waker).0
            == driver.with_waker(channel, Some(waker)),
{
}

/// Giving up a running transfer issues the stop command once, and the stop
/// is not confirmed before the peripheral raises the end event: until then
/// every look leaves the transfer stopping, and the first look after it
/// confirms.
pub proof fn law_cancel_blocks_until_stopped(driver: UarteView, channel: Channel)
    requires
        driver.wf(),
        driver.transfer(channel).phase == Phase::Started,
        !driver.regs.event(end_event(channel)),
    ensures
        driver.cancelled(channel).regs.journal == driver.regs.journal + seq![
            Access::DisableInterrupt(end_event(channel)),
            Access::ClearEvent(halted_event(channel)),
            Access::TriggerTask(stop_task(channel)),
        ],
        triggers(driver.cancelled(channel).regs.journal, stop_task(channel)) == triggers(
            driver.regs.journal,
            stop_task(channel),
        ) + 1,
        driver.cancelled(channel).transfer(channel).phase == Phase::Stopping,
        driver.cancelled(channel).stop_polled(channel) == driver.cancelled(channel),
        driver.cancelled(channel).raised(end_event(channel)).stop_polled(channel).transfer(
            channel,
        ).phase == Phase::CancelConfirmed,
        driver.cancelled(channel).cancelled(channel) == driver.cancelled(channel),
{
    let j0 = driver.regs.journal;
    let a1 = Access::DisableInterrupt(end_event(channel));
    let a2 = Access::ClearEvent(halted_event(channel));
    let a3 = Access::TriggerTask(stop_task(channel));
    assert(driver.cancelled(channel).regs.journal =~= j0 + seq![a1, a2, a3]);
    lemma_occurrences_push(j0, a1, a3);
    lemma_occurrences_push(j0.push(a1), a2, a3);
    lemma_occurrences_push(j0.push(a1).push(a2), a3, a3);
}

/// The interrupt handler clears no event, and when it returns none of the
/// four events that it serves asserts the line any more.
pub proof fn law_handler_silences_its_cause(driver: UarteView)
    ensures
        driver.interrupted().regs.bits.events == driver.regs.bits.events,
        !driver.regs.bits.inten.rxstarted && !driver.regs.bits.inten.txstarted
            ==> !driver.interrupted().regs.interrupt_asserted() && !driver.interrupted().irq.pending,
{
}

/// Of two wakers that are invoked one after the other, each leaves the task
/// of the other ready if it was, and makes its own ready if it was
/// suspended.
proof fn lemma_woken_among_two(
    executor: ExecutorView,
    first: Option<Waker>,
    second: Option<Waker>,
    waker: Waker,
)
    requires
        executor.is_suspended(waker.task),
        first == Some(waker) || second == Some(waker),
    ensures
        executor.wake_opt(first).wake_opt(second).is_ready(waker.task),
{
    let once = executor.wake_opt(first);
    assert(once.is_ready(waker.task) || once.is_suspended(waker.task));
}

/// No wakeup is missed. A poll registers the waker before it looks at the
/// end event, so whenever the peripheral raises the event, one of two things
/// holds. If the event was raised before the poll, the poll answers. If it is
/// raised after a poll that answered pending, the line fires, the handler
/// takes that waker out of its slot, and the suspended task is ready after
/// it; the handler leaves the event raised, so the next poll answers.
pub proof fn law_no_missed_wakeup(
    driver: UarteView,
    channel: Channel,
    waker: Waker,
    executor: ExecutorView,
)
    requires
        driver.wf(),
        executor.wf(),
        driver.transfer(channel).phase == Phase::Started,
        executor.is_suspended(waker.task),
    ensures
        driver.raised(end_event(channel)).polled(channel, waker).1 is Ready,
        driver.polled(channel, waker).1 is Pending ==> {
            let suspended = driver.polled(channel, waker).0;
            let fired = suspended.raised(end_event(channel));
            &&& fired.irq.fires()
            &&& fired.taken(channel) == Some(waker)
            &&& executor.wake_opt(fired.taken(Channel::Rx)).wake_opt(
                fired.taken(Channel::Tx),
            ).is_ready(waker.task)
            &&& fired.interrupted().polled(channel, waker).1 is Ready
        },
{
    let event = end_event(channel);
    assert(driver.raised(event).regs.event(event));
    if driver.polled(channel, waker).1 is Pending {
        let suspended = driver.with_waker(channel, Some(waker));
        assert(driver.polled(channel, waker).0 == suspended);
        assert(!driver.regs.event(event));
        assert(driver.listening(channel));
        assert(suspended.regs == driver.regs);
        let fired = suspended.raised(event);
        assert(fired.regs.bits.inten == driver.regs.bits.inten);
        assert(fired.regs.bits.events == driver.regs.bits.events.with(event, true));
        assert(fired.regs.interrupt_asserted());
        assert(fired.irq.fires());
        assert(fired.waker(channel) == Some(waker));
        assert(fired.taken(channel) == Some(waker));
        lemma_woken_among_two(
            executor,
            fired.taken(Channel::Rx),
            fired.taken(Channel::Tx),
            waker,
        );
        law_handler_silences_its_cause(fired);
        assert(fired.interrupted().regs.event(event));
    }
}

} // verus!
