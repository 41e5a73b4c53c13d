//! The analog-to-digital converter, one sample at a time.

use crate::executor::{lemma_wake_wf, Executor, ExecutorView, Poll, Waker};
use crate::interrupt::{wake_on_interrupt, Handler, Interrupt, Irq, Line};
use crate::operation::Phase;
use crate::pac::saadc::{
    lemma_occurrences_push, occurrences, Access, ChannelConfig, Event, RegisterBlock, Registers,
    Task,
};
use crate::pac::Fence;
use crate::peripherals;
use crate::util::on_drop::{Guard, OnDrop};
use crate::util::Unborrow;
use vstd::prelude::*;

pub use crate::pac::saadc::{
    Gain, Oversample, PositiveChannel, Reference, Resistor, Resolution, Time,
};

verus! {

/// Used to configure the converter.
///
/// See the `Default` impl for suitable default values.
pub struct Config {
    /// Output resolution in bits.
    pub resolution: Resolution,
    /// Average 2^`oversample` input samples before transferring the result into memory.
    pub oversample: Oversample,
    /// Reference voltage of the input.
    pub reference: Reference,
    /// Gain used to control the effective input range.
    pub gain: Gain,
    /// Positive channel resistor control.
    pub resistor: Resistor,
    /// Acquisition time in microseconds.
    pub time: Time,
}

impl Default for Config {
    /// 14 bits, eightfold oversampling, a quarter of the supply as
    /// reference, gain one quarter, no resistor, 20 microseconds.
    fn default() -> (config: Config)
        ensures
            config.resolution == Resolution::_14BIT,
            config.oversample == Oversample::OVER8X,
            config.reference == Reference::VDD1_4,
            config.gain == Gain::GAIN1_4,
            config.resistor == Resistor::BYPASS,
            config.time == Time::_20US,
    {
        Config {
            resolution: Resolution::_14BIT,
            oversample: Oversample::OVER8X,
            reference: Reference::VDD1_4,
            gain: Gain::GAIN1_4,
            resistor: Resistor::BYPASS,
            time: Time::_20US,
        }
    }
}

/// A pin that can be the positive end of a conversion. The negative end is
/// always ground.
pub trait PositivePin {
    spec fn positive_channel(&self) -> PositiveChannel;

    /// The input of the converter that the pin is wired to.
    fn channel(&self) -> (channel: PositiveChannel)
        ensures
            channel == self.positive_channel(),
    ;
}

/// What has to be done when a started conversion is given up.
#[derive(Clone, Copy, Debug, PartialEq, Eq, Structural)]
pub enum Teardown {
    /// Tell the converter to stop, and wait until it has.
    Stop,
}

/// The guard that belongs to a conversion in `phase`.
pub open spec fn guard_in(phase: Phase) -> Guard<Teardown> {
    match phase {
        Phase::Started => Guard::Armed(Teardown::Stop),
        Phase::Stopping | Phase::CancelConfirmed => Guard::Fired,
        _ => Guard::Defused,
    }
}

/// The mathematical model of a [`OneShot`].
pub struct OneShotView {
    pub regs: Registers,
    pub irq: Line,
    pub phase: Phase,
    /// The address of the result buffer, once programmed.
    pub address: u32,
    pub guard: Guard<Teardown>,
}

impl OneShotView {
    pub open spec fn wf(self) -> bool {
        &&& self.phase != Phase::DescriptorProgrammed
        &&& self.guard == guard_in(self.phase)
        &&& self.phase == Phase::Started && !self.regs.event(Event::End)
            ==> self.regs.bits.inten.end
    }

    /// The driver right after its construction.
    pub open spec fn configured(
        irq: Line,
        positive: PositiveChannel,
        resolution: Resolution,
        oversample: Oversample,
        reference: Reference,
        gain: Gain,
        resistor: Resistor,
        time: Time,
    ) -> OneShotView {
        OneShotView {
            regs: Registers::reset().written(Access::Enable(true)).written(
                Access::SetResolution(resolution),
            ).written(Access::SetOversample(oversample)).written(
                Access::ConfigureChannel(
                    ChannelConfig {
                        reference,
                        gain,
                        time,
                        resistor,
                        burst: oversample != Oversample::BYPASS,
                    },
                ),
            ).written(Access::SelectPositive(positive)).written(Access::DisableAllInterrupts),
            irq,
            phase: Phase::Idle,
            address: 0,
            guard: Guard::Defused,
        }
    }

    /// The driver after a conversion into the buffer at `address` was
    /// started: the descriptor is programmed for one sample, the end event
    /// cleared and its interrupt enabled, and the two start commands come
    /// behind the ordering point.
    pub open spec fn started(self, address: u32) -> OneShotView {
        OneShotView {
            regs: self.regs.written(Access::SetDescriptor(address, 1)).written(
                Access::ClearEvent(Event::End),
            ).written(Access::EnableInterrupt(Event::End)).written(
                Access::Fence(Fence::WritesVisibleToHardware),
            ).written(Access::TriggerTask(Task::Start)).written(Access::TriggerTask(Task::Sample)),
            phase: Phase::Started,
            address,
            guard: Guard::Armed(Teardown::Stop),
            ..self
        }
    }

    /// One poll of the conversion: the waker is left with the interrupt line
    /// first, the end event tested after.
    pub open spec fn polled(self, waker: Waker) -> (OneShotView, Poll<i16>) {
        let registered = OneShotView { irq: self.irq.waking(waker), ..self };
        if self.regs.event(Event::End) {
            (
                OneShotView {
                    regs: self.regs.written(Access::ClearEvent(Event::End)).written(
                        Access::Fence(Fence::HardwareWritesVisible),
                    ),
                    phase: Phase::Completed,
                    guard: Guard::Defused,
                    ..registered
                },
                Poll::Ready(self.regs.bits.sample),
            )
        } else {
            (registered, Poll::Pending)
        }
    }

    /// The task that the interrupt handler wakes.
    pub open spec fn taken(self) -> Option<Waker> {
        match self.irq.handler {
            Some(Handler::Wake(waker)) => Some(waker),
            _ => None,
        }
    }

    /// The driver after its interrupt handler ran: a handler that wakes a
    /// task has served the line and disabled it.
    pub open spec fn interrupted(self) -> OneShotView {
        if self.taken() is Some {
            OneShotView { irq: Line { enabled: false, pending: false, ..self.irq }, ..self }
        } else {
            self
        }
    }

    /// The driver after the conversion was given up: if it was running, its
    /// guard has fired and the converter was told to stop.
    pub open spec fn cancelled(self) -> OneShotView {
        if self.phase == Phase::Started {
            OneShotView {
                regs: self.regs.written(Access::DisableInterrupt(Event::End)).written(
                    Access::ClearEvent(Event::Stopped),
                ).written(Access::TriggerTask(Task::Stop)),
                phase: Phase::Stopping,
                guard: Guard::Fired,
                ..self
            }
        } else {
            self
        }
    }

    /// The driver after a look at the stop.
    pub open spec fn stop_polled(self) -> OneShotView {
        if self.phase == Phase::Stopping && self.regs.event(Event::Stopped) {
            OneShotView { phase: Phase::CancelConfirmed, ..self }
        } else {
            self
        }
    }

    /// The driver after the converter raised `event`.
    pub open spec fn raised(self, event: Event) -> OneShotView {
        OneShotView {
            regs: self.regs.raised(event),
            irq: Line {
                pending: self.irq.pending || self.regs.raised(event).interrupt_asserted(),
                ..self.irq
            },
            ..self
        }
    }

    /// The driver after the converter wrote `sample` into the result buffer
    /// and raised the end event.
    pub open spec fn delivered(self, sample: i16) -> OneShotView {
        OneShotView {
            regs: self.regs.delivered(sample),
            irq: Line {
                pending: self.irq.pending || self.regs.delivered(sample).interrupt_asserted(),
                ..self.irq
            },
            ..self
        }
    }
}

/// An operation that yields one sample.
pub trait Sample {
    /// A conversion may be started.
    spec fn idle(&self) -> bool;

    /// A conversion runs.
    spec fn converting(&self) -> bool;

    /// Starts a conversion into the buffer at `address`.
    fn sample(&mut self, address: u32)
        requires
            old(self).idle(),
        ensures
            final(self).converting(),
    ;

    /// One poll of the conversion that runs.
    fn poll_sample(&mut self, waker: &Waker) -> (poll: Poll<i16>)
        requires
            old(self).converting(),
        ensures
            poll is Pending ==> final(self).converting(),
            poll is Ready ==> final(self).idle(),
    ;
}

/// One-shot conversions on one positive pin.
pub struct OneShot<T: PositivePin> {
    peri: peripherals::SAADC,
    positive_pin: T,
    irq: Interrupt,
    regs: RegisterBlock,
    phase: Phase,
    address: u32,
    guard: OnDrop<Teardown>,
}

impl<T: PositivePin> View for OneShot<T> {
    type V = OneShotView;

    closed spec fn view(&self) -> OneShotView {
        OneShotView {
            regs: self.regs@,
            irq: self.irq.line(),
            phase: self.phase,
            address: self.address,
            guard: self.guard@,
        }
    }
}

impl<T: PositivePin> OneShot<T> {
    pub open spec fn wf(&self) -> bool {
        self@.wf()
    }

    /// Switches the converter on and configures its first channel for
    /// single-ended conversions on `positive_pin`; silences every interrupt
    /// source.
    pub fn new<S, I, P>(saadc: S, irq: I, positive_pin: P, config: Config) -> (driver: OneShot<
        T,
    >) where
        S: Unborrow<Target = peripherals::SAADC>,
        I: Unborrow<Target = Interrupt>,
        P: Unborrow<Target = T>,

        requires
            irq.unborrowed().irq() == Irq::SAADC,
        ensures
            driver.wf(),
            driver@ == OneShotView::configured(
                irq.unborrowed().line(),
                positive_pin.unborrowed().positive_channel(),
                config.resolution,
                config.oversample,
                config.reference,
                config.gain,
                config.resistor,
                config.time,
            ),
    {
        let peri = saadc.unborrow();
        let irq = irq.unborrow();
        let positive_pin = positive_pin.unborrow();

        let mut r = RegisterBlock::reset();

        let Config { resolution, oversample, reference, gain, resistor, time } = config;

        r.write(Access::Enable(true));
        r.write(Access::SetResolution(resolution));
        r.write(Access::SetOversample(oversample));

        let burst = match oversample {
            Oversample::BYPASS => false,
            _ => true,
        };
        r.write(
            Access::ConfigureChannel(ChannelConfig { reference, gain, time, resistor, burst }),
        );

        r.write(Access::SelectPositive(positive_pin.channel()));

        r.write(Access::DisableAllInterrupts);

        OneShot {
            peri,
            positive_pin,
            irq,
            regs: r,
            phase: Phase::Idle,
            address: 0,
            guard: OnDrop::defused(),
        }
    }

    /// The interrupt handler: wakes the task that the last poll left with
    /// the line, and disables the line until the next poll.
    pub fn on_interrupt(&mut self, executor: &mut Executor)
        requires
            old(self).wf(),
            old(executor).wf(),
        ensures
            final(self).wf(),
            final(executor).wf(),
            final(self)@ == old(self)@.interrupted(),
            final(executor)@ == old(executor)@.wake_opt(old(self)@.taken()),
    {
        match self.irq.state().handler {
            Some(Handler::Wake(waker)) => {
                self.irq.unpend();
                self.irq.disable();
                executor.wake(waker);
            },
            _ => {},
        }
    }

    /// Gives the pending conversion up. If it was started and has not
    /// completed, the converter is told to stop, and the answer is `true`:
    /// the caller must not go on before [`OneShot::stop_confirmed`] says that
    /// the stop is confirmed.
    pub fn cancel_sample(&mut self) -> (stopping: bool)
        requires
            old(self).wf(),
        ensures
            final(self).wf(),
            final(self)@ == old(self)@.cancelled(),
            stopping == (old(self)@.phase == Phase::Started),
    {
        match self.guard.leave() {
            Some(Teardown::Stop) => {
                self.regs.write(Access::DisableInterrupt(Event::End));
                self.regs.write(Access::ClearEvent(Event::Stopped));
                self.regs.write(Access::TriggerTask(Task::Stop));
                self.phase = Phase::Stopping;
                true
            },
            None => false,
        }
    }

    /// One look at a stop that is under way: it is confirmed once the
    /// converter has raised its stopped event, and not before. The answer is
    /// `true` when no stop is left to wait for.
    pub fn stop_confirmed(&mut self) -> (confirmed: bool)
        requires
            old(self).wf(),
        ensures
            final(self).wf(),
            final(self)@ == old(self)@.stop_polled(),
            confirmed == (final(self)@.phase != Phase::Stopping),
            confirmed == (old(self)@.phase == Phase::Stopping ==> old(self)@.regs.event(
                Event::Stopped,
            )),
    {
        if self.phase != Phase::Stopping {
            return true;
        }
        if !self.regs.read_event(Event::Stopped) {
            return false;
        }
        self.phase = Phase::CancelConfirmed;
        true
    }

    /// Gives the running conversion up and blocks until the stop is
    /// confirmed, against a simulated converter that lets `latency` looks at
    /// the stopped event pass before it raises it. Answers the number of
    /// looks that found the stop unconfirmed.
    pub fn cancel_and_wait(&mut self, latency: u64) -> (polls: u64)
        requires
            old(self).wf(),
            old(self)@.phase == Phase::Started,
        ensures
            final(self).wf(),
            polls == latency,
            final(self)@ == old(self)@.cancelled().raised(Event::Stopped).stop_polled(),
            final(self)@.phase == Phase::CancelConfirmed,
    {
        self.cancel_sample();
        let ghost stopping = self@;
        let mut polls: u64 = 0;
        while !self.stop_confirmed()
            invariant
                self.wf(),
                polls <= latency,
                self@ == if self@.regs.event(Event::Stopped) {
                    if self@.phase == Phase::Stopping {
                        stopping.raised(Event::Stopped)
                    } else {
                        stopping.raised(Event::Stopped).stop_polled()
                    }
                } else {
                    stopping
                },
                stopping.phase == Phase::Stopping,
                !stopping.regs.event(Event::Stopped),
                self@.regs.event(Event::Stopped) ==> polls == latency,
            decreases
                    latency - polls + if self@.regs.event(Event::Stopped) {
                        0int
                    } else {
                        1int
                    },
        {
            if polls == latency {
                self.raise_event(Event::Stopped);
            } else {
                polls = polls + 1;
            }
        }
        polls
    }

    /// Switches the converter off and hands back its registers.
    pub fn drop(self) -> (regs: RegisterBlock)
        requires
            self.wf(),
            !self@.phase.in_flight(),
        ensures
            regs@ == self@.regs.written(Access::Enable(false)),
    {
        let mut regs = self.regs;
        regs.write(Access::Enable(false));
        regs
    }

    /// The converter's side: raises `event`, and with it the interrupt line
    /// if the event's interrupt is enabled.
    pub fn raise_event(&mut self, event: Event)
        requires
            old(self).wf(),
        ensures
            final(self).wf(),
            final(self)@ == old(self)@.raised(event),
    {
        self.regs.raise_event(event);
        if self.regs.interrupt_asserted() {
            self.irq.pend();
        }
    }

    /// The converter's side: writes `sample` into the result buffer and
    /// raises the end event.
    pub fn deliver(&mut self, sample: i16)
        requires
            old(self).wf(),
        ensures
            final(self).wf(),
            final(self)@ == old(self)@.delivered(sample),
    {
        self.regs.deliver(sample);
        if self.regs.interrupt_asserted() {
            self.irq.pend();
        }
    }

    /// The registers of the converter.
    pub fn registers(&self) -> (regs: &RegisterBlock)
        ensures
            regs@ == self@.regs,
    {
        &self.regs
    }

    /// Hands out the journal of the accesses made since the last call.
    pub fn take_journal(&mut self) -> (journal: Vec<Access>)
        requires
            old(self).wf(),
        ensures
            final(self).wf(),
            journal@ == old(self)@.regs.journal,
            final(self)@ == (OneShotView {
                regs: Registers { bits: old(self)@.regs.bits, journal: Seq::empty() },
                ..old(self)@
            }),
    {
        self.regs.take_journal()
    }

    /// The state of the conversion.
    pub fn phase(&self) -> (phase: Phase)
        ensures
            phase == self@.phase,
    {
        self.phase
    }

    /// The state of the converter's interrupt line.
    pub fn interrupt(&self) -> (line: Line)
        ensures
            line == self@.irq,
    {
        self.irq.state()
    }

    /// Whether the interrupt controller runs the handler now.
    pub fn interrupt_fires(&self) -> (fires: bool)
        ensures
            fires == self@.irq.fires(),
    {
        self.irq.fires()
    }
}

impl<T: PositivePin> Sample for OneShot<T> {
    open spec fn idle(&self) -> bool {
        self.wf() && !self@.phase.in_flight()
    }

    open spec fn converting(&self) -> bool {
        self.wf() && self@.phase == Phase::Started
    }

    /// Starts one conversion into the buffer at `address`. The buffer
    /// belongs to the converter until [`Sample::poll_sample`] answers or
    /// [`OneShot::stop_confirmed`] confirms a stop.
    fn sample(&mut self, address: u32)
        ensures
            final(self)@ == old(self)@.started(address),
    {
        self.guard = OnDrop::new(Teardown::Stop);

        self.regs.write(Access::SetDescriptor(address, 1));
        self.regs.write(Access::ClearEvent(Event::End));
        self.regs.write(Access::EnableInterrupt(Event::End));
        self.phase = Phase::DescriptorProgrammed;
        self.address = address;

        self.regs.write(Access::Fence(Fence::WritesVisibleToHardware));

        self.regs.write(Access::TriggerTask(Task::Start));
        self.regs.write(Access::TriggerTask(Task::Sample));
        self.phase = Phase::Started;
    }

    /// One poll of the conversion. The waker is left with the interrupt
    /// line before the end event is looked at. Once the event is there, it
    /// is cleared and the sample in the result buffer is the answer.
    fn poll_sample(&mut self, waker: &Waker) -> (poll: Poll<i16>)
        ensures
            (final(self)@, poll) == old(self)@.polled(*waker),
    {
        wake_on_interrupt(&mut self.irq, waker);
        if !self.regs.read_event(Event::End) {
            return Poll::Pending;
        }
        self.regs.write(Access::ClearEvent(Event::End));
        self.regs.write(Access::Fence(Fence::HardwareWritesVisible));
        self.guard.defuse();
        self.phase = Phase::Completed;
        Poll::Ready(self.regs.bits().sample)
    }
}

impl PositivePin for peripherals::P0_02 {
    open spec fn positive_channel(&self) -> PositiveChannel {
        PositiveChannel::ANALOGINPUT0
    }

    fn channel(&self) -> (channel: PositiveChannel) {
        PositiveChannel::ANALOGINPUT0
    }
}

impl PositivePin for peripherals::P0_03 {
    open spec fn positive_channel(&self) -> PositiveChannel {
        PositiveChannel::ANALOGINPUT1
    }

    fn channel(&self) -> (channel: PositiveChannel) {
        PositiveChannel::ANALOGINPUT1
    }
}

impl PositivePin for peripherals::P0_04 {
    open spec fn positive_channel(&self) -> PositiveChannel {
        PositiveChannel::ANALOGINPUT2
    }

    fn channel(&self) -> (channel: PositiveChannel) {
        PositiveChannel::ANALOGINPUT2
    }
}

impl PositivePin for peripherals::P0_05 {
    open spec fn positive_channel(&self) -> PositiveChannel {
        PositiveChannel::ANALOGINPUT3
    }

    fn channel(&self) -> (channel: PositiveChannel) {
        PositiveChannel::ANALOGINPUT3
    }
}

impl PositivePin for peripherals::P0_28 {
    open spec fn positive_channel(&self) -> PositiveChannel {
        PositiveChannel::ANALOGINPUT4
    }

    fn channel(&self) -> (channel: PositiveChannel) {
        PositiveChannel::ANALOGINPUT4
    }
}

impl PositivePin for peripherals::P0_29 {
    open spec fn positive_channel(&self) -> PositiveChannel {
        PositiveChannel::ANALOGINPUT5
    }

    fn channel(&self) -> (channel: PositiveChannel) {
        PositiveChannel::ANALOGINPUT5
    }
}

impl PositivePin for peripherals::P0_30 {
    open spec fn positive_channel(&self) -> PositiveChannel {
        PositiveChannel::ANALOGINPUT6
    }

    fn channel(&self) -> (channel: PositiveChannel) {
        PositiveChannel::ANALOGINPUT6
    }
}

impl PositivePin for peripherals::P0_31 {
    open spec fn positive_channel(&self) -> PositiveChannel {
        PositiveChannel::ANALOGINPUT7
    }

    fn channel(&self) -> (channel: PositiveChannel) {
        PositiveChannel::ANALOGINPUT7
    }
}

/// How often the journal holds the trigger of `task`.
pub open spec fn triggers(journal: Seq<Access>, task: Task) -> nat {
    occurrences(journal, Access::TriggerTask(task))
}

/// How often the journal holds a write of `address` and `length` to the
/// descriptor.
pub open spec fn descriptor_writes(journal: Seq<Access>, address: u32, length: u32) -> nat {
    occurrences(journal, Access::SetDescriptor(address, length))
}

/// Starting a conversion programs the descriptor exactly once, for one
/// sample at the address given, and the two start commands come last, behind
/// the ordering point.
pub proof fn law_sample_programs_descriptor_once(driver: OneShotView, address: u32)
    ensures
        driver.started(address).regs.journal == driver.regs.journal + seq![
            Access::SetDescriptor(address, 1),
            Access::ClearEvent(Event::End),
            Access::EnableInterrupt(Event::End),
            Access::Fence(Fence::WritesVisibleToHardware),
            Access::TriggerTask(Task::Start),
            Access::TriggerTask(Task::Sample),
        ],
        forall|a: u32, l: u32|
            #[trigger] descriptor_writes(driver.started(address).regs.journal, a, l)
                == descriptor_writes(driver.regs.journal, a, l) + if a == address && l == 1 {
                1nat
            } else {
                0nat
            },
{
    let j0 = driver.regs.journal;
    let a1 = Access::SetDescriptor(address, 1);
    let a2 = Access::ClearEvent(Event::End);
    let a3 = Access::EnableInterrupt(Event::End);
    let a4 = Access::Fence(Fence::WritesVisibleToHardware);
    let a5 = Access::TriggerTask(Task::Start);
    let a6 = Access::TriggerTask(Task::Sample);
    let after = driver.started(address).regs.journal;
    assert(after =~= j0 + seq![a1, a2, a3, a4, a5, a6]);
    assert forall|a: u32, l: u32|
        #[trigger] descriptor_writes(after, a, l) == descriptor_writes(j0, a, l) + if a
            == address && l == 1 {
            1nat
        } else {
            0nat
        } by {
        let x = Access::SetDescriptor(a, l);
        lemma_occurrences_push(j0, a1, x);
        lemma_occurrences_push(j0.push(a1), a2, x);
        lemma_occurrences_push(j0.push(a1).push(a2), a3, x);
        lemma_occurrences_push(j0.push(a1).push(a2).push(a3), a4, x);
        lemma_occurrences_push(j0.push(a1).push(a2).push(a3).push(a4), a5, x);
        lemma_occurrences_push(j0.push(a1).push(a2).push(a3).push(a4).push(a5), a6, x);
    }
}

/// A conversion answers when, and only when, the converter has raised the
/// end event, and the answer is the sample that the converter delivered.
pub proof fn law_sample_yields_delivered(driver: OneShotView, address: u32, sample: i16, waker: Waker)
    ensures
        driver.polled(waker).1 is Ready <==> driver.regs.event(Event::End),
        driver.started(address).polled(waker).1 is Pending,
        driver.started(address).delivered(sample).polled(waker).1 == Poll::Ready(sample),
        driver.started(address).polled(waker).0.delivered(sample).polled(waker).1 == Poll::Ready(
            sample,
        ),
{
}

/// No wakeup is missed. After a poll that answered pending, the delivery of
/// the sample makes the line fire, the handler wakes the task that polled,
/// and the next poll answers.
pub proof fn law_no_missed_wakeup(
    driver: OneShotView,
    waker: Waker,
    sample: i16,
    executor: ExecutorView,
)
    requires
        driver.wf(),
        executor.wf(),
        driver.phase == Phase::Started,
        executor.is_suspended(waker.task),
    ensures
        driver.polled(waker).1 is Pending ==> {
            let fired = driver.polled(waker).0.delivered(sample);
            &&& fired.irq.fires()
            &&& fired.taken() == Some(waker)
            &&& executor.wake_opt(fired.taken()).is_ready(waker.task)
            &&& fired.interrupted().polled(waker).1 == Poll::Ready(sample)
        },
{
    lemma_wake_wf(executor, waker.task);
}

/// Giving up a running conversion issues the stop command once, and the
/// stop is not confirmed before the converter raises the stopped event.
pub proof fn law_cancel_blocks_until_stopped(driver: OneShotView)
    requires
        driver.wf(),
        driver.phase == Phase::Started,
    ensures
        driver.cancelled().regs.journal == driver.regs.journal + seq![
            Access::DisableInterrupt(Event::End),
            Access::ClearEvent(Event::Stopped),
            Access::TriggerTask(Task::Stop),
        ],
        triggers(driver.cancelled().regs.journal, Task::Stop) == triggers(
            driver.regs.journal,
            Task::Stop,
        ) + 1,
        driver.cancelled().phase == Phase::Stopping,
        driver.cancelled().stop_polled() == driver.cancelled(),
        driver.cancelled().raised(Event::Stopped).stop_polled().phase == Phase::CancelConfirmed,
        driver.cancelled().cancelled() == driver.cancelled(),
{
    let j0 = driver.regs.journal;
    let a1 = Access::DisableInterrupt(Event::End);
    let a2 = Access::ClearEvent(Event::Stopped);
    let a3 = Access::TriggerTask(Task::Stop);
    assert(driver.cancelled().regs.journal =~= j0 + seq![a1, a2, a3]);
    lemma_occurrences_push(j0, a1, a3);
    lemma_occurrences_push(j0.push(a1), a2, a3);
    lemma_occurrences_push(j0.push(a1).push(a2), a3, a3);
}

} // verus!
