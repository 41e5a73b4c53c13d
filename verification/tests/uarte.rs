use embassy::executor::{Executor, Poll, TaskState};
use embassy::gpio::{AnyPin, PinConf, PSEL_DISCONNECTED};
use embassy::interrupt::{Handler, Interrupt, Irq};
use embassy::operation::Phase;
use embassy::pac::uarte0::{Access, Channel, Event, Faults, Signal, Task};
use embassy::pac::Fence;
use embassy::peripherals::{UARTE0, UARTE1};
use embassy::target_constants::EASY_DMA_SIZE;
use embassy::uarte::{Baudrate, Config, Error, Parity, State, Uarte};
use embassy::util::Steal;

fn driver() -> Uarte<UARTE0> {
    Uarte::new(
        UARTE0::steal(),
        Interrupt::take(Irq::UARTE0_UART0),
        AnyPin::new(8),
        AnyPin::new(6),
        None::<AnyPin>,
        None::<AnyPin>,
        Config::default(),
    )
}

fn no_faults() -> Faults {
    Faults { framing: false, parity: false, overrun: false }
}

fn count(journal: &[Access], access: Access) -> usize {
    journal.iter().filter(|a| **a == access).count()
}

#[test]
fn default_config_is_115200_without_parity() {
    let config = Config::default();
    assert_eq!(config.baudrate, Baudrate::Baud115200);
    assert_eq!(config.parity, Parity::Excluded);
}

#[test]
fn state_new_has_empty_slots() {
    let mut executor = Executor::new(1);
    let waker = executor.spawn().unwrap();
    executor.take_ready();
    let mut state = State::new();
    state.endrx_waker.wake(&mut executor);
    state.endtx_waker.wake(&mut executor);
    assert_eq!(executor.state(waker.task), TaskState::Suspended);
}

#[test]
fn new_configures_registers_pins_and_line() {
    let uarte = driver();
    let bits = uarte.registers().bits();
    assert!(bits.enabled);
    assert_eq!(bits.psel_rxd, 8);
    assert_eq!(bits.psel_txd, 6);
    assert_eq!(bits.psel_cts, PSEL_DISCONNECTED);
    assert_eq!(bits.psel_rts, PSEL_DISCONNECTED);
    assert!(!bits.hwfc);
    assert_eq!(bits.parity, Parity::Excluded);
    assert_eq!(bits.baudrate, Baudrate::Baud115200);
    assert_eq!(
        uarte.registers().journal().as_slice(),
        &[
            Access::SelectPin(Signal::Rxd, 8),
            Access::SelectPin(Signal::Txd, 6),
            Access::SelectPin(Signal::Cts, PSEL_DISCONNECTED),
            Access::SelectPin(Signal::Rts, PSEL_DISCONNECTED),
            Access::Configure(false, Parity::Excluded),
            Access::SetBaudrate(Baudrate::Baud115200),
            Access::DisableAllInterrupts,
            Access::ClearEvent(Event::RxStarted),
            Access::ClearEvent(Event::TxStarted),
            Access::Enable(true),
        ]
    );
    let line = uarte.interrupt();
    assert_eq!(line.handler, Some(Handler::Uarte));
    assert!(line.enabled);
    assert!(!line.pending);
    let (rxd, txd, cts, rts) = uarte.pins();
    assert_eq!(rxd.conf, PinConf { output: false, input_connected: true, high_drive: true });
    assert_eq!(txd.conf, PinConf { output: true, input_connected: false, high_drive: true });
    assert!(txd.high);
    assert_eq!((cts, rts), (None, None));
    assert_eq!(uarte.phase(Channel::Rx), Phase::Idle);
    assert_eq!(uarte.phase(Channel::Tx), Phase::Idle);
}

#[test]
fn new_with_flow_control_sets_both_pins_up() {
    let mut config = Config::default();
    config.parity = Parity::Included;
    config.baudrate = Baudrate::Baud9600;
    let uarte: Uarte<UARTE1> = Uarte::new(
        UARTE1::steal(),
        Interrupt::take(Irq::UARTE1),
        AnyPin::new(1),
        AnyPin::new(2),
        Some(AnyPin::new(3)),
        Some(AnyPin::new(4)),
        config,
    );
    let bits = uarte.registers().bits();
    assert!(bits.hwfc);
    assert_eq!(bits.parity, Parity::Included);
    assert_eq!(bits.baudrate, Baudrate::Baud9600);
    assert_eq!((bits.psel_cts, bits.psel_rts), (3, 4));
    let (_, _, cts, rts) = uarte.pins();
    assert!(cts.unwrap().conf.input_connected);
    let rts = rts.unwrap();
    assert!(rts.conf.output && rts.high);
}

#[test]
fn scenario_a_write_of_four_bytes_succeeds() {
    let mut executor = Executor::new(1);
    let waker = executor.spawn().unwrap();
    executor.take_ready();
    let mut uarte = driver();
    uarte.take_journal();

    assert_eq!(uarte.write(0x2000_0100, 4), Ok(()));
    assert_eq!(uarte.phase(Channel::Tx), Phase::Started);
    assert_eq!(uarte.registers().bits().txd.maxcnt, 4);
    assert_eq!(uarte.registers().bits().txd.ptr, 0x2000_0100);
    assert!(matches!(uarte.poll_write(&waker), Poll::Pending));
    assert!(!uarte.interrupt_fires());

    // The last byte has left: the peripheral raises the end event.
    uarte.raise_event(Event::TxStarted);
    uarte.raise_event(Event::EndTx);
    assert!(uarte.interrupt_fires());
    uarte.on_interrupt(&mut executor);
    assert!(!uarte.interrupt_fires());
    assert_eq!(executor.state(waker.task), TaskState::Ready);

    assert_eq!(executor.take_ready(), vec![waker.task]);
    assert!(matches!(uarte.poll_write(&waker), Poll::Ready(Ok(()))));
    assert_eq!(uarte.phase(Channel::Tx), Phase::Completed);
    let journal = uarte.take_journal();
    assert_eq!(count(&journal, Access::SetDescriptor(Channel::Tx, 0x2000_0100, 4)), 1);
    assert_eq!(
        journal,
        vec![
            Access::SetDescriptor(Channel::Tx, 0x2000_0100, 4),
            Access::ClearEvent(Event::EndTx),
            Access::EnableInterrupt(Event::EndTx),
            Access::Fence(Fence::WritesVisibleToHardware),
            Access::TriggerTask(Task::StartTx),
            Access::DisableInterrupt(Event::EndTx),
            Access::Fence(Fence::HardwareWritesVisible),
            Access::ClearEvent(Event::TxStarted),
            Access::ClearFaults,
        ]
    );
}

#[test]
fn scenario_b_dropped_read_stops_and_blocks_until_stopped() {
    let mut executor = Executor::new(1);
    let waker = executor.spawn().unwrap();
    executor.take_ready();
    let mut uarte = driver();
    assert_eq!(uarte.read(0x2000_0000, 16), Ok(()));
    uarte.raise_event(Event::RxStarted);
    assert!(matches!(uarte.poll_read(&waker), Poll::Pending));
    uarte.take_journal();

    assert!(uarte.cancel_read());
    assert_eq!(uarte.phase(Channel::Rx), Phase::Stopping);
    for _ in 0..5 {
        assert!(!uarte.stop_confirmed(Channel::Rx));
        assert_eq!(uarte.phase(Channel::Rx), Phase::Stopping);
    }
    uarte.raise_event(Event::EndRx);
    assert!(uarte.stop_confirmed(Channel::Rx));
    assert_eq!(uarte.phase(Channel::Rx), Phase::CancelConfirmed);

    let journal = uarte.take_journal();
    assert_eq!(count(&journal, Access::TriggerTask(Task::StopRx)), 1);
    assert_eq!(
        journal,
        vec![
            Access::DisableInterrupt(Event::EndRx),
            Access::ClearEvent(Event::RxTo),
            Access::TriggerTask(Task::StopRx),
        ]
    );
    // Giving it up once more does nothing.
    assert!(!uarte.cancel_read());
    assert!(uarte.take_journal().is_empty());
}

#[test]
fn blocking_cancel_returns_after_the_given_number_of_polls() {
    let mut uarte = driver();
    assert_eq!(uarte.read(0x2000_0000, 16), Ok(()));
    assert_eq!(uarte.cancel_and_wait(Channel::Rx, 0), 0);
    assert_eq!(uarte.phase(Channel::Rx), Phase::CancelConfirmed);

    let mut uarte = driver();
    assert_eq!(uarte.write(0x2000_0000, 16), Ok(()));
    uarte.take_journal();
    assert_eq!(uarte.cancel_and_wait(Channel::Tx, 37), 37);
    assert_eq!(uarte.phase(Channel::Tx), Phase::CancelConfirmed);
    assert!(uarte.registers().read_event(Event::EndTx));
    assert_eq!(
        uarte.take_journal(),
        vec![
            Access::DisableInterrupt(Event::EndTx),
            Access::ClearEvent(Event::TxStopped),
            Access::TriggerTask(Task::StopTx),
        ]
    );
}

#[test]
fn length_at_the_limit_is_accepted() {
    let mut uarte = driver();
    assert_eq!(EASY_DMA_SIZE, 65535);
    assert_eq!(uarte.read(0x2000_0000, EASY_DMA_SIZE), Ok(()));
    assert_eq!(uarte.registers().bits().rxd.maxcnt, 65535);
    let mut uarte = driver();
    assert_eq!(uarte.write(0x2000_0000, 0), Ok(()));
    assert_eq!(uarte.registers().bits().txd.maxcnt, 0);
}

#[test]
fn length_over_the_limit_touches_nothing() {
    let mut uarte = driver();
    uarte.take_journal();
    let before = uarte.registers().bits();
    assert_eq!(uarte.read(0x2000_0000, EASY_DMA_SIZE + 1), Err(Error::Length));
    assert_eq!(uarte.write(0x2000_0000, usize::MAX), Err(Error::Length));
    assert!(uarte.registers().journal().is_empty());
    assert_eq!(uarte.registers().bits(), before);
    assert_eq!(uarte.phase(Channel::Rx), Phase::Idle);
    assert_eq!(uarte.phase(Channel::Tx), Phase::Idle);
    assert!(!uarte.cancel_read());
}

fn read_with(faults: Faults) -> Poll<Result<(), Error>> {
    let mut executor = Executor::new(1);
    let waker = executor.spawn().unwrap();
    let mut uarte = driver();
    assert_eq!(uarte.read(0x2000_0000, 8), Ok(()));
    uarte.report_faults(faults);
    uarte.raise_event(Event::EndRx);
    let poll = uarte.poll_read(&waker);
    // The faults were read and cleared.
    assert_eq!(uarte.registers().bits().errorsrc, no_faults());
    poll
}

#[test]
fn faults_are_the_outcome_of_the_transfer() {
    assert!(matches!(read_with(no_faults()), Poll::Ready(Ok(()))));
    assert!(matches!(
        read_with(Faults { overrun: true, ..no_faults() }),
        Poll::Ready(Err(Error::Overrun))
    ));
    assert!(matches!(
        read_with(Faults { parity: true, overrun: true, ..no_faults() }),
        Poll::Ready(Err(Error::Parity))
    ));
    assert!(matches!(
        read_with(Faults { framing: true, parity: true, overrun: true }),
        Poll::Ready(Err(Error::Framing))
    ));
}

#[test]
fn event_before_the_first_poll_is_not_missed() {
    let mut executor = Executor::new(1);
    let waker = executor.spawn().unwrap();
    executor.take_ready();
    let mut uarte = driver();
    assert_eq!(uarte.read(0x2000_0000, 8), Ok(()));
    uarte.raise_event(Event::EndRx);
    uarte.on_interrupt(&mut executor);
    // Nobody was registered yet, and the handler left the event raised.
    assert_eq!(executor.state(waker.task), TaskState::Suspended);
    assert!(uarte.registers().read_event(Event::EndRx));
    assert!(matches!(uarte.poll_read(&waker), Poll::Ready(Ok(()))));
}

#[test]
fn handler_serves_only_what_is_raised() {
    let mut executor = Executor::new(2);
    let rx = executor.spawn().unwrap();
    let tx = executor.spawn().unwrap();
    executor.take_ready();
    let mut uarte = driver();
    assert_eq!(uarte.read(0x2000_0000, 8), Ok(()));
    assert_eq!(uarte.write(0x2000_0100, 8), Ok(()));
    assert!(matches!(uarte.poll_read(&rx), Poll::Pending));
    assert!(matches!(uarte.poll_write(&tx), Poll::Pending));
    uarte.take_journal();
    uarte.raise_event(Event::EndTx);
    uarte.on_interrupt(&mut executor);
    assert_eq!(executor.state(rx.task), TaskState::Suspended);
    assert_eq!(executor.state(tx.task), TaskState::Ready);
    assert_eq!(uarte.take_journal(), vec![Access::DisableInterrupt(Event::EndTx)]);
    assert!(uarte.registers().bits().inten.endrx);
    assert!(!uarte.registers().bits().inten.endtx);
}

#[test]
fn drop_waits_for_a_channel_that_was_stopped_midway() {
    let mut uarte = driver();
    assert_eq!(uarte.read(0x2000_0000, 16), Ok(()));
    uarte.raise_event(Event::RxStarted);
    assert_eq!(uarte.cancel_and_wait(Channel::Rx, 2), 2);
    uarte.take_journal();
    uarte.begin_drop();
    assert!(!uarte.at_rest());
    uarte.raise_event(Event::RxTo);
    assert!(uarte.interrupt_fires());
    assert!(uarte.at_rest());
    let regs = uarte.drop();
    assert!(!regs.bits().enabled);
    assert_eq!(
        regs.journal().as_slice(),
        &[
            Access::EnableInterrupt(Event::RxTo),
            Access::EnableInterrupt(Event::TxStopped),
            Access::Enable(false),
        ]
    );
}

#[test]
fn drop_of_an_idle_driver_does_not_wait() {
    let mut executor = Executor::new(1);
    let waker = executor.spawn().unwrap();
    let mut uarte = driver();
    assert!(!uarte.at_rest());
    assert_eq!(uarte.write(0x2000_0000, 1), Ok(()));
    uarte.raise_event(Event::TxStarted);
    uarte.raise_event(Event::EndTx);
    assert!(matches!(uarte.poll_write(&waker), Poll::Ready(Ok(()))));
    uarte.begin_drop();
    assert!(uarte.at_rest());
    assert!(!uarte.drop().bits().enabled);
}
