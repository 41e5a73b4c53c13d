use embassy::chip::nrf::{Args, HfclkSource, LfclkSource};
use embassy::executor::{Executor, TaskState};
use embassy::gpio::{psel_bits, AnyPin, PinConf, PSEL_DISCONNECTED};
use embassy::interrupt::{irq_wake_handler, wake_on_interrupt, Handler, Interrupt, Irq};
use embassy::pac::uarte0::{Access, Baudrate, Event, RegisterBlock};
use embassy::spi::{ByteOrder, Config, Error, Mode, Phase, Polarity};
use embassy::util::Unborrow;

#[test]
fn clock_source_names() {
    assert_eq!(HfclkSource::Internal.name(), "Internal");
    assert_eq!(HfclkSource::ExternalXtal.name(), "ExternalXtal");
    assert_eq!(LfclkSource::InternalRC.name(), "InternalRC");
    assert_eq!(LfclkSource::Synthesized.name(), "Synthesized");
    assert_eq!(LfclkSource::ExternalXtal.name(), "ExternalXtal");
    assert_eq!(LfclkSource::ExternalLowSwing.name(), "ExternalLowSwing");
    assert_eq!(LfclkSource::ExternalFullSwing.name(), "ExternalFullSwing");
}

#[test]
fn default_args_use_the_internal_clocks() {
    let args = Args::default();
    assert_eq!(args.embassy_prefix, "");
    assert_eq!(args.hfclk_source, HfclkSource::Internal);
    assert_eq!(args.lfclk_source, LfclkSource::InternalRC);
    assert_eq!(HfclkSource::default(), HfclkSource::Internal);
    assert_eq!(LfclkSource::default(), LfclkSource::InternalRC);
}

#[test]
fn spi_defaults() {
    let config = Config::default();
    assert_eq!(config.mode, Mode::mode_0());
    assert_eq!(
        config.mode,
        Mode { polarity: Polarity::IdleLow, phase: Phase::CaptureOnFirstTransition }
    );
    assert_eq!(config.byte_order, ByteOrder::MsbFirst);
    assert_ne!(Error::Crc, Error::ModeFault);
}

#[test]
fn pins_are_configured_in_place() {
    let mut pin = AnyPin::new(13);
    assert_eq!(pin.psel_bits(), 13);
    assert_eq!(pin.conf, PinConf { output: false, input_connected: false, high_drive: false });
    pin.into_output_high();
    assert!(pin.high && pin.conf.output);
    pin.set_low();
    assert!(!pin.high);
    pin.into_input();
    assert!(pin.conf.input_connected && !pin.conf.output);
    assert_eq!(psel_bits(&Some(pin)), 13);
    assert_eq!(psel_bits(&None), PSEL_DISCONNECTED);
    assert_eq!(pin.unborrow(), pin);
}

#[test]
fn interrupt_line_wakes_its_task_once() {
    let mut executor = Executor::new(1);
    let waker = executor.spawn().unwrap();
    executor.take_ready();
    let mut line = Interrupt::take(Irq::SAADC);
    assert_eq!(line.number(), Irq::SAADC);
    assert!(!line.fires());
    line.pend();
    assert!(!line.fires());
    wake_on_interrupt(&mut line, &waker);
    assert_eq!(line.state().handler, Some(Handler::Wake(waker)));
    assert!(line.fires());
    irq_wake_handler(&mut line, &mut executor);
    assert!(!line.fires());
    assert!(!line.state().enabled);
    assert_eq!(executor.state(waker.task), TaskState::Ready);
}

#[test]
fn register_block_keeps_a_journal() {
    let mut regs = RegisterBlock::reset();
    assert_eq!(regs.bits().baudrate, Baudrate::Baud250000);
    assert!(!regs.interrupt_asserted());
    regs.enable_interrupt(Event::RxTo);
    regs.raise_event(Event::RxTo);
    assert!(regs.interrupt_asserted());
    assert!(regs.silence(Event::RxTo));
    assert!(!regs.silence(Event::EndRx));
    assert!(!regs.interrupt_asserted());
    regs.clear_event(Event::RxTo);
    assert!(!regs.read_event(Event::RxTo));
    assert_eq!(
        regs.take_journal(),
        vec![
            Access::EnableInterrupt(Event::RxTo),
            Access::DisableInterrupt(Event::RxTo),
            Access::ClearEvent(Event::RxTo),
        ]
    );
    assert!(regs.journal().is_empty());
}
