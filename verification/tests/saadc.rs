use embassy::executor::{Executor, Poll, TaskState};
use embassy::gpio::Pin;
use embassy::interrupt::{Handler, Interrupt, Irq};
use embassy::operation::Phase;
use embassy::pac::saadc::{Access, ChannelConfig, Event, Task};
use embassy::pac::Fence;
use embassy::peripherals::{P0_02, P0_05, P0_31, SAADC};
use embassy::saadc::{
    Config, Gain, OneShot, Oversample, PositiveChannel, PositivePin, Reference, Resistor,
    Resolution, Sample, Time,
};
use embassy::util::Steal;

fn driver() -> OneShot<P0_05> {
    OneShot::new(SAADC::steal(), Interrupt::take(Irq::SAADC), P0_05::steal(), Config::default())
}

#[test]
fn default_config_values() {
    let config = Config::default();
    assert_eq!(config.resolution, Resolution::_14BIT);
    assert_eq!(config.oversample, Oversample::OVER8X);
    assert_eq!(config.reference, Reference::VDD1_4);
    assert_eq!(config.gain, Gain::GAIN1_4);
    assert_eq!(config.resistor, Resistor::BYPASS);
    assert_eq!(config.time, Time::_20US);
}

#[test]
fn positive_pins_map_to_their_inputs() {
    assert_eq!(P0_02::steal().channel(), PositiveChannel::ANALOGINPUT0);
    assert_eq!(P0_05::steal().channel(), PositiveChannel::ANALOGINPUT3);
    assert_eq!(P0_31::steal().channel(), PositiveChannel::ANALOGINPUT7);
    assert_eq!(P0_31::steal().pin_port(), 31);
    assert_eq!(P0_02::steal().degrade().pin_port, 2);
}

#[test]
fn new_configures_the_first_channel() {
    let adc = driver();
    let channel = ChannelConfig {
        reference: Reference::VDD1_4,
        gain: Gain::GAIN1_4,
        time: Time::_20US,
        resistor: Resistor::BYPASS,
        burst: true,
    };
    assert_eq!(
        adc.registers().journal().as_slice(),
        &[
            Access::Enable(true),
            Access::SetResolution(Resolution::_14BIT),
            Access::SetOversample(Oversample::OVER8X),
            Access::ConfigureChannel(channel),
            Access::SelectPositive(PositiveChannel::ANALOGINPUT3),
            Access::DisableAllInterrupts,
        ]
    );
    let bits = adc.registers().bits();
    assert!(bits.enabled);
    assert_eq!(bits.channel, channel);
    assert_eq!(bits.positive, PositiveChannel::ANALOGINPUT3);
    assert_eq!(adc.phase(), Phase::Idle);
    assert!(!adc.interrupt().enabled);
}

#[test]
fn burst_is_off_without_oversampling() {
    let mut config = Config::default();
    config.oversample = Oversample::BYPASS;
    let adc: OneShot<P0_02> =
        OneShot::new(SAADC::steal(), Interrupt::take(Irq::SAADC), P0_02::steal(), config);
    assert!(!adc.registers().bits().channel.burst);
    assert_eq!(adc.registers().bits().positive, PositiveChannel::ANALOGINPUT0);
}

#[test]
fn sample_yields_what_the_converter_delivered() {
    let mut executor = Executor::new(1);
    let waker = executor.spawn().unwrap();
    executor.take_ready();
    let mut adc = driver();
    adc.take_journal();

    adc.sample(0x2000_0400);
    assert_eq!(adc.phase(), Phase::Started);
    assert!(matches!(adc.poll_sample(&waker), Poll::Pending));
    assert_eq!(adc.interrupt().handler, Some(Handler::Wake(waker)));
    assert!(adc.interrupt().enabled);
    assert!(!adc.interrupt_fires());

    adc.deliver(-1234);
    assert!(adc.interrupt_fires());
    adc.on_interrupt(&mut executor);
    assert!(!adc.interrupt_fires());
    assert!(!adc.interrupt().enabled);
    assert_eq!(executor.state(waker.task), TaskState::Ready);

    assert!(matches!(adc.poll_sample(&waker), Poll::Ready(-1234)));
    assert_eq!(adc.phase(), Phase::Completed);
    assert!(!adc.registers().read_event(Event::End));
    assert_eq!(
        adc.take_journal(),
        vec![
            Access::SetDescriptor(0x2000_0400, 1),
            Access::ClearEvent(Event::End),
            Access::EnableInterrupt(Event::End),
            Access::Fence(Fence::WritesVisibleToHardware),
            Access::TriggerTask(Task::Start),
            Access::TriggerTask(Task::Sample),
            Access::ClearEvent(Event::End),
            Access::Fence(Fence::HardwareWritesVisible),
        ]
    );
    // The next conversion starts from the same place.
    adc.sample(0x2000_0400);
    adc.deliver(77);
    assert!(matches!(adc.poll_sample(&waker), Poll::Ready(77)));
}

#[test]
fn abandoned_conversion_is_stopped_and_awaited() {
    let mut adc = driver();
    adc.sample(0x2000_0400);
    adc.take_journal();
    assert!(adc.cancel_sample());
    assert!(!adc.stop_confirmed());
    assert!(!adc.stop_confirmed());
    adc.raise_event(Event::Stopped);
    assert!(adc.stop_confirmed());
    assert_eq!(adc.phase(), Phase::CancelConfirmed);
    assert_eq!(
        adc.take_journal(),
        vec![
            Access::DisableInterrupt(Event::End),
            Access::ClearEvent(Event::Stopped),
            Access::TriggerTask(Task::Stop),
        ]
    );
    assert!(!adc.cancel_sample());

    let mut adc = driver();
    adc.sample(0x2000_0400);
    assert_eq!(adc.cancel_and_wait(9), 9);
    assert_eq!(adc.phase(), Phase::CancelConfirmed);
}

#[test]
fn drop_switches_the_converter_off() {
    let adc = driver();
    let regs = adc.drop();
    assert!(!regs.bits().enabled);
    assert_eq!(regs.journal().last(), Some(&Access::Enable(false)));
}
