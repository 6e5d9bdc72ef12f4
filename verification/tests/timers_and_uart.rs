//! Timer and UART register models.

use pynq_bsp::peripheral::timers::timer_global;
use pynq_bsp::peripheral::timers::timer_private;
use pynq_bsp::peripheral::timers::timer_ttc;
use pynq_bsp::peripheral::timers::timer_watchdog::private_watchdog_timer as watchdog;
use pynq_bsp::peripheral::uart;
use pynq_bsp::peripheral::slcr::Slcr;

#[test]
fn global_timer_counter_and_control() {
    let mut timer = timer_global::TimerGlobal::new();
    timer.toggle(true);
    timer.toggle_interrupt(true);
    timer.set_mode(timer_global::TimerMode::AutoReload);
    timer.set_prescaler(0x7F);
    assert!(timer.is_enabled());
    assert!(timer.is_interrupt_enabled());
    assert_eq!(timer.get_prescaler(), 0x7F);
    assert!(matches!(timer.get_mode(), timer_global::TimerMode::AutoReload));
    let control_before = timer.control;
    timer.set_count(timer_global::CounterValue { upper: 7, lower: 0x89AB_CDEF });
    // Writing the counter toggles the interrupt off and back on, so the
    // control register reads back unchanged.
    assert_eq!(timer.control, control_before);
    let count = timer.get_count();
    assert_eq!((count.upper, count.lower), (7, 0x89AB_CDEF));
    timer.interrupt_status = 1;
    assert!(timer.interrupt_status());
    timer.clear_interrupt();
    assert!(!timer.interrupt_status());
    assert_eq!(timer.reset(), Ok(()));
    assert_eq!(timer.control, 0);
}

#[test]
fn counter_value_adds_like_a_64_bit_counter() {
    let one = timer_global::CounterValue { upper: 0, lower: 0xFFFF_FFFF };
    let sum = one.wrapping_add(timer_global::CounterValue { upper: 0, lower: 1 });
    assert_eq!((sum.upper, sum.lower), (1, 0));
    let top = timer_global::CounterValue { upper: 0xFFFF_FFFF, lower: 0xFFFF_FFFF };
    let wrapped = top.wrapping_add(timer_global::CounterValue { upper: 0, lower: 1 });
    assert_eq!((wrapped.upper, wrapped.lower), (0, 0));
    let split = timer_global::CounterValue::from_u64(0x0000_0007_89AB_CDEF);
    assert_eq!((split.upper, split.lower), (7, 0x89AB_CDEF));
    let low = timer_global::CounterValue { upper: 1, lower: 5 };
    let high = timer_global::CounterValue { upper: 2, lower: 0 };
    assert!(low < high);
    assert!(high > low);
    assert_eq!(low, low);
}

#[test]
fn private_timer_and_watchdog_registers() {
    let mut timer = timer_private::TimerPrivate::new();
    timer.set_load(500);
    timer.set_count(123);
    timer.toggle(true);
    timer.set_mode(timer_private::TimerMode::AutoReload);
    timer.toggle_interrupt(true);
    timer.set_prescaler(3);
    assert_eq!(timer.get_load(), 500);
    assert_eq!(timer.get_count(), 123);
    assert_eq!(timer.control, 0b111 | (3 << 8));
    timer.interrupt_status = 1;
    timer.clear_interrupt();
    assert_eq!(timer.interrupt_status, 0);

    let mut dog = watchdog::PrivateWatchdogTimer::new();
    dog.set_load(9000);
    dog.set_count(42);
    dog.toggle(true);
    dog.set_reload_mode(watchdog::ReloadMode::AutoReload);
    dog.set_timer_mode(watchdog::TimerMode::WatchdogMode);
    assert_eq!(dog.control & 0b1011, 0b1011);
    dog.set_timer_mode(watchdog::TimerMode::TimerMode);
    assert_eq!(dog.control & 0b1000, 0);
    assert_eq!(dog.disable_watchdog, 0x8765_4321);
    dog.reset_status = 1;
    assert!(dog.read_reset_status());
    dog.clear_reset();
    assert!(!dog.read_reset_status());
}

#[test]
fn ttc_control_bits_and_active_low_enables() {
    let mut timer = timer_ttc::TTCTimer::new();
    // The power-on state holds the counter and waveform disabled, both
    // active low.
    assert!(!timer.counter_enabled());
    assert!(!timer.output_waveform_enabled());
    timer.toggle_counter(true);
    assert!(timer.counter_enabled());
    timer.toggle_output_waveform(true);
    assert!(timer.output_waveform_enabled());
    timer.set_mode(timer_ttc::TimerMode::Interval);
    timer.set_direction(timer_ttc::TimerDirection::Decrement);
    timer.toggle_match_mode(true);
    assert!(matches!(timer.get_mode(), timer_ttc::TimerMode::Interval));
    assert!(matches!(timer.get_direction(), timer_ttc::TimerDirection::Decrement));
    assert!(timer.match_mode_enabled());
    timer.set_prescaler(9);
    timer.toggle_prescaler(true);
    assert_eq!(timer.get_prescaler(), 9);
    assert!(timer.prescaler_enabled());
    timer.set_interval_value(0x1234);
    assert_eq!(timer.get_interval_value(), 0x1234);
    timer.set_match_value(timer_ttc::MatchIndex::Two, 77);
    assert_eq!(timer.get_match_value(timer_ttc::MatchIndex::Two), 77);
    assert_eq!(timer.get_match_value(timer_ttc::MatchIndex::One), 0);
    timer.toggle_all_interrupts(true);
    assert_eq!(timer.interrupt_enable, 0x3F);
    timer.toggle_all_interrupts(false);
    assert_eq!(timer.interrupt_enable, 0);
    // The interrupt status register is read-to-clear.
    timer.interrupt_status = 0b10_0001;
    let status = timer.clear_interrupt();
    assert!(status.interval_interrupt);
    assert!(status.event_timer_overflow_interrupt);
    assert!(!status.match_1_interrupt);
    assert_eq!(timer.interrupt_status, 0);
}

#[test]
fn ttc_interval_solver_stays_within_a_tenth() {
    for useconds in [100u32, 1_000, 10_000, 65_000] {
        let parameters = timer_ttc::Parameters::solve(useconds);
        assert!(parameters.prescaler < 16);
        let per_interval = parameters.useconds_per_interval().unwrap();
        let tolerance = useconds / 10;
        assert!(
            per_interval >= useconds - tolerance && per_interval <= useconds + tolerance,
            "{useconds} us solved to {per_interval} us"
        );
    }
}

#[test]
fn ttc_programs_the_solved_interval() {
    let mut timer = timer_ttc::TTCTimer::new();
    timer.set_interval_useconds(1_000).unwrap();
    let prescaler = timer.get_prescaler();
    let parameters = timer_ttc::Parameters {
        prescaler,
        interval_value: timer.get_interval_value(),
    };
    let per_interval = parameters.useconds_per_interval().unwrap();
    assert!(per_interval >= 900 && per_interval <= 1_100);
}

#[test]
fn ttc_rejects_an_unreachable_interval() {
    let mut timer = timer_ttc::TTCTimer::new();
    // The counter cannot stretch anywhere near ten seconds per interval.
    assert_eq!(timer.set_interval_useconds(10_000_000), Err(()));
    assert_eq!(timer.get_prescaler(), 0);
    assert_eq!(timer.get_interval_value(), 0);
}

#[test]
fn uart_mode_fields_round_trip() {
    let mut uart = uart::Uart::new(uart::DeviceIndex::Uart0);
    uart.set_clock_source(uart::ClockSource::UartRefClkDiv8);
    uart.set_character_length(uart::CharacterLength::Seven);
    uart.set_parity(uart::ParityType::Odd);
    uart.set_stop_bits(uart::StopBits::Two);
    uart.set_channel_mode(uart::ChannelMode::LocalLoopback);
    assert!(matches!(uart.get_clock_source(), uart::ClockSource::UartRefClkDiv8));
    assert_eq!(uart.get_character_length(), Ok(uart::CharacterLength::Seven));
    assert_eq!(uart.get_parity(), Ok(uart::ParityType::Odd));
    assert_eq!(uart.get_stop_bits(), Ok(uart::StopBits::Two));
    assert_eq!(uart.get_channel_mode(), Ok(uart::ChannelMode::LocalLoopback));
}

#[test]
fn uart_reserved_field_values_are_rejected() {
    assert_eq!(uart::CharacterLength::from_u32(0b01), Err(()));
    assert_eq!(uart::ParityType::from_u32(0b101), Err(()));
    assert_eq!(uart::StopBits::from_u32(0b11), Err(()));
    assert_eq!(uart::ChannelMode::from_u32(4), Err(()));
    let mut uart = uart::Uart::new(uart::DeviceIndex::Uart1);
    uart.mode = 0b10_1010;  // parity field reads 0b101
    assert_eq!(uart.get_parity(), Err(()));
    assert_eq!(uart.set_transmitter_fifo_trigger_value(64), Err(()));
    assert_eq!(uart.set_receiver_fifo_trigger_value(64), Err(()));
    assert_eq!(uart.set_receiver_fifo_trigger_value(63), Ok(()));
    assert_eq!(uart.get_receiver_fifo_trigger_value(), 63);
}

#[test]
fn uart_interrupts_and_status() {
    let mut uart = uart::Uart::new(uart::DeviceIndex::Uart0);
    let timeout = uart::Interrupt::Receiver(uart::ReceiverInterrupt::Timeout);
    uart.toggle_interrupt(timeout, true);
    assert!(uart.is_interrupt_enabled(timeout));
    uart.channel_interrupt_status = (1 << 8) | (1 << 3);
    let all = uart.read_unmasked_interrupt_causes();
    assert!(all.receiver_timeout && all.transmitter_fifo_empty);
    let enabled = uart.read_interrupt_causes();
    assert!(enabled.receiver_timeout && !enabled.transmitter_fifo_empty);
    uart.clear_interrupt(timeout);
    assert!(!uart.read_unmasked_interrupt_causes().receiver_timeout);
    uart.clear_all_interrupts();
    assert_eq!(uart.channel_interrupt_status, 0);
    // The receive path reads the FIFO window when data waits.
    assert_eq!(uart.try_receive_byte(), None);
    uart.channel_status = 0;
    uart.transmit_and_receive_fifo = 0x41;
    assert_eq!(uart.try_receive_byte(), Some(0x41));
    uart.channel_status = 1 << 1;
    assert_eq!(uart.try_receive_byte(), None);
}

#[test]
fn uart_configure_applies_the_default_configuration() {
    let mut slcr = Slcr::new();
    let mut uart = uart::Uart::new(uart::DeviceIndex::Uart1);
    assert!(slcr.is_system_level_configuration_registers_locked());
    uart.configure(&mut slcr).unwrap();
    assert!(!slcr.is_system_level_configuration_registers_locked());
    assert_eq!(slcr.amba_clock_control & (1 << 21), 1 << 21);
    assert_eq!(slcr.uart_clock_control & 0b10, 0b10);
    assert!(matches!(uart.get_clock_source(), uart::ClockSource::UartRefClk));
    assert_eq!(uart.get_character_length(), Ok(uart::CharacterLength::Eight));
    assert_eq!(uart.get_parity(), Ok(uart::ParityType::Disabled));
    assert_eq!(uart.get_stop_bits(), Ok(uart::StopBits::One));
    assert_eq!(uart.get_channel_mode(), Ok(uart::ChannelMode::Normal));
    assert_eq!(uart.channel_interrupt_status, 0);
    assert!(!uart.is_receiver_active());
}
