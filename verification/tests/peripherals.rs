//! Peripheral register models.

use pynq_bsp::peripheral::axi;
use pynq_bsp::peripheral::gpio;
use pynq_bsp::peripheral::led::LedIndex;
use pynq_bsp::peripheral::led::Leds;
use pynq_bsp::peripheral::led::rgb::RgbLed;
use pynq_bsp::peripheral::led::rgb::RgbLeds;
use pynq_bsp::peripheral::slcr::AmbaClockControl;
use pynq_bsp::peripheral::slcr::Cpu;
use pynq_bsp::peripheral::slcr::ResetCpuCommand;
use pynq_bsp::peripheral::slcr::Slcr;
use pynq_bsp::peripheral::slcr::WatchdogIndex;
use pynq_bsp::peripheral::slcr::WatchdogResetTarget;

#[test]
fn gpio_pins_map_to_their_banks() {
    let mut gpio = gpio::Gpio::new();
    gpio.set_mio_direction(7, gpio::PinDirection::Output);
    assert_eq!(gpio.banks[0].direction_mode, 1 << 7);
    gpio.set_mio_direction(33, gpio::PinDirection::Output);
    assert_eq!(gpio.banks[1].direction_mode, 1 << 1);
    gpio.set_emio_direction(33, gpio::PinDirection::Output);
    assert_eq!(gpio.banks[3].direction_mode, 1 << 1);
    gpio.set_mio_direction(7, gpio::PinDirection::Input);
    assert_eq!(gpio.banks[0].direction_mode, 0);
    // Inputs read whatever the pins drive into the input register.
    gpio.banks[0].input_data = 1 << 9;
    assert!(gpio.read_mio_input(9));
    assert!(!gpio.read_mio_input(10));
    gpio.banks[2].input_data = 1 << 4;
    assert!(gpio.read_emio_input(4));
    // Interrupt enable and disable are write-one command registers.
    gpio.toggle_mio_interrupt(3, true);
    assert_eq!(gpio.banks[0].interrupt_enable, 1 << 3);
    gpio.toggle_mio_interrupt(3, false);
    assert_eq!(gpio.banks[0].interrupt_disable, 1 << 3);
    gpio.set_mio_interrupt_type(3, gpio::InterruptType::Edge);
    gpio.set_mio_interrupt_polarity(3, gpio::InterruptPolarity::ActiveHighOrRisingEdge);
    gpio.set_mio_edge_triggering_mode(3, gpio::InterruptEdgeTriggeringMode::Both);
    assert_eq!(gpio.banks[0].interrupt_type, 1 << 3);
    assert_eq!(gpio.banks[0].interrupt_polarity, 1 << 3);
    assert_eq!(gpio.banks[0].interrupt_any_edge_sensitive, 1 << 3);
}

#[test]
fn axi_channel_checks_width_and_direction() {
    let mut channel = axi::Channel::new(0x4120_0000, 0x4120_0004, 8);
    assert_eq!(channel.width(), 8);
    assert_eq!(channel.pin_direction(8), Err(()));
    assert_eq!(channel.pin_direction(0), Ok(axi::PinDirection::Output));
    assert_eq!(channel.write_pin(3, true), Ok(()));
    assert_eq!(channel.data, 1 << 3);
    assert_eq!(channel.read_pin(3), Err(()), "an output pin must not read");
    channel.set_pin_direction(3, axi::PinDirection::Input).unwrap();
    assert_eq!(channel.read_pin(3), Ok(true));
    assert_eq!(
        channel.write_pin(3, false),
        Err("can not write to input pin")
    );
    assert_eq!(
        channel.write_pin(8, false),
        Err("given pin does not exist")
    );
    channel.reset();
    assert_eq!(channel.control, 0);
}

#[test]
fn axi_interrupt_mechanism_rejects_a_missing_channel() {
    let mut single = axi::InterruptMechanism::new(axi::Channels::Single);
    assert_eq!(
        single.is_channel_interrupts_enabled(axi::ChannelIndex::Channel2),
        Err(())
    );
    assert_eq!(
        single.toggle_channel_interrupts(axi::ChannelIndex::Channel2, true),
        Err(())
    );
    assert_eq!(
        single.is_channel_interrupts_enabled(axi::ChannelIndex::Channel1),
        Ok(false)
    );
    let mut dual = axi::InterruptMechanism::new(axi::Channels::Dual);
    dual.toggle_channel_interrupts(axi::ChannelIndex::Channel2, true).unwrap();
    assert_eq!(
        dual.is_channel_interrupts_enabled(axi::ChannelIndex::Channel2),
        Ok(true)
    );
    dual.toggle_interrupts(true);
    assert!(dual.is_interrupts_enabled());
    dual.ip_interrupt_status = 0b10;
    assert_eq!(
        dual.read_channel_interrupt_status(axi::ChannelIndex::Channel2),
        Ok(true)
    );
    dual.clear_channel_interrupt(axi::ChannelIndex::Channel2).unwrap();
    assert_eq!(
        dual.read_channel_interrupt_status(axi::ChannelIndex::Channel2),
        Ok(false)
    );
}

#[test]
fn axi_controller_lays_out_its_registers() {
    let controller = axi::AxiGpio::new(0x4120_0000, axi::Channels::Dual, true, 8);
    assert_eq!(controller.address_base(), 0x4120_0000);
    assert_eq!(controller.channel_1().address_data(), 0x4120_0000);
    assert_eq!(controller.channel_1().address_control(), 0x4120_0004);
    let channel_2 = controller.channel_2().as_ref().unwrap();
    assert_eq!(channel_2.address_data(), 0x4120_0008);
    assert_eq!(channel_2.address_control(), 0x4120_000C);
    assert!(controller.interrupt_mechanism().is_some());
    let bare = axi::AxiGpio::new(0x4120_0000, axi::Channels::Single, false, 4);
    assert!(bare.channel_2().is_none());
    assert!(bare.interrupt_mechanism().is_none());
}

#[test]
fn leds_configure_by_bit_order() {
    let leds = Leds::configure(
        0x4120_0000,
        [LedIndex::Led2, LedIndex::Led0, LedIndex::Led3, LedIndex::Led1],
    );
    assert_eq!(leds.get_led(LedIndex::Led0).index, 1);
    assert_eq!(leds.get_led(LedIndex::Led1).index, 3);
    assert_eq!(leds.get_led(LedIndex::Led2).index, 0);
    assert_eq!(leds.get_led(LedIndex::Led3).index, 2);
    let mut leds = leds;
    leds.toggle_led(LedIndex::Led1, true);
    assert!(leds.get_led(LedIndex::Led1).lit);
    assert!(!leds.get_led(LedIndex::Led0).lit);
    leds.toggle_all(true);
    assert!(leds.leds.iter().all(|led| led.lit));
    leds.toggle_all(false);
    assert!(leds.leds.iter().all(|led| !led.lit));
}

#[test]
fn rgb_leds_toggle_their_channels() {
    let mut led = RgbLed::new([0x10, 0x14, 0x18], [1, 2, 3]);
    assert_eq!(led.addresses(), [0x10, 0x14, 0x18]);
    assert_eq!(led.indices(), [1, 2, 3]);
    led.toggle(true, false, true);
    assert!(led.lit_red && !led.lit_green && led.lit_blue);
    led.toggle_green(true);
    assert!(led.lit_green);
    led.clear();
    assert!(!led.lit_red && !led.lit_green && !led.lit_blue);
    led.toggle_blue(true);
    let mut pair = RgbLeds::new([led, led]);
    pair.clear();
    assert!(!pair.leds[0].lit_blue && !pair.leds[1].lit_blue);
}

#[test]
fn slcr_locks_clocks_and_resets() {
    let mut slcr = Slcr::new();
    assert!(slcr.is_system_level_configuration_registers_locked());
    slcr.toggle_system_level_configuration_registers(false);
    assert!(!slcr.is_system_level_configuration_registers_locked());
    assert_eq!(slcr.write_protection_unlock & 0xFFFF, 0xDF0D);
    slcr.toggle_system_level_configuration_registers(true);
    assert!(slcr.is_system_level_configuration_registers_locked());
    assert_eq!(slcr.write_protection_lock & 0xFFFF, 0x767B);

    assert!(!slcr.is_secure_configuration_registers_locked());
    slcr.lock_secure_configuration_registers();
    assert!(slcr.is_secure_configuration_registers_locked());

    slcr.toggle_amba_clocks(AmbaClockControl::Uart1, true);
    assert_eq!(slcr.amba_clock_control, 1 << 21);
    slcr.toggle_uart_0_reference_clock(true);
    assert_eq!(slcr.uart_clock_control, 1);

    let command = ResetCpuCommand::new()
        .toggle_reset_cpu(Cpu::Cpu1, true)
        .toggle_stop_cpu(Cpu::Cpu1, true)
        .reset_cpu_peripherals(true);
    slcr.reset_mut().reset_cpu(command);
    assert_eq!(
        slcr.reset().cpu_reset_and_clock_control,
        (1 << 1) | (1 << 5) | (1 << 8)
    );
    slcr.reset_mut().set_watchdog_reset_target(WatchdogIndex::Watchdog1, WatchdogResetTarget::Cpu);
    assert_eq!(slcr.reset().watchdog_timer_reset_control, 0b10);
    slcr.reset_mut().reset_uart(
        pynq_bsp::peripheral::uart::DeviceIndex::Uart0,
        true,
        true,
    );
    assert_eq!(slcr.reset().uart_reset_control, 0);
}

#[test]
fn slcr_decodes_status_registers() {
    let mut slcr = Slcr::new();
    slcr.reset.reboot_status = (0xA5 << 24) | (1 << 22) | (1 << 16) | 0x1234;
    let status = slcr.reset().reboot_status();
    assert_eq!(status.bootrom_error_code, 0x1234);
    assert!(status.watchdog_timeout);
    assert!(!status.watchdog0);
    assert!(status.power_on_reset);
    assert_eq!(status.reboot_state, 0xA5);
    slcr.reset.boot_mode = 0b1_0110;
    let boot = slcr.reset().boot_mode();
    assert_eq!(boot.boot_mode, 0b0110);
    assert!(boot.pll_bypass);
}
