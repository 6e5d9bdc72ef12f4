//! Distributor register operations.

use pynq_bsp::interrupt::InterruptPriority;
use pynq_bsp::interrupt::gic::Gic;
use pynq_bsp::interrupt::gic::InterruptHandlingModel;
use pynq_bsp::interrupt::gic::InterruptSecurity;
use pynq_bsp::interrupt::gic::InterruptSensitivity;
use pynq_bsp::interrupt::gic::InterruptTargets;
use pynq_bsp::interrupt::gic::TargetListFilter;
use pynq_bsp::interrupt::irq_numbers::Irq;
use pynq_bsp::interrupt::irq_numbers::SgiIrq;
use pynq_bsp::interrupt::irq_numbers::SpiIrq;

#[test]
fn enable_pending_and_security_bits_are_per_interrupt() {
    let mut gic = Gic::new();
    let uart0 = Irq::Spi(SpiIrq::Uart0);
    let gpio = Irq::Spi(SpiIrq::Gpio);
    assert!(!gic.is_interrupt_enabled(uart0));
    gic.toggle_interrupt(uart0, true);
    assert!(gic.is_interrupt_enabled(uart0));
    assert!(!gic.is_interrupt_enabled(gpio), "a neighbour's enable bit moved");
    gic.toggle_interrupt(uart0, false);
    assert!(!gic.is_interrupt_enabled(uart0));

    gic.toggle_interrupt_pending(gpio, true);
    assert!(gic.is_interrupt_pending(gpio));
    assert!(!gic.is_interrupt_pending(uart0));
    assert!(!gic.is_interrupt_active(gpio));

    gic.set_interrupt_security(uart0, InterruptSecurity::NonSecure);
    assert_eq!(gic.interrupt_security[1], 1 << (59 - 32));
    gic.set_interrupt_security(uart0, InterruptSecurity::Secure);
    assert_eq!(gic.interrupt_security[1], 0);
}

#[test]
fn priority_set_and_read_round_trip() {
    let mut gic = Gic::new();
    let pl0 = Irq::Spi(SpiIrq::Pl0);
    let pl1 = Irq::Spi(SpiIrq::Pl1);
    gic.set_interrupt_priority(pl0, InterruptPriority::Priority17);
    gic.set_interrupt_priority(pl1, InterruptPriority::Priority3);
    assert_eq!(gic.read_interrupt_priority(pl0), InterruptPriority::Priority17);
    assert_eq!(gic.read_interrupt_priority(pl1), InterruptPriority::Priority3);
    // Ids 60 and 61 share a register; the fields must not clobber another.
    let can0 = Irq::Spi(SpiIrq::Can0);
    assert_eq!(gic.read_interrupt_priority(can0), InterruptPriority::Priority0);
    // The byte holds the level in its five significant bits.
    assert_eq!((gic.interrupt_priority[15] >> 8) & 0xFF, 17 << 3);
}

#[test]
fn target_set_and_read_round_trip() {
    let mut gic = Gic::new();
    gic.set_shared_peripheral_interrupt_targets(SpiIrq::Pl0, InterruptTargets::Both);
    gic.set_software_generated_interrupt_targets(SgiIrq::Sgi2, InterruptTargets::Cpu1);
    assert_eq!(
        gic.read_interrupt_targets(Irq::Spi(SpiIrq::Pl0)),
        InterruptTargets::Both
    );
    assert_eq!(
        gic.read_interrupt_targets(Irq::Sgi(SgiIrq::Sgi2)),
        InterruptTargets::Cpu1
    );
    assert_eq!(
        gic.read_interrupt_targets(Irq::Spi(SpiIrq::Pl1)),
        InterruptTargets::NoCpu
    );
}

#[test]
fn sensitivity_uses_the_odd_bit_of_each_pair() {
    let mut gic = Gic::new();
    gic.set_shared_peripheral_interrupt_sensitivity(SpiIrq::Cpu0, InterruptSensitivity::Edge)
        .unwrap();
    // Id 32 is pair 0 of register 2: the odd bit of the pair is bit 1.
    assert_eq!(gic.interrupt_configuration[2], 0b10);
    gic.set_shared_peripheral_interrupt_sensitivity(SpiIrq::Cpu0, InterruptSensitivity::Level)
        .unwrap();
    assert_eq!(gic.interrupt_configuration[2], 0);
    // The handling model lives in the even bit and is untouched by it.
    gic.toggle_interrupt_handling_model(Irq::Spi(SpiIrq::Cpu0), InterruptHandlingModel::OneToN);
    assert_eq!(gic.interrupt_configuration[2], 0b01);
    gic.set_shared_peripheral_interrupt_sensitivity(SpiIrq::Cpu0, InterruptSensitivity::Edge)
        .unwrap();
    assert_eq!(gic.interrupt_configuration[2], 0b11);
}

#[test]
fn default_sensitivities_set_level_plus_the_edge_minority() {
    let mut gic = Gic::new();
    // A stale edge setting of a shared interrupt must not survive the bulk
    // initialisation.
    gic.set_shared_peripheral_interrupt_sensitivity(SpiIrq::Pl9, InterruptSensitivity::Edge)
        .unwrap();
    gic.configure_sensitivities();
    // Shared-peripheral registers: level pattern with the edge bits of ids
    // 32, 33, 41, 55, 78 and 92 raised.
    assert_eq!(gic.interrupt_configuration[2], 0x555D_555F);
    assert_eq!(gic.interrupt_configuration[3], 0x5555_D555);
    assert_eq!(gic.interrupt_configuration[4], 0x7555_5555);
    assert_eq!(gic.interrupt_configuration[5], 0x5755_5555);
    // Every shared interrupt reads level except the fixed minority.
    for id in 32..=92u32 {
        if id == 36 {
            continue;
        }
        let spi = SpiIrq::from_u32(id).unwrap();
        let edge = matches!(id, 32 | 33 | 41 | 55 | 78 | 92);
        let pair_bit = 1u32 << ((id % 16) * 2 + 1);
        let register = gic.interrupt_configuration[(id / 16) as usize];
        assert_eq!(register & pair_bit != 0, edge, "sensitivity of id {}", spi.as_u32());
    }
    // The hardware-fixed software-generated and private banks are untouched.
    assert_eq!(gic.interrupt_configuration[0], 0);
    assert_eq!(gic.interrupt_configuration[1], 0);
}

#[test]
fn default_sensitivities_twice_equal_once() {
    let mut once = Gic::new();
    once.configure_sensitivities();
    let mut twice = Gic::new();
    twice.configure_sensitivities();
    twice.configure_sensitivities();
    assert_eq!(once.interrupt_configuration, twice.interrupt_configuration);
    // Also from a dirtied state the second run changes nothing more.
    let mut dirty = Gic::new();
    dirty.interrupt_configuration = [0xDEAD_BEEF; 6];
    dirty.configure_sensitivities();
    let after_once = dirty.interrupt_configuration;
    dirty.configure_sensitivities();
    assert_eq!(dirty.interrupt_configuration, after_once);
}

#[test]
fn software_interrupt_register_encodes_all_four_fields() {
    let mut gic = Gic::new();
    gic.generate_software_interrupt(SgiIrq::Sgi3, true, 0xAB, TargetListFilter::Option3);
    let register = gic.software_generated_interrupt;
    assert_eq!(register & 0xF, 3);
    assert_eq!((register >> 15) & 1, 1);
    assert_eq!((register >> 16) & 0xFF, 0xAB);
    assert_eq!((register >> 24) & 0b11, 0b10);
    // The filter bits are independent of the target mask's value.
    gic.generate_software_interrupt(SgiIrq::Sgi3, true, 0x00, TargetListFilter::Option3);
    assert_eq!((gic.software_generated_interrupt >> 24) & 0b11, 0b10);
    gic.generate_software_interrupt(SgiIrq::Sgi3, false, 0xFF, TargetListFilter::Option3);
    let register = gic.software_generated_interrupt;
    assert_eq!((register >> 24) & 0b11, 0b10);
    assert_eq!((register >> 15) & 1, 0);
    gic.generate_software_interrupt(SgiIrq::Sgi15, false, 0x01, TargetListFilter::Option2);
    let register = gic.software_generated_interrupt;
    assert_eq!(register & 0xF, 15);
    assert_eq!((register >> 24) & 0b11, 0b01);
}

#[test]
fn architecture_revision_comes_from_the_identification_register() {
    let gic = Gic::new();
    assert_eq!(gic.read_architecture_revision(), 1);
}
