//! The CPU interface and the acknowledge/complete protocol.

use pynq_bsp::interrupt::InterruptPriority;
use pynq_bsp::interrupt::gic::Gic;
use pynq_bsp::interrupt::gic::InterruptSensitivity;
use pynq_bsp::interrupt::gic::InterruptTargets;
use pynq_bsp::interrupt::icc::Icc;
use pynq_bsp::interrupt::icc::InterruptAcknowledge;
use pynq_bsp::interrupt::icc::InterruptPriorityFilter;
use pynq_bsp::interrupt::irq_numbers::Irq;
use pynq_bsp::interrupt::irq_numbers::SgiIrq;
use pynq_bsp::interrupt::irq_numbers::SpiIrq;

#[test]
fn pl0_interrupt_lifecycle() {
    let mut gic = Gic::new();
    let mut icc = Icc::new();
    let pl0 = Irq::Spi(SpiIrq::Pl0);
    // Configure: enable SPI id 61, most urgent priority, target core 0,
    // edge sensitivity; then open the interface and the distributor.
    gic.toggle_interrupt(pl0, true);
    gic.set_interrupt_priority(pl0, InterruptPriority::Priority0);
    gic.set_shared_peripheral_interrupt_targets(SpiIrq::Pl0, InterruptTargets::Cpu0);
    gic.set_shared_peripheral_interrupt_sensitivity(SpiIrq::Pl0, InterruptSensitivity::Edge)
        .unwrap();
    icc.set_interrupt_priority_filter(InterruptPriorityFilter::AllowAll);
    icc.toggle(true);
    gic.toggle(true);
    // Raise and acknowledge.
    gic.toggle_interrupt_pending(pl0, true);
    let record = icc.acknowledge_interrupt(&mut gic).unwrap();
    assert_eq!(record, InterruptAcknowledge::Spi { spi: SpiIrq::Pl0 });
    assert!(gic.is_interrupt_active(pl0));
    assert!(!gic.is_interrupt_pending(pl0));
    // Complete with the very record the acknowledge returned.
    icc.complete_interrupt(&mut gic, record);
    assert!(!gic.is_interrupt_active(pl0));
    assert!(!gic.is_interrupt_pending(pl0));
    assert_eq!(icc.end_of_interrupt, 61);
    // Nothing further is signaled.
    assert!(icc.acknowledge_interrupt(&mut gic).is_err());
}

#[test]
fn nothing_is_signaled_while_a_block_is_disabled() {
    let mut gic = Gic::new();
    let mut icc = Icc::new();
    let pl0 = Irq::Spi(SpiIrq::Pl0);
    gic.toggle_interrupt(pl0, true);
    gic.set_shared_peripheral_interrupt_targets(SpiIrq::Pl0, InterruptTargets::Cpu0);
    icc.set_interrupt_priority_filter(InterruptPriorityFilter::AllowAll);
    gic.toggle_interrupt_pending(pl0, true);
    // Neither block enabled.
    assert!(icc.acknowledge_interrupt(&mut gic).is_err());
    gic.toggle(true);
    assert!(icc.acknowledge_interrupt(&mut gic).is_err());
    icc.toggle(true);
    gic.toggle(false);
    assert!(icc.acknowledge_interrupt(&mut gic).is_err());
    gic.toggle(true);
    assert!(icc.acknowledge_interrupt(&mut gic).is_ok());
}

#[test]
fn acknowledge_picks_the_most_urgent_then_the_lowest_id() {
    let mut gic = Gic::new();
    let mut icc = Icc::new();
    icc.toggle(true);
    gic.toggle(true);
    icc.set_interrupt_priority_filter(InterruptPriorityFilter::AllowAll);
    for spi in [SpiIrq::Gpio, SpiIrq::Uart0] {
        let irq = Irq::Spi(spi);
        gic.toggle_interrupt(irq, true);
        gic.set_shared_peripheral_interrupt_targets(spi, InterruptTargets::Cpu0);
        gic.toggle_interrupt_pending(irq, true);
    }
    gic.set_interrupt_priority(Irq::Spi(SpiIrq::Gpio), InterruptPriority::Priority9);
    gic.set_interrupt_priority(Irq::Spi(SpiIrq::Uart0), InterruptPriority::Priority2);
    // Uart0 (id 59) is more urgent than Gpio (id 52).
    let first = icc.acknowledge_interrupt(&mut gic).unwrap();
    assert_eq!(first, InterruptAcknowledge::Spi { spi: SpiIrq::Uart0 });
    icc.complete_interrupt(&mut gic, first);
    let second = icc.acknowledge_interrupt(&mut gic).unwrap();
    assert_eq!(second, InterruptAcknowledge::Spi { spi: SpiIrq::Gpio });
    icc.complete_interrupt(&mut gic, second);

    // Equal priorities: the lower id is served first.
    for spi in [SpiIrq::Gpio, SpiIrq::Uart0] {
        gic.toggle_interrupt_pending(Irq::Spi(spi), true);
        gic.set_interrupt_priority(Irq::Spi(spi), InterruptPriority::Priority9);
    }
    let tied = icc.acknowledge_interrupt(&mut gic).unwrap();
    assert_eq!(tied, InterruptAcknowledge::Spi { spi: SpiIrq::Gpio });
}

#[test]
fn routing_respects_the_target_bits() {
    let mut gic = Gic::new();
    let mut icc = Icc::new();
    icc.toggle(true);
    gic.toggle(true);
    icc.set_interrupt_priority_filter(InterruptPriorityFilter::AllowAll);
    let pl1 = Irq::Spi(SpiIrq::Pl1);
    gic.toggle_interrupt(pl1, true);
    gic.toggle_interrupt_pending(pl1, true);
    // Unrouted, then routed to the other core only: not signaled here.
    assert!(icc.acknowledge_interrupt(&mut gic).is_err());
    gic.set_shared_peripheral_interrupt_targets(SpiIrq::Pl1, InterruptTargets::Cpu1);
    assert!(icc.acknowledge_interrupt(&mut gic).is_err());
    gic.set_shared_peripheral_interrupt_targets(SpiIrq::Pl1, InterruptTargets::Both);
    assert!(icc.acknowledge_interrupt(&mut gic).is_ok());
}

#[test]
fn software_generated_interrupts_carry_the_requester() {
    let mut gic = Gic::new();
    let mut icc = Icc::new();
    icc.toggle(true);
    gic.toggle(true);
    icc.set_interrupt_priority_filter(InterruptPriorityFilter::AllowAll);
    let sgi = Irq::Sgi(SgiIrq::Sgi3);
    gic.toggle_interrupt(sgi, true);
    gic.toggle_interrupt_pending(sgi, true);
    let record = icc.acknowledge_interrupt(&mut gic).unwrap();
    // The model serves core 0, so the requester id reads as core 0.
    assert_eq!(record, InterruptAcknowledge::Sgi { sgi: SgiIrq::Sgi3, cpu_id: 0 });
    icc.complete_interrupt(&mut gic, record);
    assert_eq!(icc.end_of_interrupt, 3);
    assert!(!gic.is_interrupt_active(sgi));
}

#[test]
fn highest_pending_reads_without_side_effects() {
    let mut gic = Gic::new();
    let mut icc = Icc::new();
    icc.toggle(true);
    gic.toggle(true);
    icc.set_interrupt_priority_filter(InterruptPriorityFilter::AllowAll);
    let awdt = Irq::Ppi(pynq_bsp::interrupt::irq_numbers::PpiIrq::Awdt);
    gic.toggle_interrupt(awdt, true);
    gic.toggle_interrupt_pending(awdt, true);
    let peeked = icc.highest_pending_interrupt(&gic).unwrap();
    assert_eq!(peeked.as_u32(), 30);
    // Still pending: peeking must not acknowledge.
    assert!(gic.is_interrupt_pending(awdt));
    assert!(!gic.is_interrupt_active(awdt));
}

#[test]
fn interface_registers_and_identification() {
    let mut icc = Icc::new();
    icc.set_binary_point(5);
    assert_eq!(icc.get_binary_point(), 5);
    icc.set_non_secure_binary_point(2);
    assert_eq!(icc.get_non_secure_binary_point(), 2);
    icc.set_running_priority(InterruptPriority::Priority12);
    assert_eq!(icc.running_priority(), InterruptPriority::Priority12);
    let record = InterruptAcknowledge::Sgi { sgi: SgiIrq::Sgi1, cpu_id: 4 };
    icc.set_highest_pending_interrupt(record);
    assert_eq!(icc.highest_pending_interrupt, 1 + 4 * 0x400);
    assert_eq!(icc.implementer(), 0x43B);
    assert_eq!(icc.revision_number(), 2);
    assert_eq!(icc.architecture_version(), 1);
    assert_eq!(icc.part_number(), 0x390);
}
