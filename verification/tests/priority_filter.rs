//! The priority filter admits exactly the sufficiently urgent priorities.

use pynq_bsp::interrupt::InterruptPriority;
use pynq_bsp::interrupt::gic::Gic;
use pynq_bsp::interrupt::gic::InterruptTargets;
use pynq_bsp::interrupt::icc::Icc;
use pynq_bsp::interrupt::icc::InterruptPriorityFilter;
use pynq_bsp::interrupt::irq_numbers::Irq;
use pynq_bsp::interrupt::irq_numbers::SpiIrq;

fn all_priorities() -> Vec<InterruptPriority> {
    (0..32u8).map(|level| InterruptPriority::from_u8(level * 8)).collect()
}

/// Whether an interrupt of the given priority reaches the interface under
/// the given filter, observed through the acknowledge protocol.
fn reaches_core(filter: InterruptPriorityFilter, priority: InterruptPriority) -> bool {
    let mut gic = Gic::new();
    let mut icc = Icc::new();
    let irq = Irq::Spi(SpiIrq::Pl3);
    gic.toggle(true);
    icc.toggle(true);
    gic.toggle_interrupt(irq, true);
    gic.set_interrupt_priority(irq, priority);
    gic.set_shared_peripheral_interrupt_targets(SpiIrq::Pl3, InterruptTargets::Cpu0);
    icc.set_interrupt_priority_filter(filter);
    gic.toggle_interrupt_pending(irq, true);
    icc.acknowledge_interrupt(&mut gic).is_ok()
}

#[test]
fn priority_bytes_hold_the_five_significant_bits() {
    for (level, priority) in all_priorities().iter().enumerate() {
        assert_eq!(priority.as_u8(), (level as u8) * 8);
        assert_eq!(InterruptPriority::from_u8((level as u8) * 8), *priority);
    }
}

#[test]
fn filter_bytes_encode_the_threshold() {
    assert_eq!(InterruptPriorityFilter::AllowNone.as_u8(), 0);
    assert_eq!(InterruptPriorityFilter::AllowAll.as_u8(), 0xFF);
    let some = InterruptPriorityFilter::AllowSome { lowest_allowed: InterruptPriority::Priority5 };
    assert_eq!(some.as_u8(), 41);
}

#[test]
fn allow_some_accepts_bound_and_everything_more_urgent() {
    let lowest = InterruptPriority::Priority5;
    let filter = InterruptPriorityFilter::AllowSome { lowest_allowed: lowest };
    for (level, priority) in all_priorities().iter().enumerate() {
        let expected = level <= 5;
        assert_eq!(
            reaches_core(filter, *priority),
            expected,
            "priority level {level} against bound 5"
        );
    }
}

#[test]
fn allow_all_accepts_the_least_urgent_priority() {
    assert!(reaches_core(InterruptPriorityFilter::AllowAll, InterruptPriority::Priority31));
}

#[test]
fn allow_none_accepts_nothing() {
    for priority in all_priorities() {
        assert!(!reaches_core(InterruptPriorityFilter::AllowNone, priority));
    }
}
