//! Coprocessor access fields and DMA status decoding.

use pynq_bsp::peripheral::dma::channel::Channel;
use pynq_bsp::peripheral::dma::manager::Manager;
use pynq_bsp::peripheral::dma::manager::ManagerStatus;
use pynq_bsp::scc::cpacr::Access;
use pynq_bsp::scc::cpacr::CoProcessor;
use pynq_bsp::scc::cpacr::access_register_value;

#[test]
fn coprocessor_access_fields_pack_two_bits_each() {
    assert_eq!(CoProcessor::Cp10.as_u32(), 10);
    assert_eq!(Access::Full.as_u32(), 0b11);
    let granted = access_register_value(0, CoProcessor::Cp10, Access::Full);
    assert_eq!(granted, 0b11 << 20);
    let narrowed = access_register_value(granted, CoProcessor::Cp10, Access::Pl1);
    assert_eq!(narrowed, 0b01 << 20);
    // Other coprocessors' fields stay as they were.
    let both = access_register_value(granted, CoProcessor::Cp11, Access::Denied);
    assert_eq!(both, 0b11 << 20);
}

#[test]
fn dma_manager_status_decodes_and_rejects() {
    assert_eq!(ManagerStatus::from_u32(0), Ok(ManagerStatus::Stopped));
    assert_eq!(ManagerStatus::from_u32(1), Ok(ManagerStatus::Executing));
    assert_eq!(ManagerStatus::from_u32(4), Ok(ManagerStatus::WaitingForEvent));
    assert_eq!(ManagerStatus::from_u32(15), Ok(ManagerStatus::Faulting));
    for reserved in [5u32, 6, 7, 8, 14, 16] {
        assert_eq!(ManagerStatus::from_u32(reserved), Err(reserved));
    }
}

#[test]
fn dma_register_blocks_power_on_cleared() {
    let channel = Channel::new();
    assert_eq!(channel.status, 0);
    assert_eq!(channel.program_counter, 0);
    let manager = Manager::new();
    assert_eq!(manager.status, 0);
    assert_eq!(manager.fault_status_channels, 0);
}
