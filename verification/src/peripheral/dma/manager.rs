//! DMA manager thread.

use vstd::prelude::*;

verus! {

/// Operating state of the manager thread.
#[derive(Clone, Copy, Debug, PartialEq, Eq, Structural)]
pub enum ManagerStatus {
    /// The thread has an invalid program counter and is not fetching
    /// instructions.
    Stopped,
    /// The thread has a valid program counter and takes part in
    /// arbitration.
    Executing,
    /// The thread is stalled while the engine performs a cache line fill.
    CacheMiss,
    /// The engine is calculating the address of the next access.
    UpdatingPC,
    /// The thread is stalled waiting for an event.
    WaitingForEvent,
    /// The thread is stalled indefinitely.
    Faulting,
}

impl ManagerStatus {
    /// Decode the manager's four-bit status field; reserved encodings are
    /// rejected.
    pub fn from_u32(value: u32) -> (result: Result<Self, u32>)
        ensures
            result is Ok <==> (value <= 4 || value == 15),
            value == 0 ==> result == Ok::<ManagerStatus, u32>(ManagerStatus::Stopped),
            value == 1 ==> result == Ok::<ManagerStatus, u32>(ManagerStatus::Executing),
            value == 2 ==> result == Ok::<ManagerStatus, u32>(ManagerStatus::CacheMiss),
            value == 3 ==> result == Ok::<ManagerStatus, u32>(ManagerStatus::UpdatingPC),
            value == 4 ==> result == Ok::<ManagerStatus, u32>(ManagerStatus::WaitingForEvent),
            value == 15 ==> result == Ok::<ManagerStatus, u32>(ManagerStatus::Faulting),
            result is Err ==> result == Err::<ManagerStatus, u32>(value),
    {
        match value {
            0b0000 => Ok(Self::Stopped),
            0b0001 => Ok(Self::Executing),
            0b0010 => Ok(Self::CacheMiss),
            0b0011 => Ok(Self::UpdatingPC),
            0b0100 => Ok(Self::WaitingForEvent),
            0b1111 => Ok(Self::Faulting),
            unknown => Err(unknown),
        }
    }
}

/// An instruction of the engine's instruction set; the set is not
/// modelled.
#[derive(Clone, Copy, Debug, PartialEq, Eq, Structural)]
pub enum Instruction {
    /// A fetched instruction, kept as its first word.
    Word(u32),
}

/// The kind of fault that moved the manager thread into the faulting
/// state.
#[derive(Clone, Copy, Debug, PartialEq, Eq, Structural)]
pub enum FaulType {
    /// The thread fetched an instruction the engine does not define.
    UndefinedInstruction,
    /// The thread fetched an instruction with an invalid operand.
    InvalidOperand,
    /// The thread lacked permission to execute the instruction.
    InsufficientPermission(Instruction),
    /// A bus response reported an error.
    ExokaySlverrDecerr,
    /// An instruction fetch from system memory aborted.
    AbortFromSystemMemory,
    /// An instruction fetch from the debug interface aborted.
    AbortFromDebugInterface,
}

/// Register file of the DMA manager thread.
pub struct Manager {
    pub status: u32,
    pub program_counter: u32,
    pub interrupt_enable: u32,
    pub event_interrupt_raw_status: u32,
    pub interrupt_status: u32,
    pub interrupt_clear: u32,
    pub fault_status_manager: u32,
    pub fault_status_channels: u32,
    pub fault_type_manager: u32,
    pub debug_status: u32,
    pub debug_command: u32,
    pub debug_instruction_0: u32,
    pub debug_instruction_1: u32,
    pub configuration_0: u32,
    pub configuration_1: u32,
    pub configuration_2: u32,
    pub configuration_3: u32,
    pub configuration_4: u32,
    pub dma_configuration: u32,
    pub watchdog: u32,
}

impl Manager {
    /// A manager thread's register block in its power-on state.
    pub fn new() -> (result: Manager)
        ensures
            result.status == 0,
            result.program_counter == 0,
            result.interrupt_enable == 0,
            result.event_interrupt_raw_status == 0,
            result.interrupt_status == 0,
            result.interrupt_clear == 0,
            result.fault_status_manager == 0,
            result.fault_status_channels == 0,
            result.fault_type_manager == 0,
    {
        Manager {
            status: 0,
            program_counter: 0,
            interrupt_enable: 0,
            event_interrupt_raw_status: 0,
            interrupt_status: 0,
            interrupt_clear: 0,
            fault_status_manager: 0,
            fault_status_channels: 0,
            fault_type_manager: 0,
            debug_status: 0,
            debug_command: 0,
            debug_instruction_0: 0,
            debug_instruction_1: 0,
            configuration_0: 0,
            configuration_1: 0,
            configuration_2: 0,
            configuration_3: 0,
            configuration_4: 0,
            dma_configuration: 0,
            watchdog: 0,
        }
    }
}

} // verus!
