//! DMA channel thread.

use vstd::prelude::*;

verus! {

/// The kind of fault that moved a channel thread into the faulting state.
#[derive(Clone, Copy, Debug, PartialEq, Eq, Structural)]
pub enum FaultType {
    /// The thread fetched an instruction the engine does not define.
    UndefinedInstruction,
    /// The thread fetched an instruction with an invalid operand.
    InvalidOperand,
}

/// Register file of one DMA channel thread.
#[derive(Clone, Copy, Debug, PartialEq, Eq, Structural)]
pub struct Channel {
    /// The kind of fault that caused the channel to transition to the
    /// faulting state.
    pub fault_type: u32,
    /// Status of the DMA program on this channel.
    pub status: u32,
    /// Channel program counter.
    pub program_counter: u32,
    /// Address data is read from.
    pub source_address: u32,
    /// Address data is written to.
    pub destination_address: u32,
    /// Controls the channel's AXI transactions.
    pub channel_control: u32,
    /// Status of loop counter 0.
    pub loop_counter_0: u32,
    /// Status of loop counter 1.
    pub loop_counter_1: u32,
}

impl Channel {
    /// A channel thread's register block in its power-on state.
    pub fn new() -> (result: Channel)
        ensures
            result == (Channel {
                fault_type: 0,
                status: 0,
                program_counter: 0,
                source_address: 0,
                destination_address: 0,
                channel_control: 0,
                loop_counter_0: 0,
                loop_counter_1: 0,
            }),
    {
        Channel {
            fault_type: 0,
            status: 0,
            program_counter: 0,
            source_address: 0,
            destination_address: 0,
            channel_control: 0,
            loop_counter_0: 0,
            loop_counter_1: 0,
        }
    }
}

} // verus!
