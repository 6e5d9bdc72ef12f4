//! Board support model for a Zynq-7000 class system-on-chip.
//!
//! Every peripheral is modelled as an owned register file: a struct whose
//! fields hold the 32-bit registers of the memory-mapped block.  Operations
//! are verified bit-level read-modify-write steps on that state, so the
//! register layout and the interrupt controller's acknowledge/complete
//! protocol carry machine-checked contracts.

pub mod common;
pub mod interrupt;
pub mod peripheral;
pub mod scc;
