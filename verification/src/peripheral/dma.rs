//! Direct memory access controller.
//!
//! The controller runs one manager thread and eight channel threads, each
//! with its own register block.  Only the register layout is modelled; the
//! engine's instruction set is not.

pub mod channel;
pub mod manager;
