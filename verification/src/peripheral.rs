//! Peripheral drivers.

pub mod axi;
pub mod dma;
pub mod gpio;
pub mod led;
pub mod slcr;
pub mod timers;
pub mod uart;
