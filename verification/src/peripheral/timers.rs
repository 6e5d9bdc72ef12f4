//! Timer peripherals.

pub mod timer_global;
pub mod timer_private;
pub mod timer_ttc;
pub mod timer_watchdog;
