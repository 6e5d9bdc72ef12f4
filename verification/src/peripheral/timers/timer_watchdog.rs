//! Watchdog timers.

pub mod private_watchdog_timer;
