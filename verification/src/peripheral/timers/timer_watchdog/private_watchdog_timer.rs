//! CPU private watchdog timer.

use vstd::prelude::*;

use crate::common::bitman::ClearBitwise;
use crate::common::bitman::ReadBitwise;
use crate::common::bitman::SetBitwise;
use crate::common::bitman::WriteBitwise;
use crate::common::bitman::lemma_u32_mask_values;
use crate::common::bitman::u32_bit;
use crate::common::bitman::u32_clear_bit;
use crate::common::bitman::u32_set_bit;
use crate::common::bitman::u32_write_bits;

verus! {

/// What the watchdog does when its counter reaches zero in timer mode.
#[derive(Clone, Copy, Debug, PartialEq, Eq, Structural)]
pub enum ReloadMode {
    SingleShot,
    AutoReload,
}

impl ReloadMode {
    /// The control register's auto-reload bit.
    pub open spec fn spec_bool(self) -> bool {
        match self {
            Self::SingleShot => false,
            Self::AutoReload => true,
        }
    }

    /// Transform to boolean.
    pub fn as_bool(self) -> (result: bool)
        ensures
            result == self.spec_bool(),
    {
        match self {
            Self::SingleShot => false,
            Self::AutoReload => true,
        }
    }
}

/// Whether the device counts as a plain timer or guards as a watchdog.
#[derive(Clone, Copy, Debug, PartialEq, Eq, Structural)]
pub enum TimerMode {
    TimerMode,
    WatchdogMode,
}

/// Register file of the private watchdog timer.
pub struct PrivateWatchdogTimer {
    /// Value copied to the counter on a restart.
    pub load: u32,
    /// The timer's current count.
    pub counter: u32,
    /// Watchdog control register; bit 3 selects watchdog mode.
    pub control: u32,
    /// Interrupt status register; writing a one clears the event flag.
    pub interrupt_status: u32,
    /// Reset status register; writing a one clears the reset flag.
    pub reset_status: u32,
    /// Watchdog disable register; written with the magic sequence that
    /// leaves watchdog mode.
    pub disable_watchdog: u32,
}

impl PrivateWatchdogTimer {
    /// A watchdog timer in its power-on state.
    pub fn new() -> (result: PrivateWatchdogTimer)
        ensures
            result == (PrivateWatchdogTimer {
                load: 0,
                counter: 0,
                control: 0,
                interrupt_status: 0,
                reset_status: 0,
                disable_watchdog: 0,
            }),
    {
        PrivateWatchdogTimer {
            load: 0,
            counter: 0,
            control: 0,
            interrupt_status: 0,
            reset_status: 0,
            disable_watchdog: 0,
        }
    }

    /// Get the counter's start value.
    pub fn get_load(&self) -> (result: u32)
        ensures
            result == self.load,
    {
        self.load
    }

    /// Set the counter's start value.
    pub fn set_load(&mut self, value: u32)
        ensures
            *final(self) == (PrivateWatchdogTimer { load: value, ..*old(self) }),
    {
        self.load = value;
    }

    /// Get the counter's current value.
    pub fn get_count(&self) -> (result: u32)
        ensures
            result == self.counter,
    {
        self.counter
    }

    /// Set the counter's current value.
    pub fn set_count(&mut self, value: u32)
        ensures
            *final(self) == (PrivateWatchdogTimer { counter: value, ..*old(self) }),
    {
        self.counter = value;
    }

    /// Enable or disable the watchdog timer.
    pub fn toggle(&mut self, enable: bool)
        ensures
            *final(self) == (PrivateWatchdogTimer {
                control: if enable {
                    u32_set_bit(old(self).control, 0)
                } else {
                    u32_clear_bit(old(self).control, 0)
                },
                ..*old(self)
            }),
    {
        let register = self.control;
        self.control = if enable {
            register.set_bit(0)
        } else {
            register.clear_bit(0)
        };
    }

    /// Configure what happens when the counter reaches zero in timer mode.
    pub fn set_reload_mode(&mut self, mode: ReloadMode)
        ensures
            *final(self) == (PrivateWatchdogTimer {
                control: if mode.spec_bool() {
                    u32_set_bit(old(self).control, 1)
                } else {
                    u32_clear_bit(old(self).control, 1)
                },
                ..*old(self)
            }),
    {
        let register = self.control;
        self.control = if mode.as_bool() {
            register.set_bit(1)
        } else {
            register.clear_bit(1)
        };
    }

    /// Enable or disable the timer interrupt.
    pub fn toggle_interrupt(&mut self, enable: bool)
        ensures
            *final(self) == (PrivateWatchdogTimer {
                control: if enable {
                    u32_set_bit(old(self).control, 2)
                } else {
                    u32_clear_bit(old(self).control, 2)
                },
                ..*old(self)
            }),
    {
        let register = self.control;
        self.control = if enable {
            register.set_bit(2)
        } else {
            register.clear_bit(2)
        };
    }

    /// Select timer or watchdog mode.  Watchdog mode is entered by raising
    /// the mode bit; timer mode is entered by writing the two-word magic
    /// sequence to the disable register, which the hardware answers by
    /// clearing the mode bit.
    pub fn set_timer_mode(&mut self, mode: TimerMode)
        ensures
            mode is TimerMode ==> *final(self) == (PrivateWatchdogTimer {
                control: u32_clear_bit(old(self).control, 3),
                disable_watchdog: 0x8765_4321,
                ..*old(self)
            }),
            mode is WatchdogMode ==> *final(self) == (PrivateWatchdogTimer {
                control: u32_set_bit(old(self).control, 3),
                ..*old(self)
            }),
    {
        match mode {
            TimerMode::TimerMode => {
                self.disable_watchdog = 0x1234_5678;
                self.disable_watchdog = 0x8765_4321;
                let register = self.control;
                self.control = register.clear_bit(3);
            },
            TimerMode::WatchdogMode => {
                let register = self.control;
                self.control = register.set_bit(3);
            },
        }
    }

    /// Configure the timer's clock prescaler.
    pub fn set_prescaler(&mut self, value: u8)
        ensures
            *final(self) == (PrivateWatchdogTimer {
                control: u32_write_bits(old(self).control, 8, value as u32, 8),
                ..*old(self)
            }),
    {
        proof {
            lemma_u32_mask_values();
        }
        let register = self.control;
        self.control = register.write_bits(8, value as u32, 8);
    }

    /// True if the counter has reached zero in timer mode.
    pub fn read_interrupt_status(&self) -> (result: bool)
        ensures
            result == u32_bit(self.interrupt_status, 0),
    {
        self.interrupt_status.read_bit(0)
    }

    /// Clear the timer interrupt by writing one to the event flag, which
    /// the hardware answers by clearing it.
    pub fn clear_interrupt(&mut self)
        ensures
            *final(self) == (PrivateWatchdogTimer {
                interrupt_status: u32_clear_bit(old(self).interrupt_status, 0),
                ..*old(self)
            }),
    {
        let register = self.interrupt_status;
        self.interrupt_status = register.clear_bit(0);
    }

    /// True if the watchdog caused a reset.
    pub fn read_reset_status(&self) -> (result: bool)
        ensures
            result == u32_bit(self.reset_status, 0),
    {
        self.reset_status.read_bit(0)
    }

    /// Clear the reset flag by writing one to it, which the hardware
    /// answers by clearing it.
    pub fn clear_reset(&mut self)
        ensures
            *final(self) == (PrivateWatchdogTimer {
                reset_status: u32_clear_bit(old(self).reset_status, 0),
                ..*old(self)
            }),
    {
        let register = self.reset_status;
        self.reset_status = register.clear_bit(0);
    }
}

} // verus!
