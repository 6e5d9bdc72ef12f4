//! Processor core's private timer.
//!
//! Sleeping on the timer is a busy wait and stays outside of this model.

use vstd::prelude::*;

use crate::common::bitman::ClearBitwise;
use crate::common::bitman::SetBitwise;
use crate::common::bitman::WriteBitwise;
use crate::common::bitman::lemma_u32_mask_values;
use crate::common::bitman::u32_clear_bit;
use crate::common::bitman::u32_set_bit;
use crate::common::bitman::u32_write_bits;

verus! {

/// Private timer mode.
#[derive(Clone, Copy, Debug, PartialEq, Eq, Structural)]
pub enum TimerMode {
    /// If the counter reaches zero, the event flag is set.
    SingleShot,
    /// If the counter reaches zero, the event flag is set and the load
    /// value is copied to the counter.
    AutoReload,
}

impl TimerMode {
    /// The control register's mode bit: high means auto-reload.
    pub open spec fn spec_bool(self) -> bool {
        match self {
            Self::SingleShot => false,
            Self::AutoReload => true,
        }
    }

    /// Transform to boolean.
    pub fn as_bool(self) -> (result: bool)
        ensures
            result == self.spec_bool(),
    {
        match self {
            Self::SingleShot => false,
            Self::AutoReload => true,
        }
    }
}

/// Register file of the private timer.
pub struct TimerPrivate {
    /// Value copied to the counter when it reaches zero with auto-reload
    /// mode enabled.
    pub load: u32,
    /// The timer's current count; decremented while the timer is enabled.
    pub counter: u32,
    /// Private timer control register.
    pub control: u32,
    /// Private timer interrupt status register; writing a one clears the
    /// event flag.
    pub interrupt_status: u32,
}

impl TimerPrivate {
    /// A private timer in its power-on state.
    pub fn new() -> (result: TimerPrivate)
        ensures
            result == (TimerPrivate { load: 0, counter: 0, control: 0, interrupt_status: 0 }),
    {
        TimerPrivate { load: 0, counter: 0, control: 0, interrupt_status: 0 }
    }

    /// Set the counter's start value.
    pub fn set_load(&mut self, value: u32)
        ensures
            *final(self) == (TimerPrivate { load: value, ..*old(self) }),
    {
        self.load = value;
    }

    /// Get the counter's start value.
    pub fn get_load(&self) -> (result: u32)
        ensures
            result == self.load,
    {
        self.load
    }

    /// Set the counter's current value.
    pub fn set_count(&mut self, value: u32)
        ensures
            *final(self) == (TimerPrivate { counter: value, ..*old(self) }),
    {
        self.counter = value;
    }

    /// Get the counter's current value.
    pub fn get_count(&self) -> (result: u32)
        ensures
            result == self.counter,
    {
        self.counter
    }

    /// Configure the timer's clock prescaler.
    pub fn set_prescaler(&mut self, value: u8)
        ensures
            *final(self) == (TimerPrivate {
                control: u32_write_bits(old(self).control, 8, value as u32, 8),
                ..*old(self)
            }),
    {
        proof {
            lemma_u32_mask_values();
        }
        let register = self.control;
        self.control = register.write_bits(8, value as u32, 8);
    }

    /// Enable or disable the timer interrupt.
    pub fn toggle_interrupt(&mut self, enable: bool)
        ensures
            *final(self) == (TimerPrivate {
                control: if enable {
                    u32_set_bit(old(self).control, 2)
                } else {
                    u32_clear_bit(old(self).control, 2)
                },
                ..*old(self)
            }),
    {
        let register = self.control;
        self.control = if enable {
            register.set_bit(2)
        } else {
            register.clear_bit(2)
        };
    }

    /// Configure the timer mode.
    pub fn set_mode(&mut self, mode: TimerMode)
        ensures
            *final(self) == (TimerPrivate {
                control: if mode.spec_bool() {
                    u32_set_bit(old(self).control, 1)
                } else {
                    u32_clear_bit(old(self).control, 1)
                },
                ..*old(self)
            }),
    {
        let register = self.control;
        self.control = if mode.as_bool() {
            register.set_bit(1)
        } else {
            register.clear_bit(1)
        };
    }

    /// Enable or disable the timer.
    pub fn toggle(&mut self, enable: bool)
        ensures
            *final(self) == (TimerPrivate {
                control: if enable {
                    u32_set_bit(old(self).control, 0)
                } else {
                    u32_clear_bit(old(self).control, 0)
                },
                ..*old(self)
            }),
    {
        let register = self.control;
        self.control = if enable {
            register.set_bit(0)
        } else {
            register.clear_bit(0)
        };
    }

    /// Clear the timer interrupt by writing one to the event flag, which
    /// the hardware answers by clearing it.
    pub fn clear_interrupt(&mut self)
        ensures
            *final(self) == (TimerPrivate {
                interrupt_status: u32_clear_bit(old(self).interrupt_status, 0),
                ..*old(self)
            }),
    {
        let register = self.interrupt_status;
        self.interrupt_status = register.clear_bit(0);
    }
}

} // verus!
