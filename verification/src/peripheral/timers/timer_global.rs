//! Global 64-bit timer.
//!
//! The counter is 64 bits wide, kept in two 32-bit registers.  Sleeping on
//! the timer is a busy wait and stays outside of this model.

use vstd::prelude::*;

use crate::common::bitman::ClearBitwise;
use crate::common::bitman::ReadBitwise;
use crate::common::bitman::ReadBitwiseRange;
use crate::common::bitman::SetBitwise;
use crate::common::bitman::WriteBitwise;
use crate::common::bitman::lemma_u32_bit_writes_idempotent;
use crate::common::bitman::lemma_u32_clear_bit_reads;
use crate::common::bitman::lemma_u32_mask_values;
use crate::common::bitman::lemma_u32_read_bits_bound;
use crate::common::bitman::lemma_u32_set_bit_reads;
use crate::common::bitman::lemma_u32_write_bits_reads_inside;
use crate::common::bitman::u32_bit;
use crate::common::bitman::u32_clear_bit;
use crate::common::bitman::u32_read_bits;
use crate::common::bitman::u32_set_bit;
use crate::common::bitman::u32_write_bits;

verus! {

/// Global timer mode.
#[derive(Clone, Copy, Debug, PartialEq, Eq, Structural)]
pub enum TimerMode {
    /// If the counter reaches the comparator value, the event flag is set.
    SingleShot,
    /// If the counter reaches the comparator value, the comparator is
    /// auto-incremented.
    AutoReload,
}

impl TimerMode {
    /// The control register's mode bit: high means auto-reload.
    pub open spec fn spec_bool(self) -> bool {
        match self {
            Self::SingleShot => false,
            Self::AutoReload => true,
        }
    }

    /// Transform to boolean.
    pub fn as_bool(self) -> (result: bool)
        ensures
            result == self.spec_bool(),
    {
        match self {
            Self::SingleShot => false,
            Self::AutoReload => true,
        }
    }

    /// Decode the control register's mode bit.
    pub fn from_bool(value: bool) -> (result: Self)
        ensures
            result.spec_bool() == value,
    {
        if value {
            Self::AutoReload
        } else {
            Self::SingleShot
        }
    }
}

/// The 64-bit counter's value, split into its two registers.
#[derive(Clone, Copy, Debug, PartialEq, Eq, Structural)]
pub struct CounterValue {
    /// Upper 32 bits of the counter's value.
    pub upper: u32,
    /// Lower 32 bits of the counter's value.
    pub lower: u32,
}

impl CounterValue {
    /// The 64-bit value the two registers hold together.
    pub open spec fn spec_value(self) -> int {
        self.upper * 0x1_0000_0000 + self.lower
    }

    /// The counter value holding a 64-bit tick count, split into its two
    /// registers.
    pub fn from_u64(value: u64) -> (result: Self)
        ensures
            result.spec_value() == value,
    {
        let result = CounterValue { upper: (value >> 32u64) as u32, lower: value as u32 };
        proof {
            lemma_counter_unpack(value);
        }
        result
    }

    /// 64-bit addition of two counter values; the upper half wraps around
    /// freely.
    pub fn wrapping_add(self, other: Self) -> (result: Self)
        ensures
            result.spec_value() == (self.spec_value() + other.spec_value())
                % 0x1_0000_0000_0000_0000,
    {
        let left: u64 = ((self.upper as u64) << 32u64) | (self.lower as u64);
        let right: u64 = ((other.upper as u64) << 32u64) | (other.lower as u64);
        let total = left.wrapping_add(right);
        let result = CounterValue { upper: (total >> 32u64) as u32, lower: total as u32 };
        proof {
            lemma_counter_pack(self.upper, self.lower);
            lemma_counter_pack(other.upper, other.lower);
            lemma_counter_unpack(total);
        }
        result
    }
}

/// Packing two halves into a 64-bit word is positional arithmetic.
proof fn lemma_counter_pack(upper: u32, lower: u32)
    by (bit_vector)
    ensures
        (((upper as u64) << 32u64) | (lower as u64)) == upper * 0x1_0000_0000 + lower,
{
}

/// Splitting a 64-bit word into its halves recovers it positionally.
proof fn lemma_counter_unpack(total: u64)
    by (bit_vector)
    ensures
        ((total >> 32u64) as u32) * 0x1_0000_0000 + (total as u32) == total,
{
}

impl PartialOrd for CounterValue {
    /// Counter values order by their 64-bit value: upper halves first.
    fn partial_cmp(&self, other: &Self) -> (result: Option<core::cmp::Ordering>) {
        if self.upper < other.upper {
            Some(core::cmp::Ordering::Less)
        } else if self.upper == other.upper {
            if self.lower < other.lower {
                Some(core::cmp::Ordering::Less)
            } else if self.lower == other.lower {
                Some(core::cmp::Ordering::Equal)
            } else {
                Some(core::cmp::Ordering::Greater)
            }
        } else {
            Some(core::cmp::Ordering::Greater)
        }
    }
}

impl vstd::std_specs::cmp::PartialOrdSpecImpl for CounterValue {
    open spec fn obeys_partial_cmp_spec() -> bool {
        true
    }

    open spec fn partial_cmp_spec(&self, other: &Self) -> Option<core::cmp::Ordering> {
        if self.spec_value() < other.spec_value() {
            Some(core::cmp::Ordering::Less)
        } else if self.spec_value() == other.spec_value() {
            Some(core::cmp::Ordering::Equal)
        } else {
            Some(core::cmp::Ordering::Greater)
        }
    }
}

/// Register file of the global timer.
pub struct TimerGlobal {
    /// Lower 32 bits of the counter's 64-bit value.
    pub counter_0: u32,
    /// Upper 32 bits of the counter's 64-bit value.
    pub counter_1: u32,
    /// Global timer control register.
    pub control: u32,
    /// Global timer interrupt status register; writing a one clears the
    /// event flag.
    pub interrupt_status: u32,
}

impl TimerGlobal {
    /// True if `other` matches `self` on every field but the counter
    /// registers.
    pub open spec fn same_except_counter(self, other: TimerGlobal) -> bool {
        self.control == other.control && self.interrupt_status == other.interrupt_status
    }

    /// True if `other` matches `self` on every field but the control
    /// register.
    pub open spec fn same_except_control(self, other: TimerGlobal) -> bool {
        &&& self.counter_0 == other.counter_0
        &&& self.counter_1 == other.counter_1
        &&& self.interrupt_status == other.interrupt_status
    }

    /// A global timer in its power-on state.
    pub fn new() -> (result: TimerGlobal)
        ensures
            result == (TimerGlobal {
                counter_0: 0,
                counter_1: 0,
                control: 0,
                interrupt_status: 0,
            }),
    {
        TimerGlobal { counter_0: 0, counter_1: 0, control: 0, interrupt_status: 0 }
    }

    /// Set the counter's value.  The timer interrupt is held disabled while
    /// the two halves are written and restored afterwards, so the control
    /// register reads back unchanged.
    pub fn set_count(&mut self, value: CounterValue)
        ensures
            *final(self) == (TimerGlobal {
                counter_0: value.lower,
                counter_1: value.upper,
                ..*old(self)
            }),
    {
        let interrupt_enabled = self.is_interrupt_enabled();
        if interrupt_enabled {
            self.toggle_interrupt(false);
        }
        self.counter_0 = value.lower;
        self.counter_1 = value.upper;
        if interrupt_enabled {
            self.toggle_interrupt(true);
        }
        proof {
            lemma_u32_bit_writes_idempotent(old(self).control, 2);
        }
    }

    /// Get the counter's value.  The upper half is read before and after
    /// the lower half, and the lower half is read again if the upper half
    /// moved in between.
    pub fn get_count(&self) -> (result: CounterValue)
        ensures
            result == (CounterValue { upper: self.counter_1, lower: self.counter_0 }),
    {
        let upper_first = self.counter_1;
        let lower_first = self.counter_0;
        let upper_second = self.counter_1;
        if upper_first == upper_second {
            CounterValue { upper: upper_first, lower: lower_first }
        } else {
            let lower_second = self.counter_0;
            CounterValue { upper: upper_second, lower: lower_second }
        }
    }

    /// Set the timer's clock prescaler.
    pub fn set_prescaler(&mut self, value: u8)
        ensures
            *final(self) == (TimerGlobal {
                control: u32_write_bits(old(self).control, 8, value as u32, 8),
                ..*old(self)
            }),
            u32_read_bits(final(self).control, 8, 15) == value,
    {
        proof {
            lemma_u32_mask_values();
        }
        let register = self.control;
        self.control = register.write_bits(8, value as u32, 8);
        proof {
            lemma_u32_write_bits_reads_inside(register, 8, value as u32, 8);
        }
    }

    /// Get the timer's clock prescaler.
    pub fn get_prescaler(&self) -> (result: u8)
        ensures
            result == u32_read_bits(self.control, 8, 15),
    {
        let field = self.control.read_bits(core::ops::RangeInclusive::new(8u32, 15u32));
        proof {
            lemma_u32_read_bits_bound(self.control, 8, 15);
            lemma_u32_mask_values();
        }
        field as u8
    }

    /// Set the counter mode.
    pub fn set_mode(&mut self, mode: TimerMode)
        ensures
            *final(self) == (TimerGlobal {
                control: if mode.spec_bool() {
                    u32_set_bit(old(self).control, 3)
                } else {
                    u32_clear_bit(old(self).control, 3)
                },
                ..*old(self)
            }),
            u32_bit(final(self).control, 3) == mode.spec_bool(),
    {
        let register = self.control;
        self.control = if mode.as_bool() {
            register.set_bit(3)
        } else {
            register.clear_bit(3)
        };
        proof {
            if mode.spec_bool() {
                lemma_u32_set_bit_reads(register, 3, 3);
            } else {
                lemma_u32_clear_bit_reads(register, 3, 3);
            }
        }
    }

    /// Get the counter mode.
    pub fn get_mode(&self) -> (result: TimerMode)
        ensures
            result.spec_bool() == u32_bit(self.control, 3),
    {
        let value = self.control.read_bit(3);
        TimerMode::from_bool(value)
    }

    /// True if the timer interrupt is enabled.
    pub fn is_interrupt_enabled(&self) -> (result: bool)
        ensures
            result == u32_bit(self.control, 2),
    {
        self.control.read_bit(2)
    }

    /// Enable or disable the timer interrupt.
    pub fn toggle_interrupt(&mut self, enable: bool)
        ensures
            *final(self) == (TimerGlobal {
                control: if enable {
                    u32_set_bit(old(self).control, 2)
                } else {
                    u32_clear_bit(old(self).control, 2)
                },
                ..*old(self)
            }),
            u32_bit(final(self).control, 2) == enable,
    {
        let register = self.control;
        self.control = if enable {
            register.set_bit(2)
        } else {
            register.clear_bit(2)
        };
        proof {
            if enable {
                lemma_u32_set_bit_reads(register, 2, 2);
            } else {
                lemma_u32_clear_bit_reads(register, 2, 2);
            }
        }
    }

    /// True if the comparator is enabled.
    pub fn is_comparator_enabled(&self) -> (result: bool)
        ensures
            result == u32_bit(self.control, 1),
    {
        self.control.read_bit(1)
    }

    /// Enable or disable comparison of the counter's value with the
    /// comparator's value.
    pub fn toggle_comparator(&mut self, enable: bool)
        ensures
            *final(self) == (TimerGlobal {
                control: if enable {
                    u32_set_bit(old(self).control, 1)
                } else {
                    u32_clear_bit(old(self).control, 1)
                },
                ..*old(self)
            }),
            u32_bit(final(self).control, 1) == enable,
    {
        let register = self.control;
        self.control = if enable {
            register.set_bit(1)
        } else {
            register.clear_bit(1)
        };
        proof {
            if enable {
                lemma_u32_set_bit_reads(register, 1, 1);
            } else {
                lemma_u32_clear_bit_reads(register, 1, 1);
            }
        }
    }

    /// True if the timer is enabled.
    pub fn is_enabled(&self) -> (result: bool)
        ensures
            result == u32_bit(self.control, 0),
    {
        self.control.read_bit(0)
    }

    /// Enable or disable the timer.
    pub fn toggle(&mut self, enable: bool)
        ensures
            *final(self) == (TimerGlobal {
                control: if enable {
                    u32_set_bit(old(self).control, 0)
                } else {
                    u32_clear_bit(old(self).control, 0)
                },
                ..*old(self)
            }),
            u32_bit(final(self).control, 0) == enable,
    {
        let register = self.control;
        self.control = if enable {
            register.set_bit(0)
        } else {
            register.clear_bit(0)
        };
        proof {
            if enable {
                lemma_u32_set_bit_reads(register, 0, 0);
            } else {
                lemma_u32_clear_bit_reads(register, 0, 0);
            }
        }
    }

    /// True if the counter has reached the comparator's value.
    pub fn interrupt_status(&self) -> (result: bool)
        ensures
            result == u32_bit(self.interrupt_status, 0),
    {
        self.interrupt_status.read_bit(0)
    }

    /// Clear the timer interrupt by writing one to the event flag, which
    /// the hardware answers by clearing it.
    pub fn clear_interrupt(&mut self)
        ensures
            *final(self) == (TimerGlobal {
                interrupt_status: u32_clear_bit(old(self).interrupt_status, 0),
                ..*old(self)
            }),
    {
        let register = self.interrupt_status;
        self.interrupt_status = register.clear_bit(0);
    }

    /// Reset the peripheral and read back that every register cleared.
    pub fn reset(&mut self) -> (result: Result<(), ()>)
        ensures
            result is Ok,
            *final(self) == (TimerGlobal {
                counter_0: 0,
                counter_1: 0,
                control: 0,
                interrupt_status: 0,
            }),
    {
        self.control = 0;
        self.counter_0 = 0;
        self.counter_1 = 0;
        self.interrupt_status = 0;
        if self.control != 0 {
            return Err(());
        }
        if self.counter_0 != 0 {
            return Err(());
        }
        if self.counter_1 != 0 {
            return Err(());
        }
        if self.interrupt_status != 0 {
            return Err(());
        }
        Ok(())
    }
}

/// Register file of the global timer's comparator.
pub struct Comparator {
    /// Lower 32 bits of the comparator's value.
    pub comparator_lower: u32,
    /// Upper 32 bits of the comparator's value.
    pub comparator_upper: u32,
    /// Value added to the comparator on each match in auto-reload mode.
    pub auto_increment: u32,
}

impl Comparator {
    /// A comparator in its power-on state.
    pub fn new() -> (result: Comparator)
        ensures
            result == (Comparator { comparator_lower: 0, comparator_upper: 0, auto_increment: 0 }),
    {
        Comparator { comparator_lower: 0, comparator_upper: 0, auto_increment: 0 }
    }

    /// Get the comparator's value.
    pub fn get_comparator_value(&self) -> (result: CounterValue)
        ensures
            result == (CounterValue { upper: self.comparator_upper, lower: self.comparator_lower }),
    {
        let lower = self.comparator_lower;
        let upper = self.comparator_upper;
        CounterValue { lower, upper }
    }

    /// Set the comparator's value.
    pub fn set_comparator_value(&mut self, value: CounterValue)
        ensures
            *final(self) == (Comparator {
                comparator_lower: value.lower,
                comparator_upper: value.upper,
                ..*old(self)
            }),
    {
        self.comparator_lower = value.lower;
        self.comparator_upper = value.upper;
    }

    /// Get the auto-increment value.
    pub fn get_auto_increment_value(&self) -> (result: u32)
        ensures
            result == self.auto_increment,
    {
        self.auto_increment
    }

    /// Set the auto-increment value.
    pub fn set_auto_increment_value(&mut self, value: u32)
        ensures
            *final(self) == (Comparator { auto_increment: value, ..*old(self) }),
    {
        self.auto_increment = value;
    }
}

} // verus!
