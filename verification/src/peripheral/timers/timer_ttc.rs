//! Triple timer counters.
//!
//! Each counter is 16 bits wide with a 4-bit prescaler.  The interrupt
//! status register is read-to-clear; sleeping on the timer is a busy wait
//! and stays outside of this model.

use vstd::prelude::*;

use crate::common::bitman::ClearBitwise;
use crate::common::bitman::ReadBitwise;
use crate::common::bitman::ReadBitwiseRange;
use crate::common::bitman::SetBitwise;
use crate::common::bitman::WriteBitwise;
use crate::common::bitman::lemma_u32_clear_bit_reads;
use crate::common::bitman::lemma_u32_mask_values;
use crate::common::bitman::lemma_u32_read_bits_bound;
use crate::common::bitman::lemma_u32_set_bit_reads;
use crate::common::bitman::lemma_u32_shift_at_least_one;
use crate::common::bitman::lemma_u32_write_bits_reads_inside;
use crate::common::bitman::u32_bit;
use crate::common::bitman::u32_clear_bit;
use crate::common::bitman::u32_read_bits;
use crate::common::bitman::u32_set_bit;
use crate::common::bitman::u32_write_bits;
use crate::common::timing::FREQUENCY_PERIPHERALS;

verus! {

/// How many counter ticks one microsecond takes under a prescaler: the
/// peripheral clock is divided by two to the power of the prescaler plus
/// one.  Large prescalers make the counter slower than a microsecond, in
/// which case this is zero.
pub open spec fn spec_ticks_per_usecond(prescaler: u32) -> u32 {
    (FREQUENCY_PERIPHERALS / (1u32 << ((prescaler + 1) as u32))) / 1_000_000
}

/// True if the prescaler and interval pair can be programmed and its
/// counter still ticks at least once per microsecond.
pub open spec fn spec_candidate(prescaler: u32, ticks: u32) -> bool {
    prescaler < 16 && ticks < 0xFFFF && spec_ticks_per_usecond(prescaler) > 0
}

/// How far the interval programmed as (prescaler, ticks) misses the
/// requested number of microseconds.
pub open spec fn spec_interval_error(interval_us: u32, prescaler: u32, ticks: u32) -> int {
    let per_interval = ticks / spec_ticks_per_usecond(prescaler);
    if interval_us >= per_interval {
        interval_us - per_interval
    } else {
        per_interval - interval_us
    }
}

/// With the smallest prescaler the counter ticks many times per
/// microsecond.
proof fn lemma_ticks_per_usecond_smallest()
    by (bit_vector)
    ensures
        spec_ticks_per_usecond(0) > 0,
{
}

/// A prescaler and interval pair for the counter.
#[derive(Clone, Copy, Debug, PartialEq, Eq, Structural)]
pub struct Parameters {
    /// The 4-bit prescaler value.
    pub prescaler: u8,
    /// The interval register value.
    pub interval_value: u16,
}

impl Parameters {
    /// Solve prescaler and interval values from the requested microseconds:
    /// among all programmable pairs whose counter still ticks at least once
    /// per microsecond, one whose interval misses the request the least.
    pub fn solve(interval_us: u32) -> (result: Self)
        ensures
            result.prescaler < 16,
            spec_ticks_per_usecond(result.prescaler as u32) > 0,
            forall|prescaler: u32, ticks: u32|
                spec_candidate(prescaler, ticks) ==> spec_interval_error(
                    interval_us,
                    result.prescaler as u32,
                    result.interval_value as u32,
                ) <= spec_interval_error(interval_us, prescaler, ticks),
    {
        let mut best_prescaler: u8 = 0;
        let mut best_interval: u16 = 0;
        let mut best_difference: u32 = u32::MAX;
        let mut prescaler: u32 = 0;
        while prescaler < 16
            invariant
                prescaler <= 16,
                best_prescaler < 16,
                forall|other_prescaler: u32, other_ticks: u32|
                    spec_candidate(other_prescaler, other_ticks) && other_prescaler < prescaler
                        ==> best_difference <= spec_interval_error(
                        interval_us,
                        other_prescaler,
                        other_ticks,
                    ),
                best_difference < u32::MAX ==> best_difference == spec_interval_error(
                    interval_us,
                    best_prescaler as u32,
                    best_interval as u32,
                ) && spec_ticks_per_usecond(best_prescaler as u32) > 0,
                best_difference == u32::MAX ==> best_prescaler == 0 && best_interval == 0,
            decreases 16 - prescaler,
        {
            proof {
                lemma_u32_shift_at_least_one((prescaler + 1) as u32);
            }
            let frequency_scaler = 1u32 << (prescaler + 1);
            let ticks_per_second = FREQUENCY_PERIPHERALS / frequency_scaler;
            let ticks_per_usecond = ticks_per_second / 1_000_000;
            if ticks_per_usecond != 0 {
                let mut ticks: u32 = 0;
                while ticks < 0xFFFF
                    invariant
                        ticks <= 0xFFFF,
                        prescaler < 16,
                        best_prescaler < 16,
                        ticks_per_usecond == spec_ticks_per_usecond(prescaler),
                        ticks_per_usecond > 0,
                        forall|other_prescaler: u32, other_ticks: u32|
                            spec_candidate(other_prescaler, other_ticks) && (other_prescaler
                                < prescaler || (other_prescaler == prescaler && other_ticks
                                < ticks)) ==> best_difference <= spec_interval_error(
                                interval_us,
                                other_prescaler,
                                other_ticks,
                            ),
                        best_difference < u32::MAX ==> best_difference == spec_interval_error(
                            interval_us,
                            best_prescaler as u32,
                            best_interval as u32,
                        ) && spec_ticks_per_usecond(best_prescaler as u32) > 0,
                        best_difference == u32::MAX ==> best_prescaler == 0 && best_interval == 0,
                    decreases 0xFFFF - ticks,
                {
                    let useconds_per_interval = ticks / ticks_per_usecond;
                    let difference = if interval_us >= useconds_per_interval {
                        interval_us - useconds_per_interval
                    } else {
                        useconds_per_interval - interval_us
                    };
                    if difference < best_difference {
                        best_difference = difference;
                        best_prescaler = prescaler as u8;
                        best_interval = ticks as u16;
                    }
                    ticks = ticks + 1;
                }
            }
            prescaler = prescaler + 1;
        }
        proof {
            lemma_ticks_per_usecond_smallest();
            if best_difference == u32::MAX {
                let rate = spec_ticks_per_usecond(0u32);
                assert(0u32 / rate == 0) by (nonlinear_arith)
                    requires
                        rate > 0,
                ;
                assert(spec_interval_error(interval_us, 0, 0) == interval_us);
            }
            assert forall|other_prescaler: u32, other_ticks: u32|
                spec_candidate(other_prescaler, other_ticks) implies spec_interval_error(
                interval_us,
                best_prescaler as u32,
                best_interval as u32,
            ) <= spec_interval_error(interval_us, other_prescaler, other_ticks) by {
                let error = spec_interval_error(interval_us, other_prescaler, other_ticks);
                assert(best_difference <= error);
            }
        }
        Self { prescaler: best_prescaler, interval_value: best_interval }
    }

    /// Maybe get the microseconds one interval takes; a prescaler too slow
    /// to tick once per microsecond yields nothing.
    pub fn useconds_per_interval(&self) -> (result: Option<u32>)
        requires
            self.prescaler < 16,
        ensures
            result is Some <==> spec_ticks_per_usecond(self.prescaler as u32) > 0,
            result matches Some(per_interval) ==> per_interval == self.interval_value as u32
                / spec_ticks_per_usecond(self.prescaler as u32),
    {
        let prescaler: u32 = self.prescaler as u32;
        proof {
            lemma_u32_shift_at_least_one((prescaler + 1) as u32);
        }
        let frequency_scaler = 1u32 << (prescaler + 1);
        let ticks_per_second = FREQUENCY_PERIPHERALS / frequency_scaler;
        let ticks_per_usecond = ticks_per_second / 1_000_000;
        if ticks_per_usecond == 0 {
            None
        } else {
            let ticks_per_interval: u32 = self.interval_value as u32;
            let useconds_per_interval = ticks_per_interval / ticks_per_usecond;
            Some(useconds_per_interval)
        }
    }
}

/// Triple timer counter mode.
#[derive(Clone, Copy, Debug, PartialEq, Eq, Structural)]
pub enum ClockSource {
    /// Use the processor's clock (the default).
    Internal,
    /// Use the external clock.
    External,
}

impl ClockSource {
    /// The clock control register's source bit: high selects the external
    /// clock.
    pub open spec fn spec_bool(self) -> bool {
        match self {
            Self::Internal => false,
            Self::External => true,
        }
    }

    /// Transform to boolean.
    pub fn as_bool(self) -> (result: bool)
        ensures
            result == self.spec_bool(),
    {
        match self {
            Self::Internal => false,
            Self::External => true,
        }
    }

    /// Decode the clock control register's source bit.
    pub fn from_bool(value: bool) -> (result: Self)
        ensures
            result.spec_bool() == value,
    {
        if value {
            Self::External
        } else {
            Self::Internal
        }
    }
}

/// Which edge of the external clock counts.
#[derive(Clone, Copy, Debug, PartialEq, Eq, Structural)]
pub enum ExternalClockEdge {
    /// Count the external clock's positive edges (the default).
    Positive,
    /// Count the external clock's negative edges.
    Negative,
}

impl ExternalClockEdge {
    /// The clock control register's edge bit: high selects the negative
    /// edge.
    pub open spec fn spec_bool(self) -> bool {
        match self {
            Self::Positive => false,
            Self::Negative => true,
        }
    }

    /// Transform to boolean.
    pub fn as_bool(self) -> (result: bool)
        ensures
            result == self.spec_bool(),
    {
        match self {
            Self::Positive => false,
            Self::Negative => true,
        }
    }

    /// Decode the clock control register's edge bit.
    pub fn from_bool(value: bool) -> (result: Self)
        ensures
            result.spec_bool() == value,
    {
        if value {
            Self::Negative
        } else {
            Self::Positive
        }
    }
}

/// When the counter raises its interrupt.
#[derive(Clone, Copy, Debug, PartialEq, Eq, Structural)]
pub enum TimerMode {
    /// An interrupt is generated when the counter overflows (the default).
    Overflow,
    /// An interrupt is generated when the counter reaches the interval
    /// register's value.
    Interval,
}

impl TimerMode {
    /// The counter control register's mode bit: high selects interval mode.
    pub open spec fn spec_bool(self) -> bool {
        match self {
            Self::Overflow => false,
            Self::Interval => true,
        }
    }

    /// Transform to boolean.
    pub fn as_bool(self) -> (result: bool)
        ensures
            result == self.spec_bool(),
    {
        match self {
            Self::Overflow => false,
            Self::Interval => true,
        }
    }

    /// Decode the counter control register's mode bit.
    pub fn from_bool(value: bool) -> (result: Self)
        ensures
            result.spec_bool() == value,
    {
        if value {
            Self::Interval
        } else {
            Self::Overflow
        }
    }
}

/// Which way the counter counts.
#[derive(Clone, Copy, Debug, PartialEq, Eq, Structural)]
pub enum TimerDirection {
    /// The counter counts up (the default).
    Increment,
    /// The counter counts down.
    Decrement,
}

impl TimerDirection {
    /// The counter control register's direction bit: high counts down.
    pub open spec fn spec_bool(self) -> bool {
        match self {
            Self::Increment => false,
            Self::Decrement => true,
        }
    }

    /// Transform to boolean.
    pub fn as_bool(self) -> (result: bool)
        ensures
            result == self.spec_bool(),
    {
        match self {
            Self::Increment => false,
            Self::Decrement => true,
        }
    }

    /// Decode the counter control register's direction bit.
    pub fn from_bool(value: bool) -> (result: Self)
        ensures
            result.spec_bool() == value,
    {
        if value {
            Self::Decrement
        } else {
            Self::Increment
        }
    }
}

/// Which way the output waveform swings.
#[derive(Clone, Copy, Debug, PartialEq, Eq, Structural)]
pub enum WaveformPolarity {
    /// The waveform goes from low to high on a match interrupt and returns
    /// low on an overflow or interval interrupt (the default).
    LowToHigh,
    /// The waveform goes from high to low on a match interrupt and returns
    /// high on an overflow or interval interrupt.
    HighToLow,
}

impl WaveformPolarity {
    /// The counter control register's polarity bit: high swings from high
    /// to low.
    pub open spec fn spec_bool(self) -> bool {
        match self {
            Self::LowToHigh => false,
            Self::HighToLow => true,
        }
    }

    /// Transform to boolean.
    pub fn as_bool(self) -> (result: bool)
        ensures
            result == self.spec_bool(),
    {
        match self {
            Self::LowToHigh => false,
            Self::HighToLow => true,
        }
    }

    /// Decode the counter control register's polarity bit.
    pub fn from_bool(value: bool) -> (result: Self)
        ensures
            result.spec_bool() == value,
    {
        if value {
            Self::HighToLow
        } else {
            Self::LowToHigh
        }
    }
}

/// One of the three match registers.
#[derive(Clone, Copy, Debug, PartialEq, Eq, Structural)]
pub enum MatchIndex {
    One,
    Two,
    Three,
}

impl MatchIndex {
    /// The match register's position.
    pub open spec fn spec_value(self) -> u32 {
        match self {
            Self::One => 0,
            Self::Two => 1,
            Self::Three => 2,
        }
    }

    /// The match register's position.
    pub fn as_u32(self) -> (result: u32)
        ensures
            result == self.spec_value(),
    {
        match self {
            Self::One => 0,
            Self::Two => 1,
            Self::Three => 2,
        }
    }
}

/// When the event timer counts external clock cycles.
#[derive(Clone, Copy, Debug, PartialEq, Eq, Structural)]
pub enum EventTimerPolarity {
    /// The event timer counts clock cycles while the external clock is
    /// high (the default).
    High,
    /// The event timer counts clock cycles while the external clock is
    /// low.
    Low,
}

impl EventTimerPolarity {
    /// The event control register's polarity bit: high counts the low
    /// phase.
    pub open spec fn spec_bool(self) -> bool {
        match self {
            Self::High => false,
            Self::Low => true,
        }
    }

    /// Transform to boolean.
    pub fn as_bool(self) -> (result: bool)
        ensures
            result == self.spec_bool(),
    {
        match self {
            Self::High => false,
            Self::Low => true,
        }
    }

    /// Decode the event control register's polarity bit.
    pub fn from_bool(value: bool) -> (result: Self)
        ensures
            result.spec_bool() == value,
    {
        if value {
            Self::Low
        } else {
            Self::High
        }
    }
}

/// What the event timer does when it overflows.
#[derive(Clone, Copy, Debug, PartialEq, Eq, Structural)]
pub enum EventTimerMode {
    /// The event timer is disabled and its count reset after an overflow
    /// (the default).
    StopAndResetAfterOverflow,
    /// The event timer continues counting after an overflow.
    ContinueAfterOverflow,
}

impl EventTimerMode {
    /// The event control register's mode bit: high continues after
    /// overflow.
    pub open spec fn spec_bool(self) -> bool {
        match self {
            Self::StopAndResetAfterOverflow => false,
            Self::ContinueAfterOverflow => true,
        }
    }

    /// Transform to boolean.
    pub fn as_bool(self) -> (result: bool)
        ensures
            result == self.spec_bool(),
    {
        match self {
            Self::StopAndResetAfterOverflow => false,
            Self::ContinueAfterOverflow => true,
        }
    }

    /// Decode the event control register's mode bit.
    pub fn from_bool(value: bool) -> (result: Self)
        ensures
            result.spec_bool() == value,
    {
        if value {
            Self::ContinueAfterOverflow
        } else {
            Self::StopAndResetAfterOverflow
        }
    }
}

/// The decoded interrupt status register.
#[derive(Clone, Copy, Debug, PartialEq, Eq, Structural)]
pub struct InterruptStatus {
    /// The counter reached the interval value.
    pub interval_interrupt: bool,
    /// The counter reached match value 1.
    pub match_1_interrupt: bool,
    /// The counter reached match value 2.
    pub match_2_interrupt: bool,
    /// The counter reached match value 3.
    pub match_3_interrupt: bool,
    /// The counter overflowed.
    pub counter_overflow: bool,
    /// The event timer overflowed.
    pub event_timer_overflow_interrupt: bool,
}

impl InterruptStatus {
    /// Decode an interrupt status value.
    pub fn new(value: u32) -> (result: Self)
        ensures
            result.interval_interrupt == u32_bit(value, 0),
            result.match_1_interrupt == u32_bit(value, 1),
            result.match_2_interrupt == u32_bit(value, 2),
            result.match_3_interrupt == u32_bit(value, 3),
            result.counter_overflow == u32_bit(value, 4),
            result.event_timer_overflow_interrupt == u32_bit(value, 5),
    {
        Self {
            interval_interrupt: value.read_bit(0),
            match_1_interrupt: value.read_bit(1),
            match_2_interrupt: value.read_bit(2),
            match_3_interrupt: value.read_bit(3),
            counter_overflow: value.read_bit(4),
            event_timer_overflow_interrupt: value.read_bit(5),
        }
    }
}

/// Register file of one triple-timer-counter channel.
pub struct TTCTimer {
    /// Clock control register.
    pub clock_control: u32,
    /// Counter control register.
    pub counter_control: u32,
    /// The counter's value.
    pub counter_value: u32,
    /// The interval's value.
    pub interval_value: u32,
    /// Match value 1.
    pub match_value_0: u32,
    /// Match value 2.
    pub match_value_1: u32,
    /// Match value 3.
    pub match_value_2: u32,
    /// Interrupt status register; reading it clears it.
    pub interrupt_status: u32,
    /// Interrupt enable register.
    pub interrupt_enable: u32,
    /// Event control register.
    pub event_control_timer: u32,
    /// Clock cycle count of the event timer.
    pub event: u32,
}

impl TTCTimer {
    /// True if `other` matches `self` on every field but the clock control
    /// register.
    pub open spec fn same_except_clock_control(self, other: TTCTimer) -> bool {
        TTCTimer { clock_control: other.clock_control, ..self } == other
    }

    /// True if `other` matches `self` on every field but the counter
    /// control register.
    pub open spec fn same_except_counter_control(self, other: TTCTimer) -> bool {
        TTCTimer { counter_control: other.counter_control, ..self } == other
    }

    /// True if `other` matches `self` on every field but the interrupt
    /// enable register.
    pub open spec fn same_except_interrupt_enable(self, other: TTCTimer) -> bool {
        TTCTimer { interrupt_enable: other.interrupt_enable, ..self } == other
    }

    /// True if `other` matches `self` on every field but the event control
    /// register.
    pub open spec fn same_except_event_control(self, other: TTCTimer) -> bool {
        TTCTimer { event_control_timer: other.event_control_timer, ..self } == other
    }

    /// A counter channel in its power-on state.
    pub fn new() -> (result: TTCTimer)
        ensures
            result == (TTCTimer {
                clock_control: 0,
                counter_control: 0x21,
                counter_value: 0,
                interval_value: 0,
                match_value_0: 0,
                match_value_1: 0,
                match_value_2: 0,
                interrupt_status: 0,
                interrupt_enable: 0,
                event_control_timer: 0,
                event: 0,
            }),
    {
        TTCTimer {
            clock_control: 0,
            counter_control: 0x21,
            counter_value: 0,
            interval_value: 0,
            match_value_0: 0,
            match_value_1: 0,
            match_value_2: 0,
            interrupt_status: 0,
            interrupt_enable: 0,
            event_control_timer: 0,
            event: 0,
        }
    }

    /// Enable or disable the prescaler.
    pub fn toggle_prescaler(&mut self, enable: bool)
        ensures
            *final(self) == (TTCTimer {
                clock_control: if enable {
                    u32_set_bit(old(self).clock_control, 0)
                } else {
                    u32_clear_bit(old(self).clock_control, 0)
                },
                ..*old(self)
            }),
            u32_bit(final(self).clock_control, 0) == enable,
    {
        let register = self.clock_control;
        self.clock_control = if enable {
            register.set_bit(0)
        } else {
            register.clear_bit(0)
        };
        proof {
            if enable {
                lemma_u32_set_bit_reads(register, 0, 0);
            } else {
                lemma_u32_clear_bit_reads(register, 0, 0);
            }
        }
    }

    /// True if the prescaler is enabled.
    pub fn prescaler_enabled(&self) -> (result: bool)
        ensures
            result == u32_bit(self.clock_control, 0),
    {
        self.clock_control.read_bit(0)
    }

    /// Set the 4-bit prescaler value.
    pub fn set_prescaler(&mut self, value: u8)
        requires
            value < 16,
        ensures
            *final(self) == (TTCTimer {
                clock_control: u32_write_bits(old(self).clock_control, 1, value as u32, 4),
                ..*old(self)
            }),
            u32_read_bits(final(self).clock_control, 1, 4) == value,
    {
        proof {
            lemma_u32_mask_values();
        }
        let register = self.clock_control;
        self.clock_control = register.write_bits(1, value as u32, 4);
        proof {
            lemma_u32_write_bits_reads_inside(register, 1, value as u32, 4);
        }
    }

    /// Get the 4-bit prescaler value.
    pub fn get_prescaler(&self) -> (result: u8)
        ensures
            result == u32_read_bits(self.clock_control, 1, 4),
            result < 16,
    {
        let field = self.clock_control.read_bits(core::ops::RangeInclusive::new(1u32, 4u32));
        proof {
            lemma_u32_read_bits_bound(self.clock_control, 1, 4);
            lemma_u32_mask_values();
        }
        field as u8
    }

    /// Select the counter's clock source.
    pub fn set_clock_source(&mut self, source: ClockSource)
        ensures
            *final(self) == (TTCTimer {
                clock_control: if source.spec_bool() {
                    u32_set_bit(old(self).clock_control, 5)
                } else {
                    u32_clear_bit(old(self).clock_control, 5)
                },
                ..*old(self)
            }),
            u32_bit(final(self).clock_control, 5) == source.spec_bool(),
    {
        let register = self.clock_control;
        self.clock_control = if source.as_bool() {
            register.set_bit(5)
        } else {
            register.clear_bit(5)
        };
        proof {
            if source.spec_bool() {
                lemma_u32_set_bit_reads(register, 5, 5);
            } else {
                lemma_u32_clear_bit_reads(register, 5, 5);
            }
        }
    }

    /// Get the counter's clock source.
    pub fn get_clock_source(&self) -> (result: ClockSource)
        ensures
            result.spec_bool() == u32_bit(self.clock_control, 5),
    {
        let value = self.clock_control.read_bit(5);
        ClockSource::from_bool(value)
    }

    /// Select which edge of the external clock counts.
    pub fn set_external_clock_edge(&mut self, edge: ExternalClockEdge)
        ensures
            *final(self) == (TTCTimer {
                clock_control: if edge.spec_bool() {
                    u32_set_bit(old(self).clock_control, 6)
                } else {
                    u32_clear_bit(old(self).clock_control, 6)
                },
                ..*old(self)
            }),
            u32_bit(final(self).clock_control, 6) == edge.spec_bool(),
    {
        let register = self.clock_control;
        self.clock_control = if edge.as_bool() {
            register.set_bit(6)
        } else {
            register.clear_bit(6)
        };
        proof {
            if edge.spec_bool() {
                lemma_u32_set_bit_reads(register, 6, 6);
            } else {
                lemma_u32_clear_bit_reads(register, 6, 6);
            }
        }
    }

    /// Get which edge of the external clock counts.
    pub fn get_external_clock_edge(&self) -> (result: ExternalClockEdge)
        ensures
            result.spec_bool() == u32_bit(self.clock_control, 6),
    {
        let value = self.clock_control.read_bit(6);
        ExternalClockEdge::from_bool(value)
    }

    /// Enable or disable the counter.  The counter's disable bit is active
    /// low.
    pub fn toggle_counter(&mut self, enable: bool)
        ensures
            *final(self) == (TTCTimer {
                counter_control: if enable {
                    u32_clear_bit(old(self).counter_control, 0)
                } else {
                    u32_set_bit(old(self).counter_control, 0)
                },
                ..*old(self)
            }),
            u32_bit(final(self).counter_control, 0) == !enable,
    {
        let register = self.counter_control;
        self.counter_control = if enable {
            register.clear_bit(0)
        } else {
            register.set_bit(0)
        };
        proof {
            if enable {
                lemma_u32_clear_bit_reads(register, 0, 0);
            } else {
                lemma_u32_set_bit_reads(register, 0, 0);
            }
        }
    }

    /// True if the counter is enabled.
    pub fn counter_enabled(&self) -> (result: bool)
        ensures
            result == !u32_bit(self.counter_control, 0),
    {
        !self.counter_control.read_bit(0)
    }

    /// Select overflow or interval mode.
    pub fn set_mode(&mut self, mode: TimerMode)
        ensures
            *final(self) == (TTCTimer {
                counter_control: if mode.spec_bool() {
                    u32_set_bit(old(self).counter_control, 1)
                } else {
                    u32_clear_bit(old(self).counter_control, 1)
                },
                ..*old(self)
            }),
            u32_bit(final(self).counter_control, 1) == mode.spec_bool(),
    {
        let register = self.counter_control;
        self.counter_control = if mode.as_bool() {
            register.set_bit(1)
        } else {
            register.clear_bit(1)
        };
        proof {
            if mode.spec_bool() {
                lemma_u32_set_bit_reads(register, 1, 1);
            } else {
                lemma_u32_clear_bit_reads(register, 1, 1);
            }
        }
    }

    /// Get the counter's mode.
    pub fn get_mode(&self) -> (result: TimerMode)
        ensures
            result.spec_bool() == u32_bit(self.counter_control, 1),
    {
        let value = self.counter_control.read_bit(1);
        TimerMode::from_bool(value)
    }

    /// Select the counting direction.
    pub fn set_direction(&mut self, direction: TimerDirection)
        ensures
            *final(self) == (TTCTimer {
                counter_control: if direction.spec_bool() {
                    u32_set_bit(old(self).counter_control, 2)
                } else {
                    u32_clear_bit(old(self).counter_control, 2)
                },
                ..*old(self)
            }),
            u32_bit(final(self).counter_control, 2) == direction.spec_bool(),
    {
        let register = self.counter_control;
        self.counter_control = if direction.as_bool() {
            register.set_bit(2)
        } else {
            register.clear_bit(2)
        };
        proof {
            if direction.spec_bool() {
                lemma_u32_set_bit_reads(register, 2, 2);
            } else {
                lemma_u32_clear_bit_reads(register, 2, 2);
            }
        }
    }

    /// Get the counting direction.
    pub fn get_direction(&self) -> (result: TimerDirection)
        ensures
            result.spec_bool() == u32_bit(self.counter_control, 2),
    {
        let value = self.counter_control.read_bit(2);
        TimerDirection::from_bool(value)
    }

    /// Enable or disable match mode.
    pub fn toggle_match_mode(&mut self, enable: bool)
        ensures
            *final(self) == (TTCTimer {
                counter_control: if enable {
                    u32_set_bit(old(self).counter_control, 3)
                } else {
                    u32_clear_bit(old(self).counter_control, 3)
                },
                ..*old(self)
            }),
            u32_bit(final(self).counter_control, 3) == enable,
    {
        let register = self.counter_control;
        self.counter_control = if enable {
            register.set_bit(3)
        } else {
            register.clear_bit(3)
        };
        proof {
            if enable {
                lemma_u32_set_bit_reads(register, 3, 3);
            } else {
                lemma_u32_clear_bit_reads(register, 3, 3);
            }
        }
    }

    /// True if match mode is enabled.
    pub fn match_mode_enabled(&self) -> (result: bool)
        ensures
            result == u32_bit(self.counter_control, 3),
    {
        self.counter_control.read_bit(3)
    }

    /// Pulse the counter's restart bit: the counter restarts from its
    /// starting value.
    pub fn reset(&mut self)
        ensures
            *final(self) == (TTCTimer {
                counter_control: u32_clear_bit(u32_set_bit(old(self).counter_control, 4), 4),
                ..*old(self)
            }),
    {
        let raised = self.counter_control.set_bit(4);
        self.counter_control = raised.clear_bit(4);
    }

    /// Enable or disable the output waveform.  The waveform's disable bit
    /// is active low.
    pub fn toggle_output_waveform(&mut self, enable: bool)
        ensures
            *final(self) == (TTCTimer {
                counter_control: if enable {
                    u32_clear_bit(old(self).counter_control, 5)
                } else {
                    u32_set_bit(old(self).counter_control, 5)
                },
                ..*old(self)
            }),
            u32_bit(final(self).counter_control, 5) == !enable,
    {
        let register = self.counter_control;
        self.counter_control = if enable {
            register.clear_bit(5)
        } else {
            register.set_bit(5)
        };
        proof {
            if enable {
                lemma_u32_clear_bit_reads(register, 5, 5);
            } else {
                lemma_u32_set_bit_reads(register, 5, 5);
            }
        }
    }

    /// True if the output waveform is enabled.
    pub fn output_waveform_enabled(&self) -> (result: bool)
        ensures
            result == !u32_bit(self.counter_control, 5),
    {
        !self.counter_control.read_bit(5)
    }

    /// Select the output waveform's polarity.
    pub fn set_waveform_polarity(&mut self, polarity: WaveformPolarity)
        ensures
            *final(self) == (TTCTimer {
                counter_control: if polarity.spec_bool() {
                    u32_set_bit(old(self).counter_control, 6)
                } else {
                    u32_clear_bit(old(self).counter_control, 6)
                },
                ..*old(self)
            }),
            u32_bit(final(self).counter_control, 6) == polarity.spec_bool(),
    {
        let register = self.counter_control;
        self.counter_control = if polarity.as_bool() {
            register.set_bit(6)
        } else {
            register.clear_bit(6)
        };
        proof {
            if polarity.spec_bool() {
                lemma_u32_set_bit_reads(register, 6, 6);
            } else {
                lemma_u32_clear_bit_reads(register, 6, 6);
            }
        }
    }

    /// Get the output waveform's polarity.
    pub fn get_waveform_polarity(&self) -> (result: WaveformPolarity)
        ensures
            result.spec_bool() == u32_bit(self.counter_control, 6),
    {
        let value = self.counter_control.read_bit(6);
        WaveformPolarity::from_bool(value)
    }

    /// Get the counter's value.
    pub fn get_counter_value(&self) -> (result: u16)
        ensures
            result == self.counter_value as u16,
    {
        self.counter_value as u16
    }

    /// Set the interval's value.
    pub fn set_interval_value(&mut self, value: u16)
        ensures
            *final(self) == (TTCTimer { interval_value: value as u32, ..*old(self) }),
    {
        self.interval_value = value as u32;
    }

    /// Get the interval's value.
    pub fn get_interval_value(&self) -> (result: u16)
        ensures
            result == self.interval_value as u16,
    {
        self.interval_value as u16
    }

    /// Set one of the match values.
    pub fn set_match_value(&mut self, index: MatchIndex, value: u16)
        ensures
            index is One ==> *final(self) == (TTCTimer {
                match_value_0: value as u32,
                ..*old(self)
            }),
            index is Two ==> *final(self) == (TTCTimer {
                match_value_1: value as u32,
                ..*old(self)
            }),
            index is Three ==> *final(self) == (TTCTimer {
                match_value_2: value as u32,
                ..*old(self)
            }),
    {
        match index {
            MatchIndex::One => {
                self.match_value_0 = value as u32;
            },
            MatchIndex::Two => {
                self.match_value_1 = value as u32;
            },
            MatchIndex::Three => {
                self.match_value_2 = value as u32;
            },
        }
    }

    /// Get one of the match values.
    pub fn get_match_value(&self, index: MatchIndex) -> (result: u16)
        ensures
            index is One ==> result == self.match_value_0 as u16,
            index is Two ==> result == self.match_value_1 as u16,
            index is Three ==> result == self.match_value_2 as u16,
    {
        let register = match index {
            MatchIndex::One => self.match_value_0,
            MatchIndex::Two => self.match_value_1,
            MatchIndex::Three => self.match_value_2,
        };
        register as u16
    }

    /// Read and thereby clear the interrupt status register.
    pub fn clear_interrupt(&mut self) -> (result: InterruptStatus)
        ensures
            result.interval_interrupt == u32_bit(old(self).interrupt_status, 0),
            result.match_1_interrupt == u32_bit(old(self).interrupt_status, 1),
            result.match_2_interrupt == u32_bit(old(self).interrupt_status, 2),
            result.match_3_interrupt == u32_bit(old(self).interrupt_status, 3),
            result.counter_overflow == u32_bit(old(self).interrupt_status, 4),
            result.event_timer_overflow_interrupt == u32_bit(old(self).interrupt_status, 5),
            *final(self) == (TTCTimer { interrupt_status: 0, ..*old(self) }),
    {
        let value = self.interrupt_status;
        self.interrupt_status = 0;
        InterruptStatus::new(value)
    }

    /// Enable or disable the interval interrupt.
    pub fn toggle_interval_interrupt(&mut self, enable: bool)
        ensures
            *final(self) == (TTCTimer {
                interrupt_enable: if enable {
                    u32_set_bit(old(self).interrupt_enable, 0)
                } else {
                    u32_clear_bit(old(self).interrupt_enable, 0)
                },
                ..*old(self)
            }),
    {
        let register = self.interrupt_enable;
        self.interrupt_enable = if enable {
            register.set_bit(0)
        } else {
            register.clear_bit(0)
        };
    }

    /// Enable or disable one match interrupt.
    pub fn toggle_match_interrupt(&mut self, match_index: MatchIndex, enable: bool)
        ensures
            *final(self) == (TTCTimer {
                interrupt_enable: if enable {
                    u32_set_bit(old(self).interrupt_enable, (match_index.spec_value() + 1) as u32)
                } else {
                    u32_clear_bit(
                        old(self).interrupt_enable,
                        (match_index.spec_value() + 1) as u32,
                    )
                },
                ..*old(self)
            }),
    {
        let bit_index = match match_index {
            MatchIndex::One => 1,
            MatchIndex::Two => 2,
            MatchIndex::Three => 3,
        };
        let register = self.interrupt_enable;
        self.interrupt_enable = if enable {
            register.set_bit(bit_index)
        } else {
            register.clear_bit(bit_index)
        };
    }

    /// Enable or disable the counter overflow interrupt.
    pub fn toggle_counter_overflow_interrupt(&mut self, enable: bool)
        ensures
            *final(self) == (TTCTimer {
                interrupt_enable: if enable {
                    u32_set_bit(old(self).interrupt_enable, 4)
                } else {
                    u32_clear_bit(old(self).interrupt_enable, 4)
                },
                ..*old(self)
            }),
    {
        let register = self.interrupt_enable;
        self.interrupt_enable = if enable {
            register.set_bit(4)
        } else {
            register.clear_bit(4)
        };
    }

    /// Enable or disable the event timer overflow interrupt.
    pub fn toggle_event_timer_overflow_interrupt(&mut self, enable: bool)
        ensures
            *final(self) == (TTCTimer {
                interrupt_enable: if enable {
                    u32_set_bit(old(self).interrupt_enable, 5)
                } else {
                    u32_clear_bit(old(self).interrupt_enable, 5)
                },
                ..*old(self)
            }),
    {
        let register = self.interrupt_enable;
        self.interrupt_enable = if enable {
            register.set_bit(5)
        } else {
            register.clear_bit(5)
        };
    }

    /// Enable or disable all six interrupts of the channel.
    pub fn toggle_all_interrupts(&mut self, enable: bool)
        ensures
            old(self).same_except_interrupt_enable(*final(self)),
            forall|bit: u32| bit < 6 ==> u32_bit(final(self).interrupt_enable, bit) == enable,
            forall|bit: u32|
                6 <= bit < 32 ==> u32_bit(final(self).interrupt_enable, bit) == u32_bit(
                    old(self).interrupt_enable,
                    bit,
                ),
    {
        self.toggle_interval_interrupt(enable);
        self.toggle_match_interrupt(MatchIndex::One, enable);
        self.toggle_match_interrupt(MatchIndex::Two, enable);
        self.toggle_match_interrupt(MatchIndex::Three, enable);
        self.toggle_counter_overflow_interrupt(enable);
        self.toggle_event_timer_overflow_interrupt(enable);
        proof {
            let start = old(self).interrupt_enable;
            assert forall|bit: u32| bit < 32 implies u32_bit(self.interrupt_enable, bit) == (
            if bit < 6 {
                enable
            } else {
                u32_bit(start, bit)
            }) by {
                let step_0 = if enable {
                    u32_set_bit(start, 0)
                } else {
                    u32_clear_bit(start, 0)
                };
                let step_1 = if enable {
                    u32_set_bit(step_0, 1)
                } else {
                    u32_clear_bit(step_0, 1)
                };
                let step_2 = if enable {
                    u32_set_bit(step_1, 2)
                } else {
                    u32_clear_bit(step_1, 2)
                };
                let step_3 = if enable {
                    u32_set_bit(step_2, 3)
                } else {
                    u32_clear_bit(step_2, 3)
                };
                let step_4 = if enable {
                    u32_set_bit(step_3, 4)
                } else {
                    u32_clear_bit(step_3, 4)
                };
                if enable {
                    lemma_u32_set_bit_reads(start, 0, bit);
                    lemma_u32_set_bit_reads(step_0, 1, bit);
                    lemma_u32_set_bit_reads(step_1, 2, bit);
                    lemma_u32_set_bit_reads(step_2, 3, bit);
                    lemma_u32_set_bit_reads(step_3, 4, bit);
                    lemma_u32_set_bit_reads(step_4, 5, bit);
                } else {
                    lemma_u32_clear_bit_reads(start, 0, bit);
                    lemma_u32_clear_bit_reads(step_0, 1, bit);
                    lemma_u32_clear_bit_reads(step_1, 2, bit);
                    lemma_u32_clear_bit_reads(step_2, 3, bit);
                    lemma_u32_clear_bit_reads(step_3, 4, bit);
                    lemma_u32_clear_bit_reads(step_4, 5, bit);
                }
            }
        }
    }

    /// Enable or disable the event timer.
    pub fn toggle_event_timer(&mut self, enable: bool)
        ensures
            *final(self) == (TTCTimer {
                event_control_timer: if enable {
                    u32_set_bit(old(self).event_control_timer, 0)
                } else {
                    u32_clear_bit(old(self).event_control_timer, 0)
                },
                ..*old(self)
            }),
    {
        let register = self.event_control_timer;
        self.event_control_timer = if enable {
            register.set_bit(0)
        } else {
            register.clear_bit(0)
        };
    }

    /// Select which phase of the external clock the event timer counts.
    pub fn set_event_timer_polarity(&mut self, polarity: EventTimerPolarity)
        ensures
            *final(self) == (TTCTimer {
                event_control_timer: if polarity.spec_bool() {
                    u32_set_bit(old(self).event_control_timer, 1)
                } else {
                    u32_clear_bit(old(self).event_control_timer, 1)
                },
                ..*old(self)
            }),
    {
        let register = self.event_control_timer;
        self.event_control_timer = if polarity.as_bool() {
            register.set_bit(1)
        } else {
            register.clear_bit(1)
        };
    }

    /// Select what the event timer does when it overflows.
    pub fn set_event_timer_mode(&mut self, mode: EventTimerMode)
        ensures
            *final(self) == (TTCTimer {
                event_control_timer: if mode.spec_bool() {
                    u32_set_bit(old(self).event_control_timer, 2)
                } else {
                    u32_clear_bit(old(self).event_control_timer, 2)
                },
                ..*old(self)
            }),
    {
        let register = self.event_control_timer;
        self.event_control_timer = if mode.as_bool() {
            register.set_bit(2)
        } else {
            register.clear_bit(2)
        };
    }

    /// Get the event timer's clock cycle count.
    pub fn get_event_timer_count(&self) -> (result: u16)
        ensures
            result == self.event as u16,
    {
        self.event as u16
    }

    /// Solve and program prescaler and interval values from the requested
    /// microseconds.  When no programmable interval comes within a tenth of
    /// the request, nothing is written and the request is rejected.
    pub fn set_interval_useconds(&mut self, useconds: u32) -> (result: Result<(), ()>)
        ensures
            result is Err ==> *final(self) == *old(self),
            result is Ok ==> {
                let prescaler = u32_read_bits(final(self).clock_control, 1, 4);
                let ticks = final(self).interval_value;
                &&& final(self).clock_control == u32_write_bits(
                    old(self).clock_control,
                    1,
                    prescaler,
                    4,
                )
                &&& TTCTimer {
                    clock_control: old(self).clock_control,
                    interval_value: old(self).interval_value,
                    ..*final(self)
                } == *old(self)
                &&& forall|other_prescaler: u32, other_ticks: u32|
                    spec_candidate(other_prescaler, other_ticks) ==> spec_interval_error(
                        useconds,
                        prescaler,
                        ticks,
                    ) <= spec_interval_error(useconds, other_prescaler, other_ticks)
                &&& spec_ticks_per_usecond(prescaler) > 0
                &&& useconds - useconds / 10 <= ticks / spec_ticks_per_usecond(prescaler)
                    <= useconds + useconds / 10
            },
    {
        let parameters = Parameters::solve(useconds);
        let useconds_per_interval = match parameters.useconds_per_interval() {
            Option::Some(per_interval) => per_interval,
            Option::None => {
                return Err(());
            },
        };
        let lower_bound: u32 = useconds - useconds / 10;
        let upper_bound: u64 = useconds as u64 + (useconds / 10) as u64;
        if lower_bound <= useconds_per_interval && useconds_per_interval as u64 <= upper_bound {
            self.set_prescaler(parameters.prescaler);
            self.set_interval_value(parameters.interval_value);
            Ok(())
        } else {
            Err(())
        }
    }
}

} // verus!
