//! System timing values.

use vstd::prelude::*;

verus! {

/// Processor frequency.
///
/// The board provides a 50 MHz clock to the chip's `PS_CLK` pin, which lets
/// the processor operate at a maximum frequency of 650 MHz.
pub const FREQUENCY_PROCESSOR: u32 = 650_000_000;

/// Peripherals are clocked at half of the [processor frequency](FREQUENCY_PROCESSOR).
pub const FREQUENCY_PERIPHERALS: u32 = FREQUENCY_PROCESSOR / 2;

} // verus!
