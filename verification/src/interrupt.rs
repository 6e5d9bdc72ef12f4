//! Interrupt functionality.
//!
//! The distributor ([`gic::Gic`]) routes interrupt sources toward the
//! per-core interface ([`icc::Icc`]), which gates them by priority and
//! exposes the acknowledge/complete protocol.  Both are modelled as owned
//! register files; see the module documentation of [`gic`] and [`icc`].

pub mod gic;
pub mod icc;
pub mod irq_numbers;

use vstd::prelude::*;

verus! {

/// Used to determine in which order parallel interrupts are handled.
///
/// The higher the number, the lower the urgency.  The hardware keeps a
/// priority in an 8-bit field of which only the 5 most significant bits are
/// implemented, so a priority's byte encoding is its level shifted up by 3.
#[derive(Clone, Copy, Debug, PartialEq, Eq, Structural)]
pub enum InterruptPriority {
    /// Highest priority.
    Priority0,
    Priority1,
    Priority2,
    Priority3,
    Priority4,
    Priority5,
    Priority6,
    Priority7,
    Priority8,
    Priority9,
    Priority10,
    Priority11,
    Priority12,
    Priority13,
    Priority14,
    Priority15,
    Priority16,
    Priority17,
    Priority18,
    Priority19,
    Priority20,
    Priority21,
    Priority22,
    Priority23,
    Priority24,
    Priority25,
    Priority26,
    Priority27,
    Priority28,
    Priority29,
    Priority30,
    /// Lowest priority.
    Priority31,
}

impl InterruptPriority {
    /// The priority level: 0 is the most urgent, 31 the least.
    pub open spec fn spec_level(self) -> u32 {
        match self {
            Self::Priority0 => 0,
            Self::Priority1 => 1,
            Self::Priority2 => 2,
            Self::Priority3 => 3,
            Self::Priority4 => 4,
            Self::Priority5 => 5,
            Self::Priority6 => 6,
            Self::Priority7 => 7,
            Self::Priority8 => 8,
            Self::Priority9 => 9,
            Self::Priority10 => 10,
            Self::Priority11 => 11,
            Self::Priority12 => 12,
            Self::Priority13 => 13,
            Self::Priority14 => 14,
            Self::Priority15 => 15,
            Self::Priority16 => 16,
            Self::Priority17 => 17,
            Self::Priority18 => 18,
            Self::Priority19 => 19,
            Self::Priority20 => 20,
            Self::Priority21 => 21,
            Self::Priority22 => 22,
            Self::Priority23 => 23,
            Self::Priority24 => 24,
            Self::Priority25 => 25,
            Self::Priority26 => 26,
            Self::Priority27 => 27,
            Self::Priority28 => 28,
            Self::Priority29 => 29,
            Self::Priority30 => 30,
            Self::Priority31 => 31,
        }
    }

    /// The byte form kept in the hardware's 8-bit priority fields: the level
    /// in the 5 most significant bits, the 3 low bits zero.
    pub open spec fn spec_byte(self) -> u8 {
        (self.spec_level() * 8) as u8
    }

    /// Decode the byte form of a priority.  Only bytes whose 3 low bits are
    /// zero encode a priority.
    pub fn from_u8(value: u8) -> (result: Self)
        requires
            value % 8 == 0,
        ensures
            result.spec_byte() == value,
            result.spec_level() == value / 8,
    {
        match value {
            0b00000000 => Self::Priority0,
            0b00001000 => Self::Priority1,
            0b00010000 => Self::Priority2,
            0b00011000 => Self::Priority3,
            0b00100000 => Self::Priority4,
            0b00101000 => Self::Priority5,
            0b00110000 => Self::Priority6,
            0b00111000 => Self::Priority7,
            0b01000000 => Self::Priority8,
            0b01001000 => Self::Priority9,
            0b01010000 => Self::Priority10,
            0b01011000 => Self::Priority11,
            0b01100000 => Self::Priority12,
            0b01101000 => Self::Priority13,
            0b01110000 => Self::Priority14,
            0b01111000 => Self::Priority15,
            0b10000000 => Self::Priority16,
            0b10001000 => Self::Priority17,
            0b10010000 => Self::Priority18,
            0b10011000 => Self::Priority19,
            0b10100000 => Self::Priority20,
            0b10101000 => Self::Priority21,
            0b10110000 => Self::Priority22,
            0b10111000 => Self::Priority23,
            0b11000000 => Self::Priority24,
            0b11001000 => Self::Priority25,
            0b11010000 => Self::Priority26,
            0b11011000 => Self::Priority27,
            0b11100000 => Self::Priority28,
            0b11101000 => Self::Priority29,
            0b11110000 => Self::Priority30,
            0b11111000 => Self::Priority31,
            _ => vstd::pervasive::unreached(),
        }
    }

    /// The byte form kept in the hardware's 8-bit priority fields.
    pub fn as_u8(self) -> (result: u8)
        ensures
            result == self.spec_byte(),
    {
        match self {
            Self::Priority0 => 0b00000000,
            Self::Priority1 => 0b00001000,
            Self::Priority2 => 0b00010000,
            Self::Priority3 => 0b00011000,
            Self::Priority4 => 0b00100000,
            Self::Priority5 => 0b00101000,
            Self::Priority6 => 0b00110000,
            Self::Priority7 => 0b00111000,
            Self::Priority8 => 0b01000000,
            Self::Priority9 => 0b01001000,
            Self::Priority10 => 0b01010000,
            Self::Priority11 => 0b01011000,
            Self::Priority12 => 0b01100000,
            Self::Priority13 => 0b01101000,
            Self::Priority14 => 0b01110000,
            Self::Priority15 => 0b01111000,
            Self::Priority16 => 0b10000000,
            Self::Priority17 => 0b10001000,
            Self::Priority18 => 0b10010000,
            Self::Priority19 => 0b10011000,
            Self::Priority20 => 0b10100000,
            Self::Priority21 => 0b10101000,
            Self::Priority22 => 0b10110000,
            Self::Priority23 => 0b10111000,
            Self::Priority24 => 0b11000000,
            Self::Priority25 => 0b11001000,
            Self::Priority26 => 0b11010000,
            Self::Priority27 => 0b11011000,
            Self::Priority28 => 0b11100000,
            Self::Priority29 => 0b11101000,
            Self::Priority30 => 0b11110000,
            Self::Priority31 => 0b11111000,
        }
    }
}

/// Priority levels and their byte forms correspond one to one.
pub proof fn lemma_priority_byte_injective(first: InterruptPriority, second: InterruptPriority)
    ensures
        first.spec_level() <= 31,
        first.spec_byte() == first.spec_level() * 8,
        first.spec_byte() == second.spec_byte() ==> first == second,
{
}

} // verus!
