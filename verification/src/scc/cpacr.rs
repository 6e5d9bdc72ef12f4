//! Coprocessor access control register.
//!
//! The register holds a two-bit access field per coprocessor.  Reading and
//! writing the register itself takes coprocessor instructions, so the
//! access-granting operation lives with the processor-specific code; the
//! field layout is defined here.

use vstd::prelude::*;

verus! {

/// A coprocessor whose access the register controls.
#[derive(Clone, Copy, Debug, PartialEq, Eq, Structural)]
pub enum CoProcessor {
    /// Coprocessor 0.
    Cp0,
    /// Coprocessor 1.
    Cp1,
    /// Coprocessor 2.
    Cp2,
    /// Coprocessor 3.
    Cp3,
    /// Coprocessor 4.
    Cp4,
    /// Coprocessor 5.
    Cp5,
    /// Coprocessor 6.
    Cp6,
    /// Coprocessor 7.
    Cp7,
    /// Coprocessor 8.
    Cp8,
    /// Coprocessor 9.
    Cp9,
    /// Coprocessor 10.
    Cp10,
    /// Coprocessor 11.
    Cp11,
    /// Coprocessor 12.
    Cp12,
    /// Coprocessor 13.
    Cp13,
}

impl CoProcessor {
    /// The coprocessor's number; its access field sits at twice this bit
    /// position.
    pub open spec fn spec_value(self) -> u32 {
        match self {
            Self::Cp0 => 0,
            Self::Cp1 => 1,
            Self::Cp2 => 2,
            Self::Cp3 => 3,
            Self::Cp4 => 4,
            Self::Cp5 => 5,
            Self::Cp6 => 6,
            Self::Cp7 => 7,
            Self::Cp8 => 8,
            Self::Cp9 => 9,
            Self::Cp10 => 10,
            Self::Cp11 => 11,
            Self::Cp12 => 12,
            Self::Cp13 => 13,
        }
    }

    /// Transform to unsigned 32-bit integer.
    pub fn as_u32(self) -> (result: u32)
        ensures
            result == self.spec_value(),
            result < 14,
    {
        match self {
            Self::Cp0 => 0,
            Self::Cp1 => 1,
            Self::Cp2 => 2,
            Self::Cp3 => 3,
            Self::Cp4 => 4,
            Self::Cp5 => 5,
            Self::Cp6 => 6,
            Self::Cp7 => 7,
            Self::Cp8 => 8,
            Self::Cp9 => 9,
            Self::Cp10 => 10,
            Self::Cp11 => 11,
            Self::Cp12 => 12,
            Self::Cp13 => 13,
        }
    }
}

/// Access right for privilege levels 0 and 1.
#[derive(Clone, Copy, Debug, PartialEq, Eq, Structural)]
pub enum Access {
    /// Access to the coprocessor generates an undefined instruction
    /// exception.
    Denied,
    /// Access to the coprocessor from privilege level 0 generates an
    /// undefined instruction exception.
    Pl1,
    /// Access is granted for privilege levels 0 and 1.
    Full,
}

impl Access {
    /// The two-bit access field.
    pub open spec fn spec_value(self) -> u32 {
        match self {
            Self::Denied => 0b00,
            Self::Pl1 => 0b01,
            Self::Full => 0b11,
        }
    }

    /// Transform to unsigned 32-bit integer.
    pub fn as_u32(self) -> (result: u32)
        ensures
            result == self.spec_value(),
            result <= 3,
    {
        match self {
            Self::Denied => 0b00,
            Self::Pl1 => 0b01,
            Self::Full => 0b11,
        }
    }
}

/// The register value that grants `access` to `coprocessor`, given the
/// register's previous value: the coprocessor's two-bit field replaced, all
/// other fields kept.
pub fn access_register_value(previous: u32, coprocessor: CoProcessor, access: Access) -> (result:
    u32)
    ensures
        result == crate::common::bitman::u32_write_bits(
            previous,
            (coprocessor.spec_value() * 2) as u32,
            access.spec_value(),
            2,
        ),
{
    proof {
        crate::common::bitman::lemma_u32_mask_values();
    }
    let offset = coprocessor.as_u32() * 2;
    let value = access.as_u32();
    crate::common::bitman::WriteBitwise::write_bits(&previous, offset, value, 2)
}

} // verus!
