//! Bit manipulation on fixed-width unsigned integers.
//!
//! The specification vocabulary (`u32_bit`, `u32_read_bits`, ...) used by the
//! register models of every peripheral lives here, together with the proved
//! bit-level lemmas that relate reads to prior writes.

use core::ops::RangeInclusive;
use vstd::prelude::*;

verus! {

/// Relies on `core::ops::RangeInclusive::start`: returns the lower bound of
/// the range (inclusive), as stored at construction.
pub assume_specification<Idx>[ RangeInclusive::<Idx>::start ](
    range: &RangeInclusive<Idx>,
) -> (result: &Idx)
    ensures
        *result == range@.start,
;

/// Relies on `core::ops::RangeInclusive::end`: returns the upper bound of
/// the range (inclusive), as stored at construction.
pub assume_specification<Idx>[ RangeInclusive::<Idx>::end ](
    range: &RangeInclusive<Idx>,
) -> (result: &Idx)
    ensures
        *result == range@.end,
;

/// True if bit `index` of `value` is high.
pub open spec fn u32_bit(value: u32, index: u32) -> bool {
    (value >> index) & 1u32 == 1u32
}

/// `value` with bit `index` set high.
pub open spec fn u32_set_bit(value: u32, index: u32) -> u32 {
    value | (1u32 << index)
}

/// `value` with bit `index` set low.
pub open spec fn u32_clear_bit(value: u32, index: u32) -> u32 {
    value & !(1u32 << index)
}

/// The lowest `length` bits high, all others low.
pub open spec fn u32_mask(length: u32) -> u32 {
    if length >= 32 {
        0xFFFF_FFFFu32
    } else {
        ((1u32 << length) - 1) as u32
    }
}

/// The bits of `value` from `start` to `end` (both inclusive), moved to bit 0.
pub open spec fn u32_read_bits(value: u32, start: u32, end: u32) -> u32 {
    (value >> start) & u32_mask(((end - start) + 1) as u32)
}

/// `value` with the `length`-bit field at `start` replaced by `field`.
pub open spec fn u32_write_bits(value: u32, start: u32, field: u32, length: u32) -> u32 {
    (value & !(u32_mask(length) << start)) | (field << start)
}

/// True if bit `index` of `value` is high.
pub open spec fn u8_bit(value: u8, index: u8) -> bool {
    (value >> index) & 1u8 == 1u8
}

/// `value` with bit `index` set high.
pub open spec fn u8_set_bit(value: u8, index: u8) -> u8 {
    value | (1u8 << index)
}

/// `value` with bit `index` set low.
pub open spec fn u8_clear_bit(value: u8, index: u8) -> u8 {
    value & !(1u8 << index)
}

/// The lowest `length` bits high, all others low.
pub open spec fn u8_mask(length: u8) -> u8 {
    if length >= 8 {
        0xFFu8
    } else {
        ((1u8 << length) - 1) as u8
    }
}

/// The bits of `value` from `start` to `end` (both inclusive), moved to bit 0.
pub open spec fn u8_read_bits(value: u8, start: u8, end: u8) -> u8 {
    (value >> start) & u8_mask(((end - start) + 1) as u8)
}

/// `value` with the `length`-bit field at `start` replaced by `field`.
pub open spec fn u8_write_bits(value: u8, start: u8, field: u8, length: u8) -> u8 {
    (value & !(u8_mask(length) << start)) | (field << start)
}

/// Can set single bit high.
pub trait SetBitwise: Sized {
    /// My type.
    type Type;

    /// True if `index` addresses a bit within the type's width.
    spec fn set_bit_ok(index: Self::Type) -> bool;

    /// The value with the chosen bit high.
    spec fn spec_set_bit(value: Self, index: Self::Type) -> Self::Type;

    /// Set single bit high.
    fn set_bit(&self, index: Self::Type) -> (result: Self::Type)
        requires
            Self::set_bit_ok(index),
        ensures
            result == Self::spec_set_bit(*self, index),
    ;
}

impl SetBitwise for u32 {
    type Type = Self;

    open spec fn set_bit_ok(index: u32) -> bool {
        index < 32
    }

    open spec fn spec_set_bit(value: u32, index: u32) -> u32 {
        u32_set_bit(value, index)
    }

    fn set_bit(&self, index: u32) -> u32 {
        *self | (1u32 << index)
    }
}

impl SetBitwise for u8 {
    type Type = Self;

    open spec fn set_bit_ok(index: u8) -> bool {
        index < 8
    }

    open spec fn spec_set_bit(value: u8, index: u8) -> u8 {
        u8_set_bit(value, index)
    }

    fn set_bit(&self, index: u8) -> u8 {
        *self | (1u8 << index)
    }
}

/// Can set single bit low.
pub trait ClearBitwise: Sized {
    /// My type.
    type Type;

    /// True if `index` addresses a bit within the type's width.
    spec fn clear_bit_ok(index: Self::Type) -> bool;

    /// The value with the chosen bit low.
    spec fn spec_clear_bit(value: Self, index: Self::Type) -> Self::Type;

    /// Set single bit low.
    fn clear_bit(&self, index: Self::Type) -> (result: Self::Type)
        requires
            Self::clear_bit_ok(index),
        ensures
            result == Self::spec_clear_bit(*self, index),
    ;
}

impl ClearBitwise for u32 {
    type Type = Self;

    open spec fn clear_bit_ok(index: u32) -> bool {
        index < 32
    }

    open spec fn spec_clear_bit(value: u32, index: u32) -> u32 {
        u32_clear_bit(value, index)
    }

    fn clear_bit(&self, index: u32) -> u32 {
        *self & !(1u32 << index)
    }
}

impl ClearBitwise for u8 {
    type Type = Self;

    open spec fn clear_bit_ok(index: u8) -> bool {
        index < 8
    }

    open spec fn spec_clear_bit(value: u8, index: u8) -> u8 {
        u8_clear_bit(value, index)
    }

    fn clear_bit(&self, index: u8) -> u8 {
        *self & !(1u8 << index)
    }
}

/// Can read single bit value.
pub trait ReadBitwise: Sized {
    /// My type.
    type Type;

    /// True if `index` addresses a bit within the type's width.
    spec fn read_bit_ok(index: Self::Type) -> bool;

    /// True if the chosen bit is high.
    spec fn spec_read_bit(value: Self, index: Self::Type) -> bool;

    /// Read single bit.
    fn read_bit(&self, index: Self::Type) -> (result: bool)
        requires
            Self::read_bit_ok(index),
        ensures
            result == Self::spec_read_bit(*self, index),
    ;
}

impl ReadBitwise for u32 {
    type Type = Self;

    open spec fn read_bit_ok(index: u32) -> bool {
        index < 32
    }

    open spec fn spec_read_bit(value: u32, index: u32) -> bool {
        u32_bit(value, index)
    }

    fn read_bit(&self, index: u32) -> bool {
        (*self >> index) & 1u32 == 1u32
    }
}

impl ReadBitwise for u8 {
    type Type = Self;

    open spec fn read_bit_ok(index: u8) -> bool {
        index < 8
    }

    open spec fn spec_read_bit(value: u8, index: u8) -> bool {
        u8_bit(value, index)
    }

    fn read_bit(&self, index: u8) -> bool {
        (*self >> index) & 1u8 == 1u8
    }
}

/// Can read values of multiple bits.
pub trait ReadBitwiseRange: Sized {
    /// My type.
    type Type;

    /// True if the inclusive range addresses bits within the type's width.
    spec fn read_bits_ok(start: Self::Type, end: Self::Type) -> bool;

    /// The bits of the inclusive range, moved to bit 0.
    spec fn spec_read_bits(value: Self, start: Self::Type, end: Self::Type) -> Self::Type;

    /// Read multiple bits.
    fn read_bits(&self, range: RangeInclusive<Self::Type>) -> (result: Self::Type)
        requires
            Self::read_bits_ok(range@.start, range@.end),
        ensures
            result == Self::spec_read_bits(*self, range@.start, range@.end),
    ;
}

impl ReadBitwiseRange for u32 {
    type Type = Self;

    open spec fn read_bits_ok(start: u32, end: u32) -> bool {
        start <= end && end < 32
    }

    open spec fn spec_read_bits(value: u32, start: u32, end: u32) -> u32 {
        u32_read_bits(value, start, end)
    }

    fn read_bits(&self, range: RangeInclusive<u32>) -> u32 {
        let start: u32 = *range.start();
        let end: u32 = *range.end();
        let length: u32 = end - start + 1;
        let mask: u32 = if length >= 32 {
            0xFFFF_FFFF
        } else {
            proof {
                lemma_u32_shift_at_least_one(length);
            }
            (1u32 << length) - 1
        };
        (*self >> start) & mask
    }
}

impl ReadBitwiseRange for u8 {
    type Type = Self;

    open spec fn read_bits_ok(start: u8, end: u8) -> bool {
        start <= end && end < 8
    }

    open spec fn spec_read_bits(value: u8, start: u8, end: u8) -> u8 {
        u8_read_bits(value, start, end)
    }

    fn read_bits(&self, range: RangeInclusive<u8>) -> u8 {
        let start: u8 = *range.start();
        let end: u8 = *range.end();
        let length: u8 = end - start + 1;
        let mask: u8 = if length >= 8 {
            0xFF
        } else {
            proof {
                lemma_u8_shift_at_least_one(length);
            }
            (1u8 << length) - 1
        };
        (*self >> start) & mask
    }
}

/// Can set multiple bits.
pub trait SetBitwiseRange: Sized {
    /// My type.
    type Type;

    /// True if the inclusive range addresses bits within the type's width.
    spec fn set_bits_ok(start: Self::Type, end: Self::Type) -> bool;

    /// The value with every bit of the inclusive range high.
    spec fn spec_set_bits(value: Self, start: Self::Type, end: Self::Type) -> Self::Type;

    /// Set multiple bits.
    fn set_bits(&self, range: RangeInclusive<Self::Type>) -> (result: Self::Type)
        requires
            Self::set_bits_ok(range@.start, range@.end),
        ensures
            result == Self::spec_set_bits(*self, range@.start, range@.end),
    ;
}

impl SetBitwiseRange for u32 {
    type Type = Self;

    open spec fn set_bits_ok(start: u32, end: u32) -> bool {
        start <= end && end < 32
    }

    open spec fn spec_set_bits(value: u32, start: u32, end: u32) -> u32 {
        value | (u32_mask(((end - start) + 1) as u32) << start)
    }

    fn set_bits(&self, range: RangeInclusive<u32>) -> u32 {
        let start: u32 = *range.start();
        let end: u32 = *range.end();
        let length: u32 = end - start + 1;
        let mask: u32 = if length >= 32 {
            0xFFFF_FFFF
        } else {
            proof {
                lemma_u32_shift_at_least_one(length);
            }
            (1u32 << length) - 1
        };
        *self | (mask << start)
    }
}

impl SetBitwiseRange for u8 {
    type Type = Self;

    open spec fn set_bits_ok(start: u8, end: u8) -> bool {
        start <= end && end < 8
    }

    open spec fn spec_set_bits(value: u8, start: u8, end: u8) -> u8 {
        value | (u8_mask(((end - start) + 1) as u8) << start)
    }

    fn set_bits(&self, range: RangeInclusive<u8>) -> u8 {
        let start: u8 = *range.start();
        let end: u8 = *range.end();
        let length: u8 = end - start + 1;
        let mask: u8 = if length >= 8 {
            0xFF
        } else {
            proof {
                lemma_u8_shift_at_least_one(length);
            }
            (1u8 << length) - 1
        };
        *self | (mask << start)
    }
}

/// Can write multiple bits.
pub trait WriteBitwise: Sized {
    /// My type.
    type Type;

    /// True if a `length`-bit field at `start` lies within the type's width
    /// and `field` fits in it.
    spec fn write_bits_ok(start: Self::Type, field: Self::Type, length: Self::Type) -> bool;

    /// The value with the `length`-bit field at `start` replaced by `field`.
    spec fn spec_write_bits(
        value: Self,
        start: Self::Type,
        field: Self::Type,
        length: Self::Type,
    ) -> Self::Type;

    /// Write multiple bits.
    fn write_bits(&self, start: Self::Type, value: Self::Type, length: Self::Type) -> (result:
        Self::Type)
        requires
            Self::write_bits_ok(start, value, length),
        ensures
            result == Self::spec_write_bits(*self, start, value, length),
    ;
}

impl WriteBitwise for u32 {
    type Type = Self;

    open spec fn write_bits_ok(start: u32, field: u32, length: u32) -> bool {
        &&& 0 < length
        &&& start + length <= 32
        &&& field <= u32_mask(length)
    }

    open spec fn spec_write_bits(value: u32, start: u32, field: u32, length: u32) -> u32 {
        u32_write_bits(value, start, field, length)
    }

    fn write_bits(&self, start: u32, value: u32, length: u32) -> u32 {
        let mask: u32 = if length >= 32 {
            0xFFFF_FFFF
        } else {
            proof {
                lemma_u32_shift_at_least_one(length);
            }
            (1u32 << length) - 1
        };
        (*self & !(mask << start)) | (value << start)
    }
}

impl WriteBitwise for u8 {
    type Type = Self;

    open spec fn write_bits_ok(start: u8, field: u8, length: u8) -> bool {
        &&& 0 < length
        &&& start + length <= 8
        &&& field <= u8_mask(length)
    }

    open spec fn spec_write_bits(value: u8, start: u8, field: u8, length: u8) -> u8 {
        u8_write_bits(value, start, field, length)
    }

    fn write_bits(&self, start: u8, value: u8, length: u8) -> u8 {
        let mask: u8 = if length >= 8 {
            0xFF
        } else {
            proof {
                lemma_u8_shift_at_least_one(length);
            }
            (1u8 << length) - 1
        };
        (*self & !(mask << start)) | (value << start)
    }
}

pub proof fn lemma_u32_shift_at_least_one(length: u32)
    by (bit_vector)
    requires
        length < 32,
    ensures
        1u32 << length >= 1,
{
}

proof fn lemma_u8_shift_at_least_one(length: u8)
    by (bit_vector)
    requires
        length < 8,
    ensures
        1u8 << length >= 1,
{
}

/// A cleared register holds no set bit and no set field.
pub proof fn lemma_u32_cleared_register_reads()
    by (bit_vector)
    ensures
        forall|index: u32| index < 32 ==> !u32_bit(0u32, index),
        forall|start: u32, end: u32|
            start <= end && end < 32 ==> u32_read_bits(0u32, start, end) == 0,
{
}

/// Setting bit `index` leaves every bit as it was, except bit `index` itself,
/// which becomes high.
pub proof fn lemma_u32_set_bit_reads(value: u32, index: u32, probe: u32)
    by (bit_vector)
    requires
        index < 32,
        probe < 32,
    ensures
        u32_bit(u32_set_bit(value, index), probe) == (probe == index || u32_bit(value, probe)),
{
}

/// Clearing bit `index` leaves every bit as it was, except bit `index`
/// itself, which becomes low.
pub proof fn lemma_u32_clear_bit_reads(value: u32, index: u32, probe: u32)
    by (bit_vector)
    requires
        index < 32,
        probe < 32,
    ensures
        u32_bit(u32_clear_bit(value, index), probe) == (probe != index && u32_bit(value, probe)),
{
}

/// Setting a bit that is already high, or clearing one that is already low,
/// leaves the value unchanged.
pub proof fn lemma_u32_bit_writes_idempotent(value: u32, index: u32)
    by (bit_vector)
    requires
        index < 32,
    ensures
        u32_bit(value, index) ==> u32_set_bit(value, index) == value,
        !u32_bit(value, index) ==> u32_clear_bit(value, index) == value,
        u32_set_bit(u32_set_bit(value, index), index) == u32_set_bit(value, index),
        u32_clear_bit(u32_clear_bit(value, index), index) == u32_clear_bit(value, index),
        u32_bit(value, index) ==> u32_set_bit(u32_clear_bit(value, index), index) == value,
        !u32_bit(value, index) ==> u32_clear_bit(u32_set_bit(value, index), index) == value,
{
}

/// A field read never exceeds the mask of its width.
pub proof fn lemma_u32_read_bits_bound(value: u32, start: u32, end: u32)
    by (bit_vector)
    requires
        start <= end,
        end < 32,
    ensures
        u32_read_bits(value, start, end) <= u32_mask(((end - start) + 1) as u32),
{
}

/// The masks of the field widths this crate uses.
pub proof fn lemma_u32_mask_values()
    by (bit_vector)
    ensures
        u32_mask(1) == 0x1u32,
        u32_mask(2) == 0x3u32,
        u32_mask(3) == 0x7u32,
        u32_mask(4) == 0xFu32,
        u32_mask(5) == 0x1Fu32,
        u32_mask(6) == 0x3Fu32,
        u32_mask(8) == 0xFFu32,
        u32_mask(10) == 0x3FFu32,
        u32_mask(12) == 0xFFFu32,
        u32_mask(16) == 0xFFFFu32,
{
}

/// Reading back the field that was just written yields the written value.
pub proof fn lemma_u32_write_bits_reads_inside(value: u32, start: u32, field: u32, length: u32)
    by (bit_vector)
    requires
        0 < length,
        start + length <= 32,
        field <= u32_mask(length),
    ensures
        u32_read_bits(u32_write_bits(value, start, field, length), start, ((start + length)
            - 1) as u32) == field,
{
}

/// Writing a field leaves every field disjoint from it unchanged.
pub proof fn lemma_u32_write_bits_reads_outside(
    value: u32,
    start: u32,
    field: u32,
    length: u32,
    other_start: u32,
    other_end: u32,
)
    by (bit_vector)
    requires
        0 < length,
        start + length <= 32,
        field <= u32_mask(length),
        other_start <= other_end,
        other_end < 32,
        other_end < start || other_start >= start + length,
    ensures
        u32_read_bits(u32_write_bits(value, start, field, length), other_start, other_end)
            == u32_read_bits(value, other_start, other_end),
{
}

/// Writing a field leaves every bit outside of it unchanged.
pub proof fn lemma_u32_write_bits_bit_outside(
    value: u32,
    start: u32,
    field: u32,
    length: u32,
    probe: u32,
)
    by (bit_vector)
    requires
        0 < length,
        start + length <= 32,
        field <= u32_mask(length),
        probe < 32,
        probe < start || probe >= start + length,
    ensures
        u32_bit(u32_write_bits(value, start, field, length), probe) == u32_bit(value, probe),
{
}

/// Setting or clearing a single bit leaves every field that does not contain
/// that bit unchanged.
pub proof fn lemma_u32_bit_writes_read_bits_outside(
    value: u32,
    index: u32,
    other_start: u32,
    other_end: u32,
)
    by (bit_vector)
    requires
        index < 32,
        other_start <= other_end,
        other_end < 32,
        index < other_start || index > other_end,
    ensures
        u32_read_bits(u32_set_bit(value, index), other_start, other_end) == u32_read_bits(
            value,
            other_start,
            other_end,
        ),
        u32_read_bits(u32_clear_bit(value, index), other_start, other_end) == u32_read_bits(
            value,
            other_start,
            other_end,
        ),
{
}

/// After writing an 8-bit field holding `index * 8`, the top five bits of
/// that field read back as `index`.
pub proof fn lemma_u32_five_bit_field(value: u32, start: u32, index: u32)
    by (bit_vector)
    requires
        start + 8 <= 32,
        index < 32,
    ensures
        u32_read_bits(
            u32_write_bits(value, start, (index * 8) as u32, 8),
            (start + 3) as u32,
            (start + 7) as u32,
        ) == index,
{
}

/// After writing an 8-bit field holding a two-bit value, the low two bits of
/// that field read back as the value.
pub proof fn lemma_u32_two_bit_field(value: u32, start: u32, field: u32)
    by (bit_vector)
    requires
        start + 8 <= 32,
        field < 4,
    ensures
        u32_read_bits(u32_write_bits(value, start, field, 8), start, (start + 1) as u32) == field,
{
}

} // verus!
