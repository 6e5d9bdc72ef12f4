//! Bit manipulation operations on exact values.

use pynq_bsp::common::bitman::ClearBitwise;
use pynq_bsp::common::bitman::ReadBitwise;
use pynq_bsp::common::bitman::ReadBitwiseRange;
use pynq_bsp::common::bitman::SetBitwise;
use pynq_bsp::common::bitman::SetBitwiseRange;
use pynq_bsp::common::bitman::WriteBitwise;

#[test]
fn set_bit_raises_only_the_chosen_bit() {
    assert_eq!(0u32.set_bit(5), 32);
    assert_eq!(0x8000_0001u32.set_bit(31), 0x8000_0001);
    assert_eq!(0u8.set_bit(7), 0x80);
    assert_eq!(0x0Fu8.set_bit(4), 0x1F);
}

#[test]
fn clear_bit_lowers_only_the_chosen_bit() {
    assert_eq!(0xFFu32.clear_bit(0), 0xFE);
    assert_eq!(0xFFFF_FFFFu32.clear_bit(31), 0x7FFF_FFFF);
    assert_eq!(0xFFu8.clear_bit(3), 0xF7);
    assert_eq!(0u8.clear_bit(3), 0);
}

#[test]
fn read_bit_reports_the_chosen_bit() {
    assert!(0b100u32.read_bit(2));
    assert!(!0b100u32.read_bit(1));
    assert!(0x80u8.read_bit(7));
    assert!(!0x80u8.read_bit(6));
}

#[test]
fn read_bits_extracts_the_inclusive_range() {
    assert_eq!(0xABCD_1234u32.read_bits(8..=15), 0x12);
    assert_eq!(0xABCD_1234u32.read_bits(0..=31), 0xABCD_1234);
    assert_eq!(0xABCD_1234u32.read_bits(28..=31), 0xA);
    assert_eq!(0xB7u8.read_bits(4..=7), 0xB);
    assert_eq!(0xB7u8.read_bits(0..=2), 0x7);
}

#[test]
fn set_bits_raises_the_inclusive_range() {
    assert_eq!(0u32.set_bits(4..=7), 0xF0);
    assert_eq!(0u32.set_bits(0..=31), 0xFFFF_FFFF);
    assert_eq!(0x01u8.set_bits(6..=7), 0xC1);
}

#[test]
fn write_bits_replaces_only_the_field() {
    assert_eq!(0xFFFF_FFFFu32.write_bits(8, 0x12, 8), 0xFFFF_12FF);
    assert_eq!(0u32.write_bits(24, 0b10, 2), 0x0200_0000);
    assert_eq!(0xFFu8.write_bits(2, 0b01, 2), 0xF7);
}
