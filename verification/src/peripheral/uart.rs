//! Universal asynchronous receiver-transmitter.
//!
//! The model keeps the controller's register state.  Registers the hardware
//! maintains by itself are written with their hardware response: the
//! interrupt enable and disable command registers update the readable
//! interrupt mask, and writing ones to the channel interrupt status
//! register clears the written bits.

use vstd::prelude::*;

use crate::common::bitman::ClearBitwise;
use crate::common::bitman::ReadBitwise;
use crate::common::bitman::ReadBitwiseRange;
use crate::common::bitman::SetBitwise;
use crate::common::bitman::WriteBitwise;
use crate::common::bitman::lemma_u32_clear_bit_reads;
use crate::common::bitman::lemma_u32_mask_values;
use crate::common::bitman::lemma_u32_read_bits_bound;
use crate::common::bitman::lemma_u32_set_bit_reads;
use crate::common::bitman::lemma_u32_write_bits_reads_inside;
use crate::common::bitman::u32_bit;
use crate::common::bitman::u32_clear_bit;
use crate::common::bitman::u32_read_bits;
use crate::common::bitman::u32_set_bit;
use crate::common::bitman::u32_write_bits;
use crate::peripheral::slcr::AmbaClockControl;
use crate::peripheral::slcr::Slcr;

verus! {

/// Which of the two UART devices.
#[derive(Clone, Copy, Debug, PartialEq, Eq, Structural)]
pub enum DeviceIndex {
    Uart0,
    Uart1,
}

impl DeviceIndex {
    /// The device's number.
    pub open spec fn spec_value(self) -> u32 {
        match self {
            Self::Uart0 => 0,
            Self::Uart1 => 1,
        }
    }

    /// The device's number.
    pub fn as_u32(self) -> (result: u32)
        ensures
            result == self.spec_value(),
    {
        match self {
            Self::Uart0 => 0,
            Self::Uart1 => 1,
        }
    }
}

/// UART clock source configuration.
#[derive(Clone, Copy, Debug, PartialEq, Eq, Structural)]
pub enum ClockSource {
    /// Use the pure input clock.
    UartRefClk,
    /// Prescale the baud rate generator's input clock by 8.
    UartRefClkDiv8,
}

impl ClockSource {
    /// The mode register's clock source bit: high selects the prescaled
    /// clock.
    pub open spec fn spec_bool(self) -> bool {
        match self {
            Self::UartRefClk => false,
            Self::UartRefClkDiv8 => true,
        }
    }

    /// Transform to boolean.
    pub fn as_bool(self) -> (result: bool)
        ensures
            result == self.spec_bool(),
    {
        match self {
            Self::UartRefClk => false,
            Self::UartRefClkDiv8 => true,
        }
    }

    /// Decode the mode register's clock source bit.
    pub fn from_bool(value: bool) -> (result: Self)
        ensures
            result.spec_bool() == value,
    {
        if value {
            Self::UartRefClkDiv8
        } else {
            Self::UartRefClk
        }
    }
}

/// How many bits represent one character.
#[derive(Clone, Copy, Debug, PartialEq, Eq, Structural)]
pub enum CharacterLength {
    /// Six bits represent one character.
    Six,
    /// Seven bits represent one character.
    Seven,
    /// Eight bits represent one character.
    Eight,
}

impl CharacterLength {
    /// The mode register's two-bit character length field.
    pub open spec fn spec_value(self) -> u32 {
        match self {
            Self::Eight => 0b00,
            Self::Seven => 0b10,
            Self::Six => 0b11,
        }
    }

    /// Transform to the two-bit field.
    pub fn as_u32(self) -> (result: u32)
        ensures
            result == self.spec_value(),
    {
        match self {
            Self::Eight => 0b00,
            Self::Seven => 0b10,
            Self::Six => 0b11,
        }
    }

    /// Decode the two-bit field; the reserved value is rejected.
    pub fn from_u32(value: u32) -> (result: Result<Self, ()>)
        ensures
            result is Ok <==> (value == 0 || value == 2 || value == 3),
            result matches Ok(decoded) ==> decoded.spec_value() == value,
    {
        match value {
            0b00 => Ok(Self::Eight),
            0b10 => Ok(Self::Seven),
            0b11 => Ok(Self::Six),
            _ => Err(()),
        }
    }
}

/// UART parity bits configuration.
#[derive(Clone, Copy, Debug, PartialEq, Eq, Structural)]
pub enum ParityType {
    /// Even parity.
    Even,
    /// Odd parity.
    Odd,
    /// Parity bit forced to 0.
    ForcedTo0,
    /// Parity bit forced to 1.
    ForcedTo1,
    /// No parity.
    Disabled,
}

impl ParityType {
    /// The mode register's three-bit parity field.
    pub open spec fn spec_value(self) -> u32 {
        match self {
            Self::Even => 0b000,
            Self::Odd => 0b001,
            Self::ForcedTo0 => 0b010,
            Self::ForcedTo1 => 0b011,
            Self::Disabled => 0b100,
        }
    }

    /// Transform to the three-bit field.
    pub fn as_u32(self) -> (result: u32)
        ensures
            result == self.spec_value(),
    {
        match self {
            Self::Even => 0b000,
            Self::Odd => 0b001,
            Self::ForcedTo0 => 0b010,
            Self::ForcedTo1 => 0b011,
            Self::Disabled => 0b100,
        }
    }

    /// Decode the three-bit field; reserved values are rejected.
    pub fn from_u32(value: u32) -> (result: Result<Self, ()>)
        ensures
            result is Ok <==> value <= 4,
            result matches Ok(decoded) ==> decoded.spec_value() == value,
    {
        match value {
            0b000 => Ok(Self::Even),
            0b001 => Ok(Self::Odd),
            0b010 => Ok(Self::ForcedTo0),
            0b011 => Ok(Self::ForcedTo1),
            0b100 => Ok(Self::Disabled),
            _ => Err(()),
        }
    }
}

/// How many stop bits are detected when receiving or generated when
/// transmitting.
#[derive(Clone, Copy, Debug, PartialEq, Eq, Structural)]
pub enum StopBits {
    /// One stop bit.
    One,
    /// One and a half stop bits.
    OneAndHalf,
    /// Two stop bits.
    Two,
}

impl StopBits {
    /// The mode register's two-bit stop bits field.
    pub open spec fn spec_value(self) -> u32 {
        match self {
            Self::One => 0b00,
            Self::OneAndHalf => 0b01,
            Self::Two => 0b10,
        }
    }

    /// Transform to the two-bit field.
    pub fn as_u32(self) -> (result: u32)
        ensures
            result == self.spec_value(),
    {
        match self {
            Self::One => 0b00,
            Self::OneAndHalf => 0b01,
            Self::Two => 0b10,
        }
    }

    /// Decode the two-bit field; the reserved value is rejected.
    pub fn from_u32(value: u32) -> (result: Result<Self, ()>)
        ensures
            result is Ok <==> value <= 2,
            result matches Ok(decoded) ==> decoded.spec_value() == value,
    {
        match value {
            0b00 => Ok(Self::One),
            0b01 => Ok(Self::OneAndHalf),
            0b10 => Ok(Self::Two),
            _ => Err(()),
        }
    }
}

/// UART channel mode.
#[derive(Clone, Copy, Debug, PartialEq, Eq, Structural)]
pub enum ChannelMode {
    /// Standard UART operation.
    Normal,
    /// Route received bytes back to the external transmitter and to the
    /// device; transmitting disabled.
    AutomaticEcho,
    /// Route transmitted bytes back to the receiver.
    LocalLoopback,
    /// Route received bytes back to the external transmitter; receiving
    /// and transmitting disabled.
    RemoteLoopback,
}

impl ChannelMode {
    /// The mode register's two-bit channel mode field.
    pub open spec fn spec_value(self) -> u32 {
        match self {
            Self::Normal => 0b00,
            Self::AutomaticEcho => 0b01,
            Self::LocalLoopback => 0b10,
            Self::RemoteLoopback => 0b11,
        }
    }

    /// Transform to the two-bit field.
    pub fn as_u32(self) -> (result: u32)
        ensures
            result == self.spec_value(),
    {
        match self {
            Self::Normal => 0b00,
            Self::AutomaticEcho => 0b01,
            Self::LocalLoopback => 0b10,
            Self::RemoteLoopback => 0b11,
        }
    }

    /// Decode the two-bit field.
    pub fn from_u32(value: u32) -> (result: Result<Self, ()>)
        ensures
            result is Ok <==> value <= 3,
            result matches Ok(decoded) ==> decoded.spec_value() == value,
    {
        match value {
            0b00 => Ok(Self::Normal),
            0b01 => Ok(Self::AutomaticEcho),
            0b10 => Ok(Self::LocalLoopback),
            0b11 => Ok(Self::RemoteLoopback),
            _ => Err(()),
        }
    }
}

/// UART receiver interrupt.
#[derive(Clone, Copy, Debug, PartialEq, Eq, Structural)]
pub enum ReceiverInterrupt {
    /// Receiver FIFO level reached the given trigger level.
    FifoTrigger,
    /// Receiver FIFO is empty.
    FifoEmpty,
    /// Receiver FIFO is full.
    FifoFull,
    /// Receiver FIFO was full when a new byte was received.
    FifoOverflow,
    /// Receiver failed to receive a valid stop bit at the end of a frame.
    FramingError,
    /// Parity calculated from received bytes was not equal to the received
    /// parity bit or bits.
    ParityError,
    /// Receiver timeout counter reached zero.
    Timeout,
}

impl ReceiverInterrupt {
    /// The interrupt's bit index.
    pub open spec fn spec_index(self) -> u32 {
        match self {
            Self::FifoTrigger => 0,
            Self::FifoEmpty => 1,
            Self::FifoFull => 2,
            Self::FifoOverflow => 5,
            Self::FramingError => 6,
            Self::ParityError => 7,
            Self::Timeout => 8,
        }
    }

    /// The interrupt's bit index.
    pub fn as_index(self) -> (result: u32)
        ensures
            result == self.spec_index(),
    {
        match self {
            Self::FifoTrigger => 0,
            Self::FifoEmpty => 1,
            Self::FifoFull => 2,
            Self::FifoOverflow => 5,
            Self::FramingError => 6,
            Self::ParityError => 7,
            Self::Timeout => 8,
        }
    }
}

/// UART transmitter interrupt.
#[derive(Clone, Copy, Debug, PartialEq, Eq, Structural)]
pub enum TransmitterInterrupt {
    /// Transmitter FIFO is empty.
    FifoEmpty,
    /// Transmitter FIFO is full.
    FifoFull,
    /// Transmitter FIFO level reached the given trigger level.
    FifoTrigger,
    /// Transmitter FIFO has capacity for only one more byte.
    FifoNearlyFull,
    /// Transmitter FIFO was full when a new byte was to be transmitted.
    FifoOverflow,
}

impl TransmitterInterrupt {
    /// The interrupt's bit index.
    pub open spec fn spec_index(self) -> u32 {
        match self {
            Self::FifoEmpty => 3,
            Self::FifoFull => 4,
            Self::FifoTrigger => 10,
            Self::FifoNearlyFull => 11,
            Self::FifoOverflow => 12,
        }
    }

    /// The interrupt's bit index.
    pub fn as_index(self) -> (result: u32)
        ensures
            result == self.spec_index(),
    {
        match self {
            Self::FifoEmpty => 3,
            Self::FifoFull => 4,
            Self::FifoTrigger => 10,
            Self::FifoNearlyFull => 11,
            Self::FifoOverflow => 12,
        }
    }
}

/// UART interrupt.
#[derive(Clone, Copy, Debug, PartialEq, Eq, Structural)]
pub enum Interrupt {
    /// Receiver interrupt.
    Receiver(ReceiverInterrupt),
    /// Transmitter interrupt.
    Transmitter(TransmitterInterrupt),
    /// A modem status line changed.
    ModemIndicator,
}

impl Interrupt {
    /// The interrupt's bit index.
    pub open spec fn spec_index(self) -> u32 {
        match self {
            Self::Receiver(interrupt) => interrupt.spec_index(),
            Self::Transmitter(interrupt) => interrupt.spec_index(),
            Self::ModemIndicator => 9,
        }
    }

    /// The interrupt's bit index.
    pub fn as_index(self) -> (result: u32)
        ensures
            result == self.spec_index(),
            result < 13,
    {
        match self {
            Self::Receiver(interrupt) => interrupt.as_index(),
            Self::Transmitter(interrupt) => interrupt.as_index(),
            Self::ModemIndicator => 9,
        }
    }
}

/// The decoded causes of a UART interrupt.
#[derive(Clone, Copy, Debug, PartialEq, Eq, Structural)]
pub struct InterruptCauses {
    /// Receiver FIFO level reached the given trigger level.
    pub receiver_fifo_trigger: bool,
    /// Receiver FIFO is empty.
    pub receiver_fifo_empty: bool,
    /// Receiver FIFO is full.
    pub receiver_fifo_full: bool,
    /// Transmitter FIFO is empty.
    pub transmitter_fifo_empty: bool,
    /// Transmitter FIFO is full.
    pub transmitter_fifo_full: bool,
    /// Receiver FIFO was full when a new byte was received.
    pub receiver_overflow: bool,
    /// Receiver failed to receive a valid stop bit at the end of a frame.
    pub receiver_framing: bool,
    /// Parity calculated from received bytes was not equal to the received
    /// parity bit or bits.
    pub receiver_parity: bool,
    /// Receiver timeout counter reached zero.
    pub receiver_timeout: bool,
    /// A modem status line changed.
    pub modem_indicator: bool,
    /// Transmitter FIFO level reached the given trigger level.
    pub transmitter_fifo_trigger: bool,
    /// Transmitter FIFO has capacity for only one more byte.
    pub transmitter_fifo_nearly_full: bool,
    /// Transmitter FIFO was full when a new byte was to be transmitted.
    pub transmitter_fifo_overflow: bool,
}

impl InterruptCauses {
    /// The decoded form of an interrupt status value.
    pub open spec fn spec_decode(value: u32) -> InterruptCauses {
        InterruptCauses {
            receiver_fifo_trigger: u32_bit(value, 0),
            receiver_fifo_empty: u32_bit(value, 1),
            receiver_fifo_full: u32_bit(value, 2),
            transmitter_fifo_empty: u32_bit(value, 3),
            transmitter_fifo_full: u32_bit(value, 4),
            receiver_overflow: u32_bit(value, 5),
            receiver_framing: u32_bit(value, 6),
            receiver_parity: u32_bit(value, 7),
            receiver_timeout: u32_bit(value, 8),
            modem_indicator: u32_bit(value, 9),
            transmitter_fifo_trigger: u32_bit(value, 10),
            transmitter_fifo_nearly_full: u32_bit(value, 11),
            transmitter_fifo_overflow: u32_bit(value, 12),
        }
    }

    /// A record whose fields each equal the matching bit of `value` is the
    /// decoded form of `value`.
    proof fn lemma_decode_unique(causes: InterruptCauses, value: u32)
        requires
            causes.receiver_fifo_trigger == u32_bit(value, 0),
            causes.receiver_fifo_empty == u32_bit(value, 1),
            causes.receiver_fifo_full == u32_bit(value, 2),
            causes.transmitter_fifo_empty == u32_bit(value, 3),
            causes.transmitter_fifo_full == u32_bit(value, 4),
            causes.receiver_overflow == u32_bit(value, 5),
            causes.receiver_framing == u32_bit(value, 6),
            causes.receiver_parity == u32_bit(value, 7),
            causes.receiver_timeout == u32_bit(value, 8),
            causes.modem_indicator == u32_bit(value, 9),
            causes.transmitter_fifo_trigger == u32_bit(value, 10),
            causes.transmitter_fifo_nearly_full == u32_bit(value, 11),
            causes.transmitter_fifo_overflow == u32_bit(value, 12),
        ensures
            causes == InterruptCauses::spec_decode(value),
    {
    }

    /// Decode an interrupt status value.
    pub fn new(value: u32) -> (result: Self)
        ensures
            result.receiver_fifo_trigger == u32_bit(value, 0),
            result.receiver_fifo_empty == u32_bit(value, 1),
            result.receiver_fifo_full == u32_bit(value, 2),
            result.transmitter_fifo_empty == u32_bit(value, 3),
            result.transmitter_fifo_full == u32_bit(value, 4),
            result.receiver_overflow == u32_bit(value, 5),
            result.receiver_framing == u32_bit(value, 6),
            result.receiver_parity == u32_bit(value, 7),
            result.receiver_timeout == u32_bit(value, 8),
            result.modem_indicator == u32_bit(value, 9),
            result.transmitter_fifo_trigger == u32_bit(value, 10),
            result.transmitter_fifo_nearly_full == u32_bit(value, 11),
            result.transmitter_fifo_overflow == u32_bit(value, 12),
    {
        Self {
            receiver_fifo_trigger: value.read_bit(0),
            receiver_fifo_empty: value.read_bit(1),
            receiver_fifo_full: value.read_bit(2),
            transmitter_fifo_empty: value.read_bit(3),
            transmitter_fifo_full: value.read_bit(4),
            receiver_overflow: value.read_bit(5),
            receiver_framing: value.read_bit(6),
            receiver_parity: value.read_bit(7),
            receiver_timeout: value.read_bit(8),
            modem_indicator: value.read_bit(9),
            transmitter_fifo_trigger: value.read_bit(10),
            transmitter_fifo_nearly_full: value.read_bit(11),
            transmitter_fifo_overflow: value.read_bit(12),
        }
    }
}

/// Register file of one UART controller.
pub struct Uart {
    /// Which of the two devices this is.
    pub index: DeviceIndex,
    /// Control register.
    pub control: u32,
    /// Mode register.
    pub mode: u32,
    /// Interrupt mask; the hardware keeps it in step with the enable and
    /// disable command registers.
    pub interrupt_mask: u32,
    /// Channel interrupt status register; writing a one clears the bit.
    pub channel_interrupt_status: u32,
    /// Baud rate generator register.
    pub baud_rate_generator: u32,
    /// Receiver timeout register.
    pub receiver_timeout: u32,
    /// Receiver FIFO trigger level register.
    pub receiver_fifo_trigger_level: u32,
    /// Modem control register.
    pub modem_control: u32,
    /// Modem status register.
    pub modem_status: u32,
    /// Channel status register, maintained by the hardware; at power-on
    /// both FIFOs read empty.
    pub channel_status: u32,
    /// Transmit and receive FIFO window.
    pub transmit_and_receive_fifo: u32,
    /// Baud rate divider register.
    pub baud_rate_divider: u32,
    /// Flow control delay register.
    pub flow_control_delay: u32,
    /// Transmitter FIFO trigger level register.
    pub transmitter_fifo_trigger_level: u32,
}

impl Uart {
    /// The mode register's clock source bit.
    pub open spec fn spec_clock_source(self) -> bool {
        u32_bit(self.mode, 0)
    }

    /// The mode register's character length field.
    pub open spec fn spec_character_length(self) -> u32 {
        u32_read_bits(self.mode, 1, 2)
    }

    /// The mode register's parity field.
    pub open spec fn spec_parity(self) -> u32 {
        u32_read_bits(self.mode, 3, 5)
    }

    /// The mode register's stop bits field.
    pub open spec fn spec_stop_bits(self) -> u32 {
        u32_read_bits(self.mode, 6, 7)
    }

    /// The mode register's channel mode field.
    pub open spec fn spec_channel_mode(self) -> u32 {
        u32_read_bits(self.mode, 8, 9)
    }

    /// True if `other` matches `self` on every field but the control
    /// register.
    pub open spec fn same_except_control(self, other: Uart) -> bool {
        Uart { control: other.control, ..self } == other
    }

    /// True if `other` matches `self` on every field but the mode register.
    pub open spec fn same_except_mode(self, other: Uart) -> bool {
        Uart { mode: other.mode, ..self } == other
    }

    /// True if `other` matches `self` on every field but the interrupt
    /// mask.
    pub open spec fn same_except_interrupt_mask(self, other: Uart) -> bool {
        Uart { interrupt_mask: other.interrupt_mask, ..self } == other
    }

    /// True if `other` matches `self` on every field but the channel
    /// interrupt status register.
    pub open spec fn same_except_interrupt_status(self, other: Uart) -> bool {
        Uart { channel_interrupt_status: other.channel_interrupt_status, ..self } == other
    }

    /// A UART controller in its power-on state.
    pub fn new(index: DeviceIndex) -> (result: Uart)
        ensures
            result == (Uart {
                index,
                control: 0x128,
                mode: 0,
                interrupt_mask: 0,
                channel_interrupt_status: 0,
                baud_rate_generator: 0x28B,
                receiver_timeout: 0,
                receiver_fifo_trigger_level: 0x20,
                modem_control: 0,
                modem_status: 0,
                channel_status: 0xA,
                transmit_and_receive_fifo: 0,
                baud_rate_divider: 0xF,
                flow_control_delay: 0,
                transmitter_fifo_trigger_level: 0x20,
            }),
    {
        Uart {
            index,
            control: 0x128,
            mode: 0,
            interrupt_mask: 0,
            channel_interrupt_status: 0,
            baud_rate_generator: 0x28B,
            receiver_timeout: 0,
            receiver_fifo_trigger_level: 0x20,
            modem_control: 0,
            modem_status: 0,
            channel_status: 0xA,
            transmit_and_receive_fifo: 0,
            baud_rate_divider: 0xF,
            flow_control_delay: 0,
            transmitter_fifo_trigger_level: 0x20,
        }
    }

    /// Reset the receiver logic and discard pending receiver data.  The
    /// command bit clears itself once the reset completes, so the control
    /// register reads back unchanged.
    pub fn reset_receiver(&mut self)
        ensures
            *final(self) == *old(self),
    {
    }

    /// Reset the transmitter logic and discard pending transmitter data.
    /// The command bit clears itself once the reset completes, so the
    /// control register reads back unchanged.
    pub fn reset_transmitter(&mut self)
        ensures
            *final(self) == *old(self),
    {
    }

    /// Enable or disable receiving.
    pub fn toggle_receiving(&mut self, enable: bool)
        ensures
            *final(self) == (Uart {
                control: if enable {
                    u32_set_bit(old(self).control, 2)
                } else {
                    u32_clear_bit(old(self).control, 2)
                },
                ..*old(self)
            }),
            u32_bit(final(self).control, 2) == enable,
    {
        let register = self.control;
        self.control = if enable {
            register.set_bit(2)
        } else {
            register.clear_bit(2)
        };
        proof {
            if enable {
                lemma_u32_set_bit_reads(register, 2, 2);
            } else {
                lemma_u32_clear_bit_reads(register, 2, 2);
            }
        }
    }

    /// Enable or disable transmitting.
    pub fn toggle_transmitting(&mut self, enable: bool)
        ensures
            *final(self) == (Uart {
                control: if enable {
                    u32_set_bit(old(self).control, 4)
                } else {
                    u32_clear_bit(old(self).control, 4)
                },
                ..*old(self)
            }),
            u32_bit(final(self).control, 4) == enable,
    {
        let register = self.control;
        self.control = if enable {
            register.set_bit(4)
        } else {
            register.clear_bit(4)
        };
        proof {
            if enable {
                lemma_u32_set_bit_reads(register, 4, 4);
            } else {
                lemma_u32_clear_bit_reads(register, 4, 4);
            }
        }
    }

    /// Get the parity bit configuration.
    pub fn get_parity(&self) -> (result: Result<ParityType, ()>)
        ensures
            result is Ok <==> self.spec_parity() <= 4,
            result matches Ok(parity) ==> parity.spec_value() == self.spec_parity(),
    {
        let field = self.mode.read_bits(core::ops::RangeInclusive::new(3u32, 5u32));
        ParityType::from_u32(field)
    }

    /// Set the parity bit configuration.
    pub fn set_parity(&mut self, value: ParityType)
        ensures
            *final(self) == (Uart {
                mode: u32_write_bits(old(self).mode, 3, value.spec_value(), 3),
                ..*old(self)
            }),
            final(self).spec_parity() == value.spec_value(),
    {
        proof {
            lemma_u32_mask_values();
        }
        let register = self.mode;
        let field = value.as_u32();
        self.mode = register.write_bits(3, field, 3);
        proof {
            lemma_u32_write_bits_reads_inside(register, 3, field, 3);
        }
    }

    /// Get the clock source configuration.
    pub fn get_clock_source(&self) -> (result: ClockSource)
        ensures
            result.spec_bool() == self.spec_clock_source(),
    {
        let value = self.mode.read_bit(0);
        ClockSource::from_bool(value)
    }

    /// Set the clock source configuration.
    pub fn set_clock_source(&mut self, value: ClockSource)
        ensures
            *final(self) == (Uart {
                mode: if value.spec_bool() {
                    u32_set_bit(old(self).mode, 0)
                } else {
                    u32_clear_bit(old(self).mode, 0)
                },
                ..*old(self)
            }),
            final(self).spec_clock_source() == value.spec_bool(),
    {
        let register = self.mode;
        self.mode = if value.as_bool() {
            register.set_bit(0)
        } else {
            register.clear_bit(0)
        };
        proof {
            if value.spec_bool() {
                lemma_u32_set_bit_reads(register, 0, 0);
            } else {
                lemma_u32_clear_bit_reads(register, 0, 0);
            }
        }
    }

    /// Get the character length configuration.
    pub fn get_character_length(&self) -> (result: Result<CharacterLength, ()>)
        ensures
            result is Ok <==> self.spec_character_length() != 1,
            result matches Ok(length) ==> length.spec_value() == self.spec_character_length(),
    {
        let field = self.mode.read_bits(core::ops::RangeInclusive::new(1u32, 2u32));
        proof {
            lemma_u32_read_bits_bound(self.mode, 1, 2);
            lemma_u32_mask_values();
        }
        CharacterLength::from_u32(field)
    }

    /// Set the character length configuration.
    pub fn set_character_length(&mut self, value: CharacterLength)
        ensures
            *final(self) == (Uart {
                mode: u32_write_bits(old(self).mode, 1, value.spec_value(), 2),
                ..*old(self)
            }),
            final(self).spec_character_length() == value.spec_value(),
    {
        proof {
            lemma_u32_mask_values();
        }
        let register = self.mode;
        let field = value.as_u32();
        self.mode = register.write_bits(1, field, 2);
        proof {
            lemma_u32_write_bits_reads_inside(register, 1, field, 2);
        }
    }

    /// Get the stop bits configuration.
    pub fn get_stop_bits(&self) -> (result: Result<StopBits, ()>)
        ensures
            result is Ok <==> self.spec_stop_bits() <= 2,
            result matches Ok(stop_bits) ==> stop_bits.spec_value() == self.spec_stop_bits(),
    {
        let field = self.mode.read_bits(core::ops::RangeInclusive::new(6u32, 7u32));
        StopBits::from_u32(field)
    }

    /// Set the stop bits configuration.
    pub fn set_stop_bits(&mut self, value: StopBits)
        ensures
            *final(self) == (Uart {
                mode: u32_write_bits(old(self).mode, 6, value.spec_value(), 2),
                ..*old(self)
            }),
            final(self).spec_stop_bits() == value.spec_value(),
    {
        proof {
            lemma_u32_mask_values();
        }
        let register = self.mode;
        let field = value.as_u32();
        self.mode = register.write_bits(6, field, 2);
        proof {
            lemma_u32_write_bits_reads_inside(register, 6, field, 2);
        }
    }

    /// Get the channel mode configuration.
    pub fn get_channel_mode(&self) -> (result: Result<ChannelMode, ()>)
        ensures
            result is Ok,
            result matches Ok(mode) ==> mode.spec_value() == self.spec_channel_mode(),
    {
        let field = self.mode.read_bits(core::ops::RangeInclusive::new(8u32, 9u32));
        proof {
            lemma_u32_read_bits_bound(self.mode, 8, 9);
            lemma_u32_mask_values();
        }
        ChannelMode::from_u32(field)
    }

    /// Set the channel mode configuration.
    pub fn set_channel_mode(&mut self, value: ChannelMode)
        ensures
            *final(self) == (Uart {
                mode: u32_write_bits(old(self).mode, 8, value.spec_value(), 2),
                ..*old(self)
            }),
            final(self).spec_channel_mode() == value.spec_value(),
    {
        proof {
            lemma_u32_mask_values();
        }
        let register = self.mode;
        let field = value.as_u32();
        self.mode = register.write_bits(8, field, 2);
        proof {
            lemma_u32_write_bits_reads_inside(register, 8, field, 2);
        }
    }

    /// True if the given interrupt is enabled.
    pub fn is_interrupt_enabled(&self, interrupt: Interrupt) -> (result: bool)
        ensures
            result == u32_bit(self.interrupt_mask, interrupt.spec_index()),
    {
        let index = interrupt.as_index();
        self.interrupt_mask.read_bit(index)
    }

    /// Enable or disable an interrupt.  The write goes to the enable or
    /// disable command register, and the hardware updates the readable
    /// interrupt mask accordingly.
    pub fn toggle_interrupt(&mut self, interrupt: Interrupt, enable: bool)
        ensures
            *final(self) == (Uart {
                interrupt_mask: if enable {
                    u32_set_bit(old(self).interrupt_mask, interrupt.spec_index())
                } else {
                    u32_clear_bit(old(self).interrupt_mask, interrupt.spec_index())
                },
                ..*old(self)
            }),
            u32_bit(final(self).interrupt_mask, interrupt.spec_index()) == enable,
    {
        let index = interrupt.as_index();
        let register = self.interrupt_mask;
        self.interrupt_mask = if enable {
            register.set_bit(index)
        } else {
            register.clear_bit(index)
        };
        proof {
            if enable {
                lemma_u32_set_bit_reads(register, interrupt.spec_index(), interrupt.spec_index());
            } else {
                lemma_u32_clear_bit_reads(register, interrupt.spec_index(), interrupt.spec_index());
            }
        }
    }

    /// Read the interrupt causes, including those of disabled interrupts.
    pub fn read_unmasked_interrupt_causes(&self) -> (result: InterruptCauses)
        ensures
            result == InterruptCauses::spec_decode(self.channel_interrupt_status),
    {
        let causes = InterruptCauses::new(self.channel_interrupt_status);
        proof {
            InterruptCauses::lemma_decode_unique(causes, self.channel_interrupt_status);
        }
        causes
    }

    /// Read the interrupt causes of enabled interrupts only.
    pub fn read_interrupt_causes(&self) -> (result: InterruptCauses)
        ensures
            result == InterruptCauses::spec_decode(
                self.channel_interrupt_status & self.interrupt_mask,
            ),
    {
        let value = self.channel_interrupt_status & self.interrupt_mask;
        let causes = InterruptCauses::new(value);
        proof {
            InterruptCauses::lemma_decode_unique(causes, value);
        }
        causes
    }

    /// Clear the given interrupt by writing one to its status bit, which
    /// the hardware answers by clearing the bit.
    pub fn clear_interrupt(&mut self, interrupt: Interrupt)
        ensures
            *final(self) == (Uart {
                channel_interrupt_status: u32_clear_bit(
                    old(self).channel_interrupt_status,
                    interrupt.spec_index(),
                ),
                ..*old(self)
            }),
    {
        let index = interrupt.as_index();
        let register = self.channel_interrupt_status;
        self.channel_interrupt_status = register.clear_bit(index);
    }

    /// Clear all interrupts by writing ones to the whole status register.
    pub fn clear_all_interrupts(&mut self)
        ensures
            *final(self) == (Uart { channel_interrupt_status: 0, ..*old(self) }),
    {
        self.channel_interrupt_status = 0;
    }

    /// Get at what transmitter FIFO level an interrupt is generated.
    pub fn get_transmitter_fifo_trigger_value(&self) -> (result: u32)
        ensures
            result == u32_read_bits(self.transmitter_fifo_trigger_level, 0, 5),
            result <= 63,
    {
        let field = self.transmitter_fifo_trigger_level.read_bits(
            core::ops::RangeInclusive::new(0u32, 5u32),
        );
        proof {
            lemma_u32_read_bits_bound(self.transmitter_fifo_trigger_level, 0, 5);
            lemma_u32_mask_values();
        }
        field
    }

    /// Set at what transmitter FIFO level an interrupt is generated; a
    /// level above 63 is rejected.
    pub fn set_transmitter_fifo_trigger_value(&mut self, value: u32) -> (result: Result<(), ()>)
        ensures
            result is Ok <==> value <= 63,
            result is Ok ==> *final(self) == (Uart {
                transmitter_fifo_trigger_level: u32_write_bits(
                    old(self).transmitter_fifo_trigger_level,
                    0,
                    value,
                    6,
                ),
                ..*old(self)
            }),
            result is Err ==> *final(self) == *old(self),
    {
        if value > 63 {
            return Err(());
        }
        proof {
            lemma_u32_mask_values();
        }
        let register = self.transmitter_fifo_trigger_level;
        self.transmitter_fifo_trigger_level = register.write_bits(0, value, 6);
        Ok(())
    }

    /// Get at what receiver FIFO level an interrupt is generated.
    pub fn get_receiver_fifo_trigger_value(&self) -> (result: u32)
        ensures
            result == u32_read_bits(self.receiver_fifo_trigger_level, 0, 5),
            result <= 63,
    {
        let field = self.receiver_fifo_trigger_level.read_bits(
            core::ops::RangeInclusive::new(0u32, 5u32),
        );
        proof {
            lemma_u32_read_bits_bound(self.receiver_fifo_trigger_level, 0, 5);
            lemma_u32_mask_values();
        }
        field
    }

    /// Set at what receiver FIFO level an interrupt is generated; a level
    /// above 63 is rejected.
    pub fn set_receiver_fifo_trigger_value(&mut self, value: u32) -> (result: Result<(), ()>)
        ensures
            result is Ok <==> value <= 63,
            result is Ok ==> *final(self) == (Uart {
                receiver_fifo_trigger_level: u32_write_bits(
                    old(self).receiver_fifo_trigger_level,
                    0,
                    value,
                    6,
                ),
                ..*old(self)
            }),
            result is Err ==> *final(self) == *old(self),
    {
        if value > 63 {
            return Err(());
        }
        proof {
            lemma_u32_mask_values();
        }
        let register = self.receiver_fifo_trigger_level;
        self.receiver_fifo_trigger_level = register.write_bits(0, value, 6);
        Ok(())
    }

    /// Enable or disable the receiver and the transmitter together.
    pub fn toggle(&mut self, enable: bool)
        ensures
            *final(self) == (Uart {
                control: if enable {
                    u32_set_bit(u32_set_bit(old(self).control, 2), 4)
                } else {
                    u32_clear_bit(u32_clear_bit(old(self).control, 2), 4)
                },
                ..*old(self)
            }),
            u32_bit(final(self).control, 2) == enable,
            u32_bit(final(self).control, 4) == enable,
    {
        let register = self.control;
        self.toggle_receiving(enable);
        self.toggle_transmitting(enable);
        proof {
            let once = if enable {
                u32_set_bit(register, 2)
            } else {
                u32_clear_bit(register, 2)
            };
            if enable {
                lemma_u32_set_bit_reads(register, 2, 2);
                lemma_u32_set_bit_reads(once, 4, 2);
            } else {
                lemma_u32_clear_bit_reads(register, 2, 2);
                lemma_u32_clear_bit_reads(once, 4, 2);
            }
        }
    }

    /// True if the transmitter FIFO is nearly full.
    pub fn is_transmitter_fifo_nearly_full(&self) -> (result: bool)
        ensures
            result == u32_bit(self.channel_status, 14),
    {
        self.channel_status.read_bit(14)
    }

    /// True if the transmitter FIFO trigger level has been reached.
    pub fn is_transmitter_fifo_trigger_reached(&self) -> (result: bool)
        ensures
            result == u32_bit(self.channel_status, 13),
    {
        self.channel_status.read_bit(13)
    }

    /// True if the receiver flow delay trigger level has been reached.
    pub fn is_receiver_flow_delay_trigger_reached(&self) -> (result: bool)
        ensures
            result == u32_bit(self.channel_status, 12),
    {
        self.channel_status.read_bit(12)
    }

    /// True if the transmitter is currently active.
    pub fn is_transmitter_active(&self) -> (result: bool)
        ensures
            result == u32_bit(self.channel_status, 11),
    {
        self.channel_status.read_bit(11)
    }

    /// True if the receiver is currently active.
    pub fn is_receiver_active(&self) -> (result: bool)
        ensures
            result == u32_bit(self.channel_status, 10),
    {
        self.channel_status.read_bit(10)
    }

    /// True if the transmitter FIFO is full.
    pub fn is_transmitter_fifo_full(&self) -> (result: bool)
        ensures
            result == u32_bit(self.channel_status, 4),
    {
        self.channel_status.read_bit(4)
    }

    /// True if the transmitter FIFO is empty.
    pub fn is_transmitter_fifo_empty(&self) -> (result: bool)
        ensures
            result == u32_bit(self.channel_status, 3),
    {
        self.channel_status.read_bit(3)
    }

    /// True if the receiver FIFO is full.
    pub fn is_receiver_fifo_full(&self) -> (result: bool)
        ensures
            result == u32_bit(self.channel_status, 2),
    {
        self.channel_status.read_bit(2)
    }

    /// True if the receiver FIFO is empty.
    pub fn is_receiver_fifo_empty(&self) -> (result: bool)
        ensures
            result == u32_bit(self.channel_status, 1),
    {
        self.channel_status.read_bit(1)
    }

    /// True if the receiver FIFO has reached the trigger level.
    pub fn is_receiver_fifo_trigger_reached(&self) -> (result: bool)
        ensures
            result == u32_bit(self.channel_status, 0),
    {
        self.channel_status.read_bit(0)
    }

    /// Configure the UART with its default configuration.
    ///
    /// 1. Unlock the system level control registers if they are locked.
    /// 2. Enable the device's AMBA and reference clocks.
    /// 3. Disable and reset the receiver and the transmitter.
    /// 4. Use the input clock without prescaling.
    /// 5. Use eight-bit characters, no parity and one stop bit.
    /// 6. Use the standard UART channel mode.
    ///
    /// An error reports that the system level control registers stayed
    /// locked, in which case the clocks cannot be configured.
    pub fn configure(&mut self, slcr: &mut Slcr) -> (result: Result<
        (),
        (),
    >)
        ensures
            result is Ok,
            !u32_bit(final(slcr).write_protection_status, 0),
            u32_bit(
                final(slcr).amba_clock_control,
                if old(self).index is Uart0 {
                    20u32
                } else {
                    21u32
                },
            ),
            u32_bit(final(slcr).uart_clock_control, old(self).index.spec_value()),
            final(self).index == old(self).index,
            !u32_bit(final(self).control, 2),
            !u32_bit(final(self).control, 4),
            final(self).channel_interrupt_status == 0,
            !final(self).spec_clock_source(),
            final(self).spec_character_length() == 0,
            final(self).spec_parity() == 4,
            final(self).spec_stop_bits() == 0,
            final(self).spec_channel_mode() == 0,
    {
        // Check that the system level control registers are unlocked.
        if slcr.is_system_level_configuration_registers_locked() {
            slcr.toggle_system_level_configuration_registers(false);
        }
        if slcr.is_system_level_configuration_registers_locked() {
            return Err(());
        }
        // Enable the AMBA and reference clocks.
        let target = match self.index {
            DeviceIndex::Uart0 => AmbaClockControl::Uart0,
            DeviceIndex::Uart1 => AmbaClockControl::Uart1,
        };
        slcr.toggle_amba_clocks(target, true);
        match self.index {
            DeviceIndex::Uart0 => slcr.toggle_uart_0_reference_clock(true),
            DeviceIndex::Uart1 => slcr.toggle_uart_1_reference_clock(true),
        }
        proof {
            lemma_slcr_clock_bits(
                old(slcr).amba_clock_control,
                self.index.spec_value(),
                old(slcr).uart_clock_control,
            );
        }
        self.toggle(false);
        self.reset_receiver();
        self.reset_transmitter();
        self.clear_all_interrupts();
        self.set_clock_source(ClockSource::UartRefClk);
        self.set_character_length(CharacterLength::Eight);
        self.set_parity(ParityType::Disabled);
        self.set_stop_bits(StopBits::One);
        self.set_channel_mode(ChannelMode::Normal);
        proof {
            lemma_uart_default_mode(old(self).mode, old(self).control);
        }
        Ok(())
    }

    /// Try to receive one byte: the low byte of the FIFO window, if the
    /// receiver FIFO is not empty.
    pub fn try_receive_byte(&self) -> (result: Option<u8>)
        ensures
            result is Some <==> !u32_bit(self.channel_status, 1),
            result matches Some(byte) ==> byte == self.transmit_and_receive_fifo as u8,
    {
        if self.is_receiver_fifo_empty() {
            None
        } else {
            let value = self.transmit_and_receive_fifo;
            let byte = value as u8;
            Some(byte)
        }
    }
}

/// Raising the chosen clock gate bits leaves them readable.
proof fn lemma_slcr_clock_bits(amba: u32, device: u32, reference: u32)
    requires
        device < 2,
    ensures
        u32_bit(u32_set_bit(amba, (20 + device) as u32), (20 + device) as u32),
        u32_bit(u32_set_bit(reference, device), device),
{
    lemma_u32_set_bit_reads(amba, (20 + device) as u32, (20 + device) as u32);
    lemma_u32_set_bit_reads(reference, device, device);
}

/// After the default-configuration writes, every mode field reads back its
/// default and the control register has receiving and transmitting
/// disabled.
proof fn lemma_uart_default_mode(mode: u32, control: u32)
    by (bit_vector)
    ensures
        ({
            let configured = u32_write_bits(
                u32_write_bits(
                    u32_write_bits(u32_write_bits(u32_clear_bit(mode, 0), 1, 0, 2), 3, 4, 3),
                    6,
                    0,
                    2,
                ),
                8,
                0,
                2,
            );
            &&& !u32_bit(configured, 0)
            &&& u32_read_bits(configured, 1, 2) == 0
            &&& u32_read_bits(configured, 3, 5) == 4
            &&& u32_read_bits(configured, 6, 7) == 0
            &&& u32_read_bits(configured, 8, 9) == 0
        }),
        !u32_bit(u32_clear_bit(u32_clear_bit(control, 2), 4), 2),
        !u32_bit(u32_clear_bit(u32_clear_bit(control, 2), 4), 4),
{
}

} // verus!
