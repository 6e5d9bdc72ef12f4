//! General purpose input and output.
//!
//! The GPIO registers are divided into four banks:
//! - bank 0 controls MIO pins 0 to 31,
//! - bank 1 controls MIO pins 32 to 53,
//! - bank 2 controls EMIO pins 0 to 31,
//! - bank 3 controls EMIO pins 32 to 63.
//!
//! The interrupt enable and disable registers are write-one command
//! registers; the model records the commands exactly as the hardware
//! receives them.

use core::ops::RangeInclusive;
use vstd::prelude::*;

use crate::common::bitman::ClearBitwise;
use crate::common::bitman::ReadBitwise;
use crate::common::bitman::SetBitwise;
use crate::common::bitman::u32_bit;
use crate::common::bitman::u32_clear_bit;
use crate::common::bitman::u32_set_bit;

verus! {

/// GPIO pin direction.
#[derive(Clone, Copy, Debug, PartialEq, Eq, Structural)]
pub enum PinDirection {
    /// Pin can accept voltage.
    Input,
    /// Pin can drive voltage.
    Output,
}

impl PinDirection {
    /// The direction register bit: high means output.
    pub open spec fn spec_bool(self) -> bool {
        match self {
            Self::Input => false,
            Self::Output => true,
        }
    }
}

/// GPIO pin interrupt type.
#[derive(Clone, Copy, Debug, PartialEq, Eq, Structural)]
pub enum InterruptType {
    /// Interrupt is level-sensitive.
    Level,
    /// Interrupt is edge-sensitive.
    Edge,
}

impl InterruptType {
    /// The interrupt type register bit: high means edge-sensitive.
    pub open spec fn spec_bool(self) -> bool {
        match self {
            Self::Level => false,
            Self::Edge => true,
        }
    }

    /// Transform to boolean.
    pub fn as_bool(self) -> (result: bool)
        ensures
            result == self.spec_bool(),
    {
        match self {
            Self::Level => false,
            Self::Edge => true,
        }
    }
}

/// GPIO pin interrupt polarity.
#[derive(Clone, Copy, Debug, PartialEq, Eq, Structural)]
pub enum InterruptPolarity {
    /// Interrupt triggers on low voltage or falling edge.
    ActiveLowOrFallingEdge,
    /// Interrupt triggers on high voltage or rising edge.
    ActiveHighOrRisingEdge,
}

impl InterruptPolarity {
    /// The polarity register bit: high means active-high or rising edge.
    pub open spec fn spec_bool(self) -> bool {
        match self {
            Self::ActiveLowOrFallingEdge => false,
            Self::ActiveHighOrRisingEdge => true,
        }
    }

    /// Transform to boolean.
    pub fn as_bool(self) -> (result: bool)
        ensures
            result == self.spec_bool(),
    {
        match self {
            Self::ActiveLowOrFallingEdge => false,
            Self::ActiveHighOrRisingEdge => true,
        }
    }
}

/// GPIO pin interrupt edge triggering mode.
#[derive(Clone, Copy, Debug, PartialEq, Eq, Structural)]
pub enum InterruptEdgeTriggeringMode {
    /// Trigger on single edge.
    Single,
    /// Trigger on both edges.
    Both,
}

impl InterruptEdgeTriggeringMode {
    /// The any-edge register bit: high means both edges trigger.
    pub open spec fn spec_bool(self) -> bool {
        match self {
            Self::Single => false,
            Self::Both => true,
        }
    }

    /// Transform to boolean.
    pub fn as_bool(self) -> (result: bool)
        ensures
            result == self.spec_bool(),
    {
        match self {
            Self::Single => false,
            Self::Both => true,
        }
    }
}

/// Register file of one GPIO bank.
#[derive(Clone, Copy)]
pub struct Bank {
    pub maskable_output_data_lsw: u32,
    pub maskable_output_data_msw: u32,
    pub output_data: u32,
    pub input_data: u32,
    pub direction_mode: u32,
    pub output_enable: u32,
    pub interrupt_mask_status: u32,
    pub interrupt_enable: u32,
    pub interrupt_disable: u32,
    pub interrupt_status: u32,
    pub interrupt_type: u32,
    pub interrupt_polarity: u32,
    pub interrupt_any_edge_sensitive: u32,
}

/// True if every register of the bank is zero.
pub open spec fn spec_bank_cleared(bank: Bank) -> bool {
    &&& bank.maskable_output_data_lsw == 0
    &&& bank.maskable_output_data_msw == 0
    &&& bank.output_data == 0
    &&& bank.input_data == 0
    &&& bank.direction_mode == 0
    &&& bank.output_enable == 0
    &&& bank.interrupt_mask_status == 0
    &&& bank.interrupt_enable == 0
    &&& bank.interrupt_disable == 0
    &&& bank.interrupt_status == 0
    &&& bank.interrupt_type == 0
    &&& bank.interrupt_polarity == 0
    &&& bank.interrupt_any_edge_sensitive == 0
}

/// The bank that controls an MIO pin: bank 0 for pins up to 31, bank 1 for
/// the rest.
pub open spec fn spec_mio_bank(pin: u32) -> int {
    if pin <= 31 {
        0
    } else {
        1
    }
}

/// The bank that controls an EMIO pin: bank 2 for pins up to 31, bank 3 for
/// the rest.
pub open spec fn spec_emio_bank(pin: u32) -> int {
    if pin <= 31 {
        2
    } else {
        3
    }
}

/// Register file of the GPIO peripheral.
pub struct Gpio {
    /// Valid MIO pin indices.
    pub mio_pin_range: RangeInclusive<u32>,
    /// Valid EMIO pin indices.
    pub emio_pin_range: RangeInclusive<u32>,
    /// The four register banks.
    pub banks: [Bank; 4],
    /// Which pins each bank controls.
    pub bank_pin_ranges: [RangeInclusive<u32>; 4],
    /// Which banks control MIO pins.
    pub mio_bank_indices: RangeInclusive<u32>,
    /// Which banks control EMIO pins.
    pub emio_bank_indices: RangeInclusive<u32>,
}

impl Gpio {
    /// The pin layout of the chip: 54 MIO pins over banks 0 and 1 and 64
    /// EMIO pins over banks 2 and 3.
    pub open spec fn wf(self) -> bool {
        &&& self.mio_pin_range@.start == 0 && self.mio_pin_range@.end == 53
        &&& self.emio_pin_range@.start == 0 && self.emio_pin_range@.end == 63
        &&& self.bank_pin_ranges[0]@.start == 0 && self.bank_pin_ranges[0]@.end == 31
        &&& self.bank_pin_ranges[1]@.start == 32 && self.bank_pin_ranges[1]@.end == 53
        &&& self.bank_pin_ranges[2]@.start == 0 && self.bank_pin_ranges[2]@.end == 31
        &&& self.bank_pin_ranges[3]@.start == 32 && self.bank_pin_ranges[3]@.end == 63
        &&& self.mio_bank_indices@.start == 0 && self.mio_bank_indices@.end == 1
        &&& self.emio_bank_indices@.start == 2 && self.emio_bank_indices@.end == 3
    }

    /// True if `other` matches `self` on every field but the banks.
    pub open spec fn same_except_banks(self, other: Gpio) -> bool {
        &&& self.mio_pin_range == other.mio_pin_range
        &&& self.emio_pin_range == other.emio_pin_range
        &&& self.bank_pin_ranges == other.bank_pin_ranges
        &&& self.mio_bank_indices == other.mio_bank_indices
        &&& self.emio_bank_indices == other.emio_bank_indices
    }

    /// A GPIO peripheral in its power-on state.
    pub fn new() -> (result: Gpio)
        ensures
            result.wf(),
            forall|bank: int| 0 <= bank < 4 ==> spec_bank_cleared(result.banks[bank]),
    {
        let bank = Bank {
            maskable_output_data_lsw: 0,
            maskable_output_data_msw: 0,
            output_data: 0,
            input_data: 0,
            direction_mode: 0,
            output_enable: 0,
            interrupt_mask_status: 0,
            interrupt_enable: 0,
            interrupt_disable: 0,
            interrupt_status: 0,
            interrupt_type: 0,
            interrupt_polarity: 0,
            interrupt_any_edge_sensitive: 0,
        };
        Gpio {
            mio_pin_range: RangeInclusive::new(0, 53),
            emio_pin_range: RangeInclusive::new(0, 63),
            banks: [bank, bank, bank, bank],
            bank_pin_ranges: [
                RangeInclusive::new(0, 31),
                RangeInclusive::new(32, 53),
                RangeInclusive::new(0, 31),
                RangeInclusive::new(32, 63),
            ],
            mio_bank_indices: RangeInclusive::new(0, 1),
            emio_bank_indices: RangeInclusive::new(2, 3),
        }
    }

    /// Get the bank that controls an MIO pin.
    pub fn get_mio_bank_by_pin_index(&self, index: u32) -> (result: &Bank)
        requires
            self.wf(),
            index <= 53,
        ensures
            *result == self.banks[spec_mio_bank(index)],
    {
        if index <= 31 {
            &self.banks[0]
        } else {
            &self.banks[1]
        }
    }

    /// Get the bank that controls an EMIO pin.
    pub fn get_emio_bank_by_pin_index(&self, index: u32) -> (result: &Bank)
        requires
            self.wf(),
            index <= 63,
        ensures
            *result == self.banks[spec_emio_bank(index)],
    {
        if index <= 31 {
            &self.banks[2]
        } else {
            &self.banks[3]
        }
    }

    /// Read an MIO pin's input.
    pub fn read_mio_input(&self, index: u32) -> (result: bool)
        requires
            self.wf(),
            index <= 53,
        ensures
            result == u32_bit(self.banks[spec_mio_bank(index)].input_data, index % 32),
    {
        let bank = self.get_mio_bank_by_pin_index(index);
        bank.input_data.read_bit(index % 32)
    }

    /// Read an EMIO pin's input.
    pub fn read_emio_input(&self, index: u32) -> (result: bool)
        requires
            self.wf(),
            index <= 63,
        ensures
            result == u32_bit(self.banks[spec_emio_bank(index)].input_data, index % 32),
    {
        let bank = self.get_emio_bank_by_pin_index(index);
        bank.input_data.read_bit(index % 32)
    }

    /// Set an MIO pin's direction.
    pub fn set_mio_direction(&mut self, index: u32, direction: PinDirection)
        requires
            old(self).wf(),
            index <= 53,
        ensures
            final(self).wf(),
            old(self).same_except_banks(*final(self)),
            final(self).banks[spec_mio_bank(index)] == (Bank {
                direction_mode: if direction.spec_bool() {
                    u32_set_bit(old(self).banks[spec_mio_bank(index)].direction_mode, index % 32)
                } else {
                    u32_clear_bit(old(self).banks[spec_mio_bank(index)].direction_mode, index % 32)
                },
                ..old(self).banks[spec_mio_bank(index)]
            }),
            forall|bank: int|
                0 <= bank < 4 && bank != spec_mio_bank(index) ==> final(self).banks[bank] == old(
                    self,
                ).banks[bank],
    {
        let which: usize = if index <= 31 {
            0
        } else {
            1
        };
        let mut bank = self.banks[which];
        bank.direction_mode = match direction {
            PinDirection::Input => bank.direction_mode.clear_bit(index % 32),
            PinDirection::Output => bank.direction_mode.set_bit(index % 32),
        };
        self.banks[which] = bank;
    }

    /// Set an EMIO pin's direction.
    pub fn set_emio_direction(&mut self, index: u32, direction: PinDirection)
        requires
            old(self).wf(),
            index <= 63,
        ensures
            final(self).wf(),
            old(self).same_except_banks(*final(self)),
            final(self).banks[spec_emio_bank(index)] == (Bank {
                direction_mode: if direction.spec_bool() {
                    u32_set_bit(old(self).banks[spec_emio_bank(index)].direction_mode, index % 32)
                } else {
                    u32_clear_bit(old(self).banks[spec_emio_bank(index)].direction_mode, index % 32)
                },
                ..old(self).banks[spec_emio_bank(index)]
            }),
            forall|bank: int|
                0 <= bank < 4 && bank != spec_emio_bank(index) ==> final(self).banks[bank] == old(
                    self,
                ).banks[bank],
    {
        let which: usize = if index <= 31 {
            2
        } else {
            3
        };
        let mut bank = self.banks[which];
        bank.direction_mode = match direction {
            PinDirection::Input => bank.direction_mode.clear_bit(index % 32),
            PinDirection::Output => bank.direction_mode.set_bit(index % 32),
        };
        self.banks[which] = bank;
    }

    /// Enable or disable an MIO pin's interrupt by writing the command bit
    /// to the bank's interrupt enable or disable register.
    pub fn toggle_mio_interrupt(&mut self, index: u32, enabled: bool)
        requires
            old(self).wf(),
            index <= 53,
        ensures
            final(self).wf(),
            old(self).same_except_banks(*final(self)),
            final(self).banks[spec_mio_bank(index)] == if enabled {
                Bank {
                    interrupt_enable: u32_set_bit(
                        old(self).banks[spec_mio_bank(index)].interrupt_enable,
                        index % 32,
                    ),
                    ..old(self).banks[spec_mio_bank(index)]
                }
            } else {
                Bank {
                    interrupt_disable: u32_set_bit(
                        old(self).banks[spec_mio_bank(index)].interrupt_disable,
                        index % 32,
                    ),
                    ..old(self).banks[spec_mio_bank(index)]
                }
            },
            forall|bank: int|
                0 <= bank < 4 && bank != spec_mio_bank(index) ==> final(self).banks[bank] == old(
                    self,
                ).banks[bank],
    {
        let which: usize = if index <= 31 {
            0
        } else {
            1
        };
        let mut bank = self.banks[which];
        if enabled {
            bank.interrupt_enable = bank.interrupt_enable.set_bit(index % 32);
        } else {
            bank.interrupt_disable = bank.interrupt_disable.set_bit(index % 32);
        }
        self.banks[which] = bank;
    }

    /// Enable or disable an EMIO pin's interrupt by writing the command bit
    /// to the bank's interrupt enable or disable register.
    pub fn toggle_emio_interrupt(&mut self, index: u32, enabled: bool)
        requires
            old(self).wf(),
            index <= 63,
        ensures
            final(self).wf(),
            old(self).same_except_banks(*final(self)),
            final(self).banks[spec_emio_bank(index)] == if enabled {
                Bank {
                    interrupt_enable: u32_set_bit(
                        old(self).banks[spec_emio_bank(index)].interrupt_enable,
                        index % 32,
                    ),
                    ..old(self).banks[spec_emio_bank(index)]
                }
            } else {
                Bank {
                    interrupt_disable: u32_set_bit(
                        old(self).banks[spec_emio_bank(index)].interrupt_disable,
                        index % 32,
                    ),
                    ..old(self).banks[spec_emio_bank(index)]
                }
            },
            forall|bank: int|
                0 <= bank < 4 && bank != spec_emio_bank(index) ==> final(self).banks[bank] == old(
                    self,
                ).banks[bank],
    {
        let which: usize = if index <= 31 {
            2
        } else {
            3
        };
        let mut bank = self.banks[which];
        if enabled {
            bank.interrupt_enable = bank.interrupt_enable.set_bit(index % 32);
        } else {
            bank.interrupt_disable = bank.interrupt_disable.set_bit(index % 32);
        }
        self.banks[which] = bank;
    }

    /// Read an MIO pin's interrupt status.
    pub fn read_mio_interrupt_status(&self, index: u32) -> (result: bool)
        requires
            self.wf(),
            index <= 53,
        ensures
            result == u32_bit(self.banks[spec_mio_bank(index)].interrupt_status, index % 32),
    {
        let bank = self.get_mio_bank_by_pin_index(index);
        bank.interrupt_status.read_bit(index % 32)
    }

    /// Read an EMIO pin's interrupt status.
    pub fn read_emio_interrupt_status(&self, index: u32) -> (result: bool)
        requires
            self.wf(),
            index <= 63,
        ensures
            result == u32_bit(self.banks[spec_emio_bank(index)].interrupt_status, index % 32),
    {
        let bank = self.get_emio_bank_by_pin_index(index);
        bank.interrupt_status.read_bit(index % 32)
    }

    /// Set an MIO pin's interrupt type.
    pub fn set_mio_interrupt_type(&mut self, index: u32, value: InterruptType)
        requires
            old(self).wf(),
            index <= 53,
        ensures
            final(self).wf(),
            old(self).same_except_banks(*final(self)),
            final(self).banks[spec_mio_bank(index)] == (Bank {
                interrupt_type: if value.spec_bool() {
                    u32_set_bit(old(self).banks[spec_mio_bank(index)].interrupt_type, index % 32)
                } else {
                    u32_clear_bit(old(self).banks[spec_mio_bank(index)].interrupt_type, index % 32)
                },
                ..old(self).banks[spec_mio_bank(index)]
            }),
            forall|bank: int|
                0 <= bank < 4 && bank != spec_mio_bank(index) ==> final(self).banks[bank] == old(
                    self,
                ).banks[bank],
    {
        let which: usize = if index <= 31 {
            0
        } else {
            1
        };
        let mut bank = self.banks[which];
        bank.interrupt_type = if value.as_bool() {
            bank.interrupt_type.set_bit(index % 32)
        } else {
            bank.interrupt_type.clear_bit(index % 32)
        };
        self.banks[which] = bank;
    }

    /// Set an EMIO pin's interrupt type.
    pub fn set_emio_interrupt_type(&mut self, index: u32, value: InterruptType)
        requires
            old(self).wf(),
            index <= 63,
        ensures
            final(self).wf(),
            old(self).same_except_banks(*final(self)),
            final(self).banks[spec_emio_bank(index)] == (Bank {
                interrupt_type: if value.spec_bool() {
                    u32_set_bit(old(self).banks[spec_emio_bank(index)].interrupt_type, index % 32)
                } else {
                    u32_clear_bit(old(self).banks[spec_emio_bank(index)].interrupt_type, index % 32)
                },
                ..old(self).banks[spec_emio_bank(index)]
            }),
            forall|bank: int|
                0 <= bank < 4 && bank != spec_emio_bank(index) ==> final(self).banks[bank] == old(
                    self,
                ).banks[bank],
    {
        let which: usize = if index <= 31 {
            2
        } else {
            3
        };
        let mut bank = self.banks[which];
        bank.interrupt_type = if value.as_bool() {
            bank.interrupt_type.set_bit(index % 32)
        } else {
            bank.interrupt_type.clear_bit(index % 32)
        };
        self.banks[which] = bank;
    }

    /// Set an MIO pin's interrupt polarity.
    pub fn set_mio_interrupt_polarity(&mut self, index: u32, value: InterruptPolarity)
        requires
            old(self).wf(),
            index <= 53,
        ensures
            final(self).wf(),
            old(self).same_except_banks(*final(self)),
            final(self).banks[spec_mio_bank(index)] == (Bank {
                interrupt_polarity: if value.spec_bool() {
                    u32_set_bit(
                        old(self).banks[spec_mio_bank(index)].interrupt_polarity,
                        index % 32,
                    )
                } else {
                    u32_clear_bit(
                        old(self).banks[spec_mio_bank(index)].interrupt_polarity,
                        index % 32,
                    )
                },
                ..old(self).banks[spec_mio_bank(index)]
            }),
            forall|bank: int|
                0 <= bank < 4 && bank != spec_mio_bank(index) ==> final(self).banks[bank] == old(
                    self,
                ).banks[bank],
    {
        let which: usize = if index <= 31 {
            0
        } else {
            1
        };
        let mut bank = self.banks[which];
        bank.interrupt_polarity = if value.as_bool() {
            bank.interrupt_polarity.set_bit(index % 32)
        } else {
            bank.interrupt_polarity.clear_bit(index % 32)
        };
        self.banks[which] = bank;
    }

    /// Set an EMIO pin's interrupt polarity.
    pub fn set_emio_interrupt_polarity(&mut self, index: u32, value: InterruptPolarity)
        requires
            old(self).wf(),
            index <= 63,
        ensures
            final(self).wf(),
            old(self).same_except_banks(*final(self)),
            final(self).banks[spec_emio_bank(index)] == (Bank {
                interrupt_polarity: if value.spec_bool() {
                    u32_set_bit(
                        old(self).banks[spec_emio_bank(index)].interrupt_polarity,
                        index % 32,
                    )
                } else {
                    u32_clear_bit(
                        old(self).banks[spec_emio_bank(index)].interrupt_polarity,
                        index % 32,
                    )
                },
                ..old(self).banks[spec_emio_bank(index)]
            }),
            forall|bank: int|
                0 <= bank < 4 && bank != spec_emio_bank(index) ==> final(self).banks[bank] == old(
                    self,
                ).banks[bank],
    {
        let which: usize = if index <= 31 {
            2
        } else {
            3
        };
        let mut bank = self.banks[which];
        bank.interrupt_polarity = if value.as_bool() {
            bank.interrupt_polarity.set_bit(index % 32)
        } else {
            bank.interrupt_polarity.clear_bit(index % 32)
        };
        self.banks[which] = bank;
    }

    /// Set an MIO pin's edge triggering mode.
    pub fn set_mio_edge_triggering_mode(&mut self, index: u32, value: InterruptEdgeTriggeringMode)
        requires
            old(self).wf(),
            index <= 53,
        ensures
            final(self).wf(),
            old(self).same_except_banks(*final(self)),
            final(self).banks[spec_mio_bank(index)] == (Bank {
                interrupt_any_edge_sensitive: if value.spec_bool() {
                    u32_set_bit(
                        old(self).banks[spec_mio_bank(index)].interrupt_any_edge_sensitive,
                        index % 32,
                    )
                } else {
                    u32_clear_bit(
                        old(self).banks[spec_mio_bank(index)].interrupt_any_edge_sensitive,
                        index % 32,
                    )
                },
                ..old(self).banks[spec_mio_bank(index)]
            }),
            forall|bank: int|
                0 <= bank < 4 && bank != spec_mio_bank(index) ==> final(self).banks[bank] == old(
                    self,
                ).banks[bank],
    {
        let which: usize = if index <= 31 {
            0
        } else {
            1
        };
        let mut bank = self.banks[which];
        bank.interrupt_any_edge_sensitive = if value.as_bool() {
            bank.interrupt_any_edge_sensitive.set_bit(index % 32)
        } else {
            bank.interrupt_any_edge_sensitive.clear_bit(index % 32)
        };
        self.banks[which] = bank;
    }

    /// Set an EMIO pin's edge triggering mode.
    pub fn set_emio_edge_triggering_mode(&mut self, index: u32, value: InterruptEdgeTriggeringMode)
        requires
            old(self).wf(),
            index <= 63,
        ensures
            final(self).wf(),
            old(self).same_except_banks(*final(self)),
            final(self).banks[spec_emio_bank(index)] == (Bank {
                interrupt_any_edge_sensitive: if value.spec_bool() {
                    u32_set_bit(
                        old(self).banks[spec_emio_bank(index)].interrupt_any_edge_sensitive,
                        index % 32,
                    )
                } else {
                    u32_clear_bit(
                        old(self).banks[spec_emio_bank(index)].interrupt_any_edge_sensitive,
                        index % 32,
                    )
                },
                ..old(self).banks[spec_emio_bank(index)]
            }),
            forall|bank: int|
                0 <= bank < 4 && bank != spec_emio_bank(index) ==> final(self).banks[bank] == old(
                    self,
                ).banks[bank],
    {
        let which: usize = if index <= 31 {
            2
        } else {
            3
        };
        let mut bank = self.banks[which];
        bank.interrupt_any_edge_sensitive = if value.as_bool() {
            bank.interrupt_any_edge_sensitive.set_bit(index % 32)
        } else {
            bank.interrupt_any_edge_sensitive.clear_bit(index % 32)
        };
        self.banks[which] = bank;
    }
}

} // verus!
