//! GPIO controller instantiated in the programmable logic, attached over
//! the AXI bus.
//!
//! A controller has one or two channels of up to 32 pins and, optionally,
//! an interrupt mechanism.  Register offsets are fixed relative to the
//! controller's base address; the model keeps both the addresses and the
//! current register contents.

use vstd::prelude::*;

use crate::common::bitman::ClearBitwise;
use crate::common::bitman::ReadBitwise;
use crate::common::bitman::SetBitwise;
use crate::common::bitman::u32_bit;
use crate::common::bitman::u32_clear_bit;
use crate::common::bitman::u32_set_bit;

verus! {

/// AXI GPIO pin direction.
#[derive(Clone, Copy, Debug, PartialEq, Eq, Structural)]
pub enum PinDirection {
    /// Pin is configured as output.
    Output,
    /// Pin is configured as input.
    Input,
}

impl PinDirection {
    /// The control register bit: high means input.
    pub open spec fn spec_bool(self) -> bool {
        match self {
            Self::Output => false,
            Self::Input => true,
        }
    }

    /// Decode a control register bit.
    pub fn from_bool(value: bool) -> (result: Self)
        ensures
            result.spec_bool() == value,
    {
        if value {
            Self::Input
        } else {
            Self::Output
        }
    }

    /// Transform to the control register bit.
    pub fn as_bool(self) -> (result: bool)
        ensures
            result == self.spec_bool(),
    {
        match self {
            Self::Output => false,
            Self::Input => true,
        }
    }

    /// A human-readable name of the direction.
    pub fn as_str(self) -> (result: &'static str)
        ensures
            self is Output ==> result@ == "output"@,
            self is Input ==> result@ == "input"@,
    {
        match self {
            Self::Output => "output",
            Self::Input => "input",
        }
    }
}

/// How many channels the controller was synthesised with.
#[derive(Clone, Copy, Debug, PartialEq, Eq, Structural)]
pub enum Channels {
    /// Device has a single channel.
    Single,
    /// Device has two channels.
    Dual,
}

impl Channels {
    /// A human-readable name of the configuration.
    pub fn as_str(self) -> (result: &'static str)
        ensures
            self is Single ==> result@ == "single"@,
            self is Dual ==> result@ == "dual"@,
    {
        match self {
            Self::Single => "single",
            Self::Dual => "dual",
        }
    }
}

/// One channel of the controller: a data register and a direction control
/// register for up to 32 pins.
#[derive(Clone, Copy, Debug, PartialEq, Eq, Structural)]
pub struct Channel {
    /// Address of the data register.
    pub address_data: u32,
    /// Address of the control register.
    pub address_control: u32,
    /// How many pins the channel drives.
    pub width: u32,
    /// Contents of the data register.
    pub data: u32,
    /// Contents of the control register; a high bit configures the pin as
    /// input.
    pub control: u32,
}

impl Channel {
    /// A channel whose registers are in their power-on state.
    pub fn new(address_data: u32, address_control: u32, width: u32) -> (result: Self)
        requires
            width <= 32,
        ensures
            result == (Channel { address_data, address_control, width, data: 0, control: 0 }),
    {
        Self { address_data, address_control, width, data: 0, control: 0 }
    }

    /// Address of the data register.
    pub fn address_data(&self) -> (result: u32)
        ensures
            result == self.address_data,
    {
        self.address_data
    }

    /// Address of the control register.
    pub fn address_control(&self) -> (result: u32)
        ensures
            result == self.address_control,
    {
        self.address_control
    }

    /// How many pins the channel drives.
    pub fn width(&self) -> (result: u32)
        ensures
            result == self.width,
    {
        self.width
    }

    /// Read a pin's configured direction; a pin outside the channel's width
    /// is rejected.
    pub fn pin_direction(&self, index: u32) -> (result: Result<PinDirection, ()>)
        requires
            self.width <= 32,
        ensures
            result is Ok <==> index < self.width,
            result matches Ok(direction) ==> direction.spec_bool() == u32_bit(self.control, index),
    {
        if index < self.width {
            let value = self.control.read_bit(index);
            Ok(PinDirection::from_bool(value))
        } else {
            Err(())
        }
    }

    /// Read an input pin's level; output pins and pins outside the
    /// channel's width are rejected.
    pub fn read_pin(&self, index: u32) -> (result: Result<bool, ()>)
        requires
            self.width <= 32,
        ensures
            result is Ok <==> index < self.width && u32_bit(self.control, index),
            result matches Ok(level) ==> level == u32_bit(self.data, index),
    {
        if index < self.width {
            match self.pin_direction(index).unwrap() {
                PinDirection::Output => Err(()),
                PinDirection::Input => Ok(self.data.read_bit(index)),
            }
        } else {
            Err(())
        }
    }

    /// Drive an output pin's level; input pins and pins outside the
    /// channel's width are rejected.
    pub fn write_pin(&mut self, index: u32, value: bool) -> (result: Result<(), &'static str>)
        requires
            old(self).width <= 32,
        ensures
            result is Ok <==> index < old(self).width && !u32_bit(old(self).control, index),
            result is Ok ==> *final(self) == (Channel {
                data: if value {
                    u32_set_bit(old(self).data, index)
                } else {
                    u32_clear_bit(old(self).data, index)
                },
                ..*old(self)
            }),
            result is Err ==> *final(self) == *old(self),
            index >= old(self).width ==> (result matches Err(message) && message@
                == "given pin does not exist"@),
            index < old(self).width && u32_bit(old(self).control, index) ==> (result matches Err(
                message,
            ) && message@ == "can not write to input pin"@),
    {
        if index < self.width {
            match self.pin_direction(index).unwrap() {
                PinDirection::Output => {
                    self.data = if value {
                        self.data.set_bit(index)
                    } else {
                        self.data.clear_bit(index)
                    };
                    Ok(())
                },
                PinDirection::Input => Err("can not write to input pin"),
            }
        } else {
            Err("given pin does not exist")
        }
    }

    /// Configure a pin's direction; a pin outside the channel's width is
    /// rejected.
    pub fn set_pin_direction(&mut self, index: u32, direction: PinDirection) -> (result: Result<
        (),
        (),
    >)
        requires
            old(self).width <= 32,
        ensures
            result is Ok <==> index < old(self).width,
            result is Ok ==> *final(self) == (Channel {
                control: if direction.spec_bool() {
                    u32_set_bit(old(self).control, index)
                } else {
                    u32_clear_bit(old(self).control, index)
                },
                ..*old(self)
            }),
            result is Err ==> *final(self) == *old(self),
    {
        if index < self.width {
            self.control = if direction.as_bool() {
                self.control.set_bit(index)
            } else {
                self.control.clear_bit(index)
            };
            Ok(())
        } else {
            Err(())
        }
    }

    /// Reset the channel: every pin becomes an output.
    pub fn reset(&mut self)
        ensures
            *final(self) == (Channel { control: 0, ..*old(self) }),
    {
        self.control = 0;
    }
}

/// One of the controller's channels.
#[derive(Clone, Copy, Debug, PartialEq, Eq, Structural)]
pub enum ChannelIndex {
    Channel1,
    Channel2,
}

impl ChannelIndex {
    /// The interrupt bit index of the channel.
    pub open spec fn spec_value(self) -> u32 {
        match self {
            Self::Channel1 => 0,
            Self::Channel2 => 1,
        }
    }

    /// The interrupt bit index of the channel.
    fn as_u32(self) -> (result: u32)
        ensures
            result == self.spec_value(),
    {
        match self {
            Self::Channel1 => 0,
            Self::Channel2 => 1,
        }
    }
}

/// The controller's optional interrupt mechanism.
#[derive(Clone, Copy, Debug, PartialEq, Eq, Structural)]
pub struct InterruptMechanism {
    /// Global interrupt enable register; bit 31 is the enable.
    pub global_interrupt_enable: u32,
    /// Per-channel interrupt enable register.
    pub ip_interrupt_enable: u32,
    /// Per-channel interrupt status register; the hardware clears a bit
    /// when one is written to it.
    pub ip_interrupt_status: u32,
    /// How many channels the controller has.
    pub channels: Channels,
}

impl InterruptMechanism {
    /// An interrupt mechanism in its power-on state.
    pub open spec fn spec_cleared(channels: Channels) -> InterruptMechanism {
        InterruptMechanism {
            global_interrupt_enable: 0,
            ip_interrupt_enable: 0,
            ip_interrupt_status: 0,
            channels,
        }
    }

    /// An interrupt mechanism whose registers are in their power-on state.
    pub fn new(channels: Channels) -> (result: Self)
        ensures
            result == (InterruptMechanism {
                global_interrupt_enable: 0,
                ip_interrupt_enable: 0,
                ip_interrupt_status: 0,
                channels,
            }),
    {
        Self { global_interrupt_enable: 0, ip_interrupt_enable: 0, ip_interrupt_status: 0, channels }
    }

    /// True if interrupts are enabled.
    pub fn is_interrupts_enabled(&self) -> (result: bool)
        ensures
            result == u32_bit(self.global_interrupt_enable, 31),
    {
        self.global_interrupt_enable.read_bit(31)
    }

    /// Enable or disable interrupts.
    pub fn toggle_interrupts(&mut self, enable: bool)
        ensures
            *final(self) == (InterruptMechanism {
                global_interrupt_enable: if enable {
                    u32_set_bit(old(self).global_interrupt_enable, 31)
                } else {
                    u32_clear_bit(old(self).global_interrupt_enable, 31)
                },
                ..*old(self)
            }),
            u32_bit(final(self).global_interrupt_enable, 31) == enable,
    {
        let register = self.global_interrupt_enable;
        self.global_interrupt_enable = if enable {
            register.set_bit(31)
        } else {
            register.clear_bit(31)
        };
        proof {
            if enable {
                crate::common::bitman::lemma_u32_set_bit_reads(register, 31, 31);
            } else {
                crate::common::bitman::lemma_u32_clear_bit_reads(register, 31, 31);
            }
        }
    }

    /// Check that the device is configured with dual channels when channel
    /// 2 is used.
    fn check_channel_configuration(&self, channel: ChannelIndex) -> (result: Result<(), ()>)
        ensures
            result is Ok <==> (channel is Channel1 || self.channels is Dual),
    {
        if channel == ChannelIndex::Channel2 {
            if self.channels != Channels::Dual {
                return Err(());
            }
        }
        Ok(())
    }

    /// True if the channel's interrupts are enabled; using channel 2 on a
    /// single-channel device is rejected.
    pub fn is_channel_interrupts_enabled(&self, channel: ChannelIndex) -> (result: Result<
        bool,
        (),
    >)
        ensures
            result is Ok <==> (channel is Channel1 || self.channels is Dual),
            result matches Ok(enabled) ==> enabled == u32_bit(
                self.ip_interrupt_enable,
                channel.spec_value(),
            ),
    {
        if let Err(_) = self.check_channel_configuration(channel) {
            Err(())
        } else {
            let index = channel.as_u32();
            Ok(self.ip_interrupt_enable.read_bit(index))
        }
    }

    /// Enable or disable the channel's interrupts; using channel 2 on a
    /// single-channel device is rejected.
    pub fn toggle_channel_interrupts(&mut self, channel: ChannelIndex, enable: bool) -> (result:
        Result<(), ()>)
        ensures
            result is Ok <==> (channel is Channel1 || old(self).channels is Dual),
            result is Ok ==> *final(self) == (InterruptMechanism {
                ip_interrupt_enable: if enable {
                    u32_set_bit(old(self).ip_interrupt_enable, channel.spec_value())
                } else {
                    u32_clear_bit(old(self).ip_interrupt_enable, channel.spec_value())
                },
                ..*old(self)
            }),
            result is Err ==> *final(self) == *old(self),
    {
        if let Err(_) = self.check_channel_configuration(channel) {
            Err(())
        } else {
            let index = channel.as_u32();
            let register = self.ip_interrupt_enable;
            self.ip_interrupt_enable = if enable {
                register.set_bit(index)
            } else {
                register.clear_bit(index)
            };
            Ok(())
        }
    }

    /// True if the channel's interrupt is signaled; using channel 2 on a
    /// single-channel device is rejected.
    pub fn read_channel_interrupt_status(&self, channel: ChannelIndex) -> (result: Result<
        bool,
        (),
    >)
        ensures
            result is Ok <==> (channel is Channel1 || self.channels is Dual),
            result matches Ok(signaled) ==> signaled == u32_bit(
                self.ip_interrupt_status,
                channel.spec_value(),
            ),
    {
        if let Err(_) = self.check_channel_configuration(channel) {
            Err(())
        } else {
            let index = channel.as_u32();
            Ok(self.ip_interrupt_status.read_bit(index))
        }
    }

    /// Clear the channel's interrupt by writing one to its status bit,
    /// which the hardware answers by clearing the bit; using channel 2 on a
    /// single-channel device is rejected.
    pub fn clear_channel_interrupt(&mut self, channel: ChannelIndex) -> (result: Result<(), ()>)
        ensures
            result is Ok <==> (channel is Channel1 || old(self).channels is Dual),
            result is Ok ==> *final(self) == (InterruptMechanism {
                ip_interrupt_status: u32_clear_bit(
                    old(self).ip_interrupt_status,
                    channel.spec_value(),
                ),
                ..*old(self)
            }),
            result is Err ==> *final(self) == *old(self),
    {
        if let Err(_) = self.check_channel_configuration(channel) {
            Err(())
        } else {
            let index = channel.as_u32();
            let register = self.ip_interrupt_status;
            self.ip_interrupt_status = register.clear_bit(index);
            Ok(())
        }
    }

    /// Reset the interrupt mechanism: interrupts disabled and every status
    /// bit cleared by writing ones to the whole status register.
    pub fn reset(&mut self)
        ensures
            *final(self) == (InterruptMechanism {
                global_interrupt_enable: 0,
                ip_interrupt_enable: 0,
                ip_interrupt_status: 0,
                ..*old(self)
            }),
    {
        self.global_interrupt_enable = 0;
        self.ip_interrupt_enable = 0;
        self.ip_interrupt_status = 0;
    }
}

/// Register file of one AXI GPIO controller.
pub struct AxiGpio {
    /// Base address of the controller's register block.
    pub address_base: u32,
    /// The first channel.
    pub channel_1: Channel,
    /// The second channel, on dual-channel devices.
    pub channel_2: Option<Channel>,
    /// The interrupt mechanism, when synthesised.
    pub interrupt_mechanism: Option<InterruptMechanism>,
}

impl AxiGpio {
    /// A controller at the given base address, with its registers in their
    /// power-on state.  Register addresses follow the fixed offsets of the
    /// device: data and control of channel 1 at 0x000 and 0x004, of channel
    /// 2 at 0x008 and 0x00C, and the interrupt registers at 0x11C, 0x128
    /// and 0x120.
    pub fn new(address_base: u32, channels: Channels, interrupts: bool, width: u32) -> (result:
        Self)
        requires
            width <= 32,
            address_base + 0x128 <= 0xFFFF_FFFF,
        ensures
            result.address_base == address_base,
            result.channel_1 == (Channel {
                address_data: address_base,
                address_control: (address_base + 0x004) as u32,
                width,
                data: 0,
                control: 0,
            }),
            channels is Dual <==> result.channel_2 is Some,
            result.channel_2 matches Some(channel) ==> channel == (Channel {
                address_data: (address_base + 0x008) as u32,
                address_control: (address_base + 0x00C) as u32,
                width,
                data: 0,
                control: 0,
            }),
            interrupts <==> result.interrupt_mechanism is Some,
            result.interrupt_mechanism matches Some(mechanism) ==> mechanism
                == InterruptMechanism::spec_cleared(channels),
    {
        let channel_1 = Channel::new(address_base, address_base + 0x004, width);
        let channel_2 = match channels {
            Channels::Single => None,
            Channels::Dual => Some(
                Channel::new(address_base + 0x008, address_base + 0x00C, width),
            ),
        };
        let interrupt_mechanism = if interrupts {
            Some(InterruptMechanism::new(channels))
        } else {
            None
        };
        AxiGpio { address_base, channel_1, channel_2, interrupt_mechanism }
    }

    /// Base address of the controller's register block.
    pub fn address_base(&self) -> (result: u32)
        ensures
            result == self.address_base,
    {
        self.address_base
    }

    /// The first channel.
    pub fn channel_1(&self) -> (result: &Channel)
        ensures
            *result == self.channel_1,
    {
        &self.channel_1
    }

    /// The second channel, on dual-channel devices.
    pub fn channel_2(&self) -> (result: &Option<Channel>)
        ensures
            *result == self.channel_2,
    {
        &self.channel_2
    }

    /// The interrupt mechanism, when synthesised.
    pub fn interrupt_mechanism(&self) -> (result: &Option<InterruptMechanism>)
        ensures
            *result == self.interrupt_mechanism,
    {
        &self.interrupt_mechanism
    }

    /// Reset every channel and the interrupt mechanism.
    pub fn reset(&mut self)
        ensures
            final(self).address_base == old(self).address_base,
            final(self).channel_1 == (Channel { control: 0, ..old(self).channel_1 }),
            old(self).channel_2 is None ==> final(self).channel_2 is None,
            old(self).channel_2 matches Some(channel) ==> final(self).channel_2 == Some(
                Channel { control: 0, ..channel },
            ),
            old(self).interrupt_mechanism is None ==> final(self).interrupt_mechanism is None,
            old(self).interrupt_mechanism matches Some(mechanism) ==> final(self).interrupt_mechanism == Some(
                InterruptMechanism {
                    global_interrupt_enable: 0,
                    ip_interrupt_enable: 0,
                    ip_interrupt_status: 0,
                    ..mechanism
                },
            ),
    {
        self.channel_1.reset();
        if let Some(channel_2) = &mut self.channel_2 {
            channel_2.reset();
        }
        if let Some(interrupt_mechanism) = &mut self.interrupt_mechanism {
            interrupt_mechanism.reset();
        }
    }
}

} // verus!
