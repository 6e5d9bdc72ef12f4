//! System level control registers.
//!
//! The reset-control registers are pulsed: a reset is requested by raising
//! a bit and ended by clearing it again, so after a completed reset
//! operation the register reads back cleared.

use vstd::prelude::*;

use crate::common::bitman::ClearBitwise;
use crate::common::bitman::ReadBitwise;
use crate::common::bitman::ReadBitwiseRange;
use crate::common::bitman::SetBitwise;
use crate::common::bitman::WriteBitwise;
use crate::common::bitman::lemma_u32_clear_bit_reads;
use crate::common::bitman::lemma_u32_mask_values;
use crate::common::bitman::lemma_u32_read_bits_bound;
use crate::common::bitman::lemma_u32_set_bit_reads;
use crate::common::bitman::u32_bit;
use crate::common::bitman::u32_clear_bit;
use crate::common::bitman::u32_read_bits;
use crate::common::bitman::u32_set_bit;
use crate::common::bitman::u32_write_bits;

use crate::peripheral::uart::DeviceIndex as UartDeviceIndex;

verus! {

/// One of the four reset lines toward the programmable logic.
#[derive(Clone, Copy, Debug, PartialEq, Eq, Structural)]
pub enum Frst {
    Frst0,
    Frst1,
    Frst2,
    Frst3,
}

impl Frst {
    /// The reset line's bit index.
    pub open spec fn spec_value(self) -> u32 {
        match self {
            Self::Frst0 => 0,
            Self::Frst1 => 1,
            Self::Frst2 => 2,
            Self::Frst3 => 3,
        }
    }

    /// The reset line's bit index.
    pub fn as_u32(self) -> (result: u32)
        ensures
            result == self.spec_value(),
    {
        match self {
            Self::Frst0 => 0,
            Self::Frst1 => 1,
            Self::Frst2 => 2,
            Self::Frst3 => 3,
        }
    }
}

/// One of the two processor cores.
#[derive(Clone, Copy, Debug, PartialEq, Eq, Structural)]
pub enum Cpu {
    Cpu0,
    Cpu1,
}

/// What a CPU reset request asks for.
#[derive(Clone, Copy, Debug, PartialEq, Eq, Structural)]
pub struct ResetCpuCommand {
    /// Reset core 0.
    pub reset_cpu0: bool,
    /// Reset core 1.
    pub reset_cpu1: bool,
    /// Stop core 0's clock.
    pub stop_cpu0_clock: bool,
    /// Stop core 1's clock.
    pub stop_cpu1_clock: bool,
    /// Reset the CPU peripherals.
    pub reset_cpu_peripherals: bool,
}

impl ResetCpuCommand {
    /// A command that asks for nothing.
    pub fn new() -> (result: Self)
        ensures
            result == (ResetCpuCommand {
                reset_cpu0: false,
                reset_cpu1: false,
                stop_cpu0_clock: false,
                stop_cpu1_clock: false,
                reset_cpu_peripherals: false,
            }),
    {
        Self {
            reset_cpu0: false,
            reset_cpu1: false,
            reset_cpu_peripherals: false,
            stop_cpu0_clock: false,
            stop_cpu1_clock: false,
        }
    }

    /// Ask to reset the chosen core; the request for the other core is
    /// withdrawn.
    pub fn toggle_reset_cpu(&self, cpu: Cpu, enable: bool) -> (result: Self)
        ensures
            result == (ResetCpuCommand {
                reset_cpu0: enable && cpu is Cpu0,
                reset_cpu1: enable && cpu is Cpu1,
                ..*self
            }),
    {
        let (reset_cpu0, reset_cpu1) = match cpu {
            Cpu::Cpu0 => (enable, false),
            Cpu::Cpu1 => (false, enable),
        };
        Self { reset_cpu0, reset_cpu1, ..*self }
    }

    /// Ask to stop the chosen core's clock; the request for the other core
    /// is withdrawn.
    pub fn toggle_stop_cpu(&self, cpu: Cpu, enable: bool) -> (result: Self)
        ensures
            result == (ResetCpuCommand {
                stop_cpu0_clock: enable && cpu is Cpu0,
                stop_cpu1_clock: enable && cpu is Cpu1,
                ..*self
            }),
    {
        let (stop_cpu0_clock, stop_cpu1_clock) = match cpu {
            Cpu::Cpu0 => (enable, false),
            Cpu::Cpu1 => (false, enable),
        };
        Self { stop_cpu0_clock, stop_cpu1_clock, ..*self }
    }

    /// Ask to reset the CPU peripherals.
    pub fn reset_cpu_peripherals(&self, enable: bool) -> (result: Self)
        ensures
            result == (ResetCpuCommand { reset_cpu_peripherals: enable, ..*self }),
    {
        Self { reset_cpu_peripherals: enable, ..*self }
    }
}

/// One of the two system watchdog timers.
#[derive(Clone, Copy, Debug, PartialEq, Eq, Structural)]
pub enum WatchdogIndex {
    Watchdog0,
    Watchdog1,
}

impl WatchdogIndex {
    /// The watchdog's bit index in the reset-target register.
    pub open spec fn spec_value(self) -> u32 {
        match self {
            Self::Watchdog0 => 0,
            Self::Watchdog1 => 1,
        }
    }

    /// The watchdog's bit index in the reset-target register.
    pub fn as_u32(self) -> (result: u32)
        ensures
            result == self.spec_value(),
    {
        match self {
            Self::Watchdog0 => 0,
            Self::Watchdog1 => 1,
        }
    }
}

/// What a watchdog timeout resets.
#[derive(Clone, Copy, Debug, PartialEq, Eq, Structural)]
pub enum WatchdogResetTarget {
    /// The watchdog resets the whole system with a software reset.
    System,
    /// The watchdog resets the CPU associated with the watchdog.
    Cpu,
}

impl WatchdogResetTarget {
    /// The reset-target register bit: high routes the reset to the CPU.
    pub open spec fn spec_bool(self) -> bool {
        match self {
            Self::System => false,
            Self::Cpu => true,
        }
    }

    /// Transform to boolean.
    pub fn as_bool(self) -> (result: bool)
        ensures
            result == self.spec_bool(),
    {
        match self {
            Self::System => false,
            Self::Cpu => true,
        }
    }
}

/// The decoded reboot status register.
pub struct RebootStatus {
    /// Error code written by the boot ROM.
    pub bootrom_error_code: u16,
    /// Last reset was caused by a system watchdog timeout.
    pub watchdog_timeout: bool,
    /// Last reset was caused by watchdog timer 0.
    pub watchdog0: bool,
    /// Last reset was caused by watchdog timer 1.
    pub watchdog1: bool,
    /// Last reset was caused by a system level control register.
    pub slc_soft_reset: bool,
    /// Last reset was caused by the debug system.
    pub debug_system_reset: bool,
    /// Last reset was a soft reset.
    pub soft_reset: bool,
    /// Last reset was a power-on reset.
    pub power_on_reset: bool,
    /// Data that persists through all resets except power-on reset.
    pub reboot_state: u8,
}

/// The decoded boot mode register.
pub struct BootMode {
    /// The strapped boot source.
    pub boot_mode: u32,
    /// True if the phase-locked loops are bypassed.
    pub pll_bypass: bool,
}

/// System level reset control registers.
pub struct Reset {
    pub ps_reset_control: u32,
    pub ddr_reset_control: u32,
    pub central_interconnect_reset_control: u32,
    pub dmac_reset_control: u32,
    pub usb_reset_control: u32,
    pub ethernet_reset_control: u32,
    pub sdio_reset_control: u32,
    pub spi_reset_control: u32,
    pub can_reset_control: u32,
    pub i2c_reset_control: u32,
    pub uart_reset_control: u32,
    pub gpio_reset_control: u32,
    pub quad_spi_reset_control: u32,
    pub smc_reset_control: u32,
    pub ocm_reset_control: u32,
    pub fpga_reset_control: u32,
    pub cpu_reset_and_clock_control: u32,
    pub watchdog_timer_reset_control: u32,
    pub reboot_status: u32,
    pub boot_mode: u32,
}

impl Reset {
    /// Reset the entire system.  The write generates a reset pulse; there
    /// is no need to clear the bit.
    pub fn reset(&mut self)
        ensures
            *final(self) == (Reset {
                ps_reset_control: u32_set_bit(old(self).ps_reset_control, 0),
                ..*old(self)
            }),
    {
        let register = self.ps_reset_control;
        self.ps_reset_control = register.set_bit(0);
    }

    /// Pulse the DDR memory reset.
    pub fn reset_ddr(&mut self)
        ensures
            *final(self) == (Reset {
                ddr_reset_control: u32_clear_bit(u32_set_bit(old(self).ddr_reset_control, 0), 0),
                ..*old(self)
            }),
    {
        let raised = self.ddr_reset_control.set_bit(0);
        self.ddr_reset_control = raised.clear_bit(0);
    }

    /// Pulse the central interconnect reset.
    pub fn reset_central_interconnect(&mut self)
        ensures
            *final(self) == (Reset {
                central_interconnect_reset_control: u32_clear_bit(
                    u32_set_bit(old(self).central_interconnect_reset_control, 0),
                    0,
                ),
                ..*old(self)
            }),
    {
        let raised = self.central_interconnect_reset_control.set_bit(0);
        self.central_interconnect_reset_control = raised.clear_bit(0);
    }

    /// Pulse the DMA controller reset.
    pub fn reset_dma_controller(&mut self)
        ensures
            *final(self) == (Reset {
                dmac_reset_control: u32_clear_bit(u32_set_bit(old(self).dmac_reset_control, 0), 0),
                ..*old(self)
            }),
    {
        let raised = self.dmac_reset_control.set_bit(0);
        self.dmac_reset_control = raised.clear_bit(0);
    }

    /// Pulse a UART reset: the AMBA-clock bit and the reference-clock bit
    /// of the chosen device are raised together and then cleared.
    pub fn reset_uart(&mut self, uart: UartDeviceIndex, amba: bool, reference: bool)
        ensures
            *final(self) == (Reset { uart_reset_control: 0, ..*old(self) }),
    {
        let mut value: u32 = 0;
        match uart {
            UartDeviceIndex::Uart0 => {
                if amba {
                    value = value.set_bit(0);
                }
                if reference {
                    value = value.set_bit(2);
                }
            },
            UartDeviceIndex::Uart1 => {
                if amba {
                    value = value.set_bit(1);
                }
                if reference {
                    value = value.set_bit(3);
                }
            },
        }
        self.uart_reset_control = value;
        self.uart_reset_control = 0;
    }

    /// Pulse the GPIO reset.
    pub fn reset_gpio(&mut self)
        ensures
            *final(self) == (Reset {
                gpio_reset_control: u32_clear_bit(u32_set_bit(old(self).gpio_reset_control, 0), 0),
                ..*old(self)
            }),
    {
        let raised = self.gpio_reset_control.set_bit(0);
        self.gpio_reset_control = raised.clear_bit(0);
    }

    /// Pulse a quad SPI reset: the AMBA-clock bit and the reference-clock
    /// bit are raised together and then cleared.
    pub fn reset_quad_spi(&mut self, amba: bool, reference: bool)
        ensures
            *final(self) == (Reset { quad_spi_reset_control: 0, ..*old(self) }),
    {
        let mut value: u32 = 0;
        if amba {
            value = value.set_bit(0);
        }
        if reference {
            value = value.set_bit(1);
        }
        self.quad_spi_reset_control = value;
        self.quad_spi_reset_control = 0;
    }

    /// Pulse a static memory controller reset: the AMBA-clock bit and the
    /// reference-clock bit are raised together and then cleared.
    pub fn reset_smc(&mut self, amba: bool, reference: bool)
        ensures
            *final(self) == (Reset { smc_reset_control: 0, ..*old(self) }),
    {
        let mut value: u32 = 0;
        if amba {
            value = value.set_bit(0);
        }
        if reference {
            value = value.set_bit(1);
        }
        self.smc_reset_control = value;
        self.smc_reset_control = 0;
    }

    /// Pulse the on-chip memory reset.
    pub fn reset_ocm(&mut self)
        ensures
            *final(self) == (Reset {
                ocm_reset_control: u32_clear_bit(u32_set_bit(old(self).ocm_reset_control, 0), 0),
                ..*old(self)
            }),
    {
        let raised = self.ocm_reset_control.set_bit(0);
        self.ocm_reset_control = raised.clear_bit(0);
    }

    /// Pulse one of the programmable logic's reset lines.
    pub fn reset_fpga(&mut self, frst: Frst)
        ensures
            *final(self) == (Reset {
                fpga_reset_control: u32_clear_bit(
                    u32_set_bit(old(self).fpga_reset_control, frst.spec_value()),
                    frst.spec_value(),
                ),
                ..*old(self)
            }),
    {
        let index = frst.as_u32();
        let raised = self.fpga_reset_control.set_bit(index);
        self.fpga_reset_control = raised.clear_bit(index);
    }

    /// Issue a CPU reset command: core resets in bits 0 and 1, clock stops
    /// in bits 4 and 5, the peripheral reset in bit 8.
    pub fn reset_cpu(&mut self, command: ResetCpuCommand)
        ensures
            *final(self) == (Reset {
                cpu_reset_and_clock_control: spec_cpu_reset_value(command),
                ..*old(self)
            }),
    {
        let mut value: u32 = 0;
        if command.reset_cpu0 {
            value = value.set_bit(0);
        }
        if command.reset_cpu1 {
            value = value.set_bit(1);
        }
        if command.stop_cpu0_clock {
            value = value.set_bit(4);
        }
        if command.stop_cpu1_clock {
            value = value.set_bit(5);
        }
        if command.reset_cpu_peripherals {
            value = value.set_bit(8);
        }
        self.cpu_reset_and_clock_control = value;
    }

    /// Route a watchdog's timeout to the system or to its CPU.
    pub fn set_watchdog_reset_target(&mut self, watchdog: WatchdogIndex, route: WatchdogResetTarget)
        ensures
            *final(self) == (Reset {
                watchdog_timer_reset_control: if route.spec_bool() {
                    u32_set_bit(old(self).watchdog_timer_reset_control, watchdog.spec_value())
                } else {
                    u32_clear_bit(old(self).watchdog_timer_reset_control, watchdog.spec_value())
                },
                ..*old(self)
            }),
    {
        let index = watchdog.as_u32();
        let register = self.watchdog_timer_reset_control;
        self.watchdog_timer_reset_control = if route.as_bool() {
            register.set_bit(index)
        } else {
            register.clear_bit(index)
        };
    }

    /// Decode the reboot status register.
    pub fn reboot_status(&self) -> (result: RebootStatus)
        ensures
            result.bootrom_error_code == u32_read_bits(self.reboot_status, 0, 15),
            result.watchdog_timeout == u32_bit(self.reboot_status, 16),
            result.watchdog0 == u32_bit(self.reboot_status, 17),
            result.watchdog1 == u32_bit(self.reboot_status, 18),
            result.slc_soft_reset == u32_bit(self.reboot_status, 19),
            result.debug_system_reset == u32_bit(self.reboot_status, 20),
            result.soft_reset == u32_bit(self.reboot_status, 21),
            result.power_on_reset == u32_bit(self.reboot_status, 22),
            result.reboot_state == u32_read_bits(self.reboot_status, 24, 31),
    {
        let register = self.reboot_status;
        proof {
            lemma_u32_read_bits_bound(register, 0, 15);
            lemma_u32_read_bits_bound(register, 24, 31);
            lemma_u32_mask_values();
        }
        let bootrom_error_code = register.read_bits(
            core::ops::RangeInclusive::new(0u32, 15u32),
        ) as u16;
        let watchdog_timeout = register.read_bit(16);
        let watchdog0 = register.read_bit(17);
        let watchdog1 = register.read_bit(18);
        let slc_soft_reset = register.read_bit(19);
        let debug_system_reset = register.read_bit(20);
        let soft_reset = register.read_bit(21);
        let power_on_reset = register.read_bit(22);
        let reboot_state = register.read_bits(core::ops::RangeInclusive::new(24u32, 31u32)) as u8;
        RebootStatus {
            bootrom_error_code,
            watchdog_timeout,
            watchdog0,
            watchdog1,
            slc_soft_reset,
            debug_system_reset,
            soft_reset,
            power_on_reset,
            reboot_state,
        }
    }

    /// Decode the boot mode register.
    pub fn boot_mode(&self) -> (result: BootMode)
        ensures
            result.boot_mode == u32_read_bits(self.boot_mode, 0, 3),
            result.pll_bypass == u32_bit(self.boot_mode, 4),
    {
        let register = self.boot_mode;
        let boot_mode = register.read_bits(core::ops::RangeInclusive::new(0u32, 3u32));
        let pll_bypass = register.read_bit(4);
        BootMode { boot_mode, pll_bypass }
    }
}

/// The CPU reset register value that a command encodes.
pub open spec fn spec_cpu_reset_value(command: ResetCpuCommand) -> u32 {
    let step0 = if command.reset_cpu0 {
        u32_set_bit(0, 0)
    } else {
        0
    };
    let step1 = if command.reset_cpu1 {
        u32_set_bit(step0, 1)
    } else {
        step0
    };
    let step2 = if command.stop_cpu0_clock {
        u32_set_bit(step1, 4)
    } else {
        step1
    };
    let step3 = if command.stop_cpu1_clock {
        u32_set_bit(step2, 5)
    } else {
        step2
    };
    if command.reset_cpu_peripherals {
        u32_set_bit(step3, 8)
    } else {
        step3
    }
}

/// Which AMBA interface clock a control bit gates.
#[derive(Clone, Copy, Debug, PartialEq, Eq, Structural)]
pub enum AmbaClockControl {
    DmaController,
    UsbController0,
    UsbController1,
    Ethernet0,
    Ethernet1,
    Sdio0,
    Sdio1,
    Spi0,
    Spi1,
    Can0,
    Can1,
    Isc0,
    Isc1,
    Uart0,
    Uart1,
    Gpio,
    QuadSpi,
    Smc,
}

impl AmbaClockControl {
    /// The clock gate's bit index in the AMBA clock control register.
    pub open spec fn spec_value(self) -> u32 {
        match self {
            Self::DmaController => 0,
            Self::UsbController0 => 2,
            Self::UsbController1 => 3,
            Self::Ethernet0 => 6,
            Self::Ethernet1 => 7,
            Self::Sdio0 => 10,
            Self::Sdio1 => 11,
            Self::Spi0 => 14,
            Self::Spi1 => 15,
            Self::Can0 => 16,
            Self::Can1 => 17,
            Self::Isc0 => 18,
            Self::Isc1 => 19,
            Self::Uart0 => 20,
            Self::Uart1 => 21,
            Self::Gpio => 22,
            Self::QuadSpi => 23,
            Self::Smc => 24,
        }
    }

    /// The clock gate's bit index in the AMBA clock control register.
    pub fn as_u32(self) -> (result: u32)
        ensures
            result == self.spec_value(),
    {
        match self {
            Self::DmaController => 0,
            Self::UsbController0 => 2,
            Self::UsbController1 => 3,
            Self::Ethernet0 => 6,
            Self::Ethernet1 => 7,
            Self::Sdio0 => 10,
            Self::Sdio1 => 11,
            Self::Spi0 => 14,
            Self::Spi1 => 15,
            Self::Can0 => 16,
            Self::Can1 => 17,
            Self::Isc0 => 18,
            Self::Isc1 => 19,
            Self::Uart0 => 20,
            Self::Uart1 => 21,
            Self::Gpio => 22,
            Self::QuadSpi => 23,
            Self::Smc => 24,
        }
    }
}

/// System level control registers.
pub struct Slcr {
    /// Secure configuration lock register; bit 0 locks.
    pub secure_configuration_lock: u32,
    /// Write protection lock register; written with the lock key.
    pub write_protection_lock: u32,
    /// Write protection unlock register; written with the unlock key.
    pub write_protection_unlock: u32,
    /// Write protection status register; bit 0 reads high while locked.
    pub write_protection_status: u32,
    /// AMBA clock control register.
    pub amba_clock_control: u32,
    /// UART clock control register.
    pub uart_clock_control: u32,
    /// The reset control registers.
    pub reset: Reset,
}

impl Slcr {
    /// True if `other` matches `self` on the lock and clock registers.
    pub open spec fn same_except_reset(self, other: Slcr) -> bool {
        &&& self.secure_configuration_lock == other.secure_configuration_lock
        &&& self.write_protection_lock == other.write_protection_lock
        &&& self.write_protection_unlock == other.write_protection_unlock
        &&& self.write_protection_status == other.write_protection_status
        &&& self.amba_clock_control == other.amba_clock_control
        &&& self.uart_clock_control == other.uart_clock_control
    }

    /// The register block as it stands after boot: the boot ROM leaves the
    /// system level configuration registers locked.
    pub fn new() -> (result: Slcr)
        ensures
            result.secure_configuration_lock == 0,
            result.write_protection_lock == 0,
            result.write_protection_unlock == 0,
            result.write_protection_status == 1,
            result.amba_clock_control == 0,
            result.uart_clock_control == 0,
            result.reset == (Reset {
                ps_reset_control: 0,
                ddr_reset_control: 0,
                central_interconnect_reset_control: 0,
                dmac_reset_control: 0,
                usb_reset_control: 0,
                ethernet_reset_control: 0,
                sdio_reset_control: 0,
                spi_reset_control: 0,
                can_reset_control: 0,
                i2c_reset_control: 0,
                uart_reset_control: 0,
                gpio_reset_control: 0,
                quad_spi_reset_control: 0,
                smc_reset_control: 0,
                ocm_reset_control: 0,
                fpga_reset_control: 0,
                cpu_reset_and_clock_control: 0,
                watchdog_timer_reset_control: 0,
                reboot_status: 0,
                boot_mode: 0,
            }),
    {
        Slcr {
            secure_configuration_lock: 0,
            write_protection_lock: 0,
            write_protection_unlock: 0,
            write_protection_status: 1,
            amba_clock_control: 0,
            uart_clock_control: 0,
            reset: Reset {
                ps_reset_control: 0,
                ddr_reset_control: 0,
                central_interconnect_reset_control: 0,
                dmac_reset_control: 0,
                usb_reset_control: 0,
                ethernet_reset_control: 0,
                sdio_reset_control: 0,
                spi_reset_control: 0,
                can_reset_control: 0,
                i2c_reset_control: 0,
                uart_reset_control: 0,
                gpio_reset_control: 0,
                quad_spi_reset_control: 0,
                smc_reset_control: 0,
                ocm_reset_control: 0,
                fpga_reset_control: 0,
                cpu_reset_and_clock_control: 0,
                watchdog_timer_reset_control: 0,
                reboot_status: 0,
                boot_mode: 0,
            },
        }
    }

    /// True if all writes to secure configuration registers are ignored.
    pub fn is_secure_configuration_registers_locked(&self) -> (result: bool)
        ensures
            result == u32_bit(self.secure_configuration_lock, 0),
    {
        self.secure_configuration_lock.read_bit(0)
    }

    /// Lock the secure configuration registers.
    pub fn lock_secure_configuration_registers(&mut self)
        ensures
            *final(self) == (Slcr {
                secure_configuration_lock: u32_set_bit(old(self).secure_configuration_lock, 0),
                ..*old(self)
            }),
            u32_bit(final(self).secure_configuration_lock, 0),
    {
        let register = self.secure_configuration_lock;
        self.secure_configuration_lock = register.set_bit(0);
        proof {
            lemma_u32_set_bit_reads(register, 0, 0);
        }
    }

    /// Lock or unlock the system level configuration registers by writing
    /// the lock or unlock key; the hardware answers by raising or clearing
    /// the write protection status bit.
    pub fn toggle_system_level_configuration_registers(&mut self, lock: bool)
        ensures
            lock ==> *final(self) == (Slcr {
                write_protection_lock: u32_write_bits(
                    old(self).write_protection_lock,
                    0,
                    0x767B,
                    16,
                ),
                write_protection_status: u32_set_bit(old(self).write_protection_status, 0),
                ..*old(self)
            }),
            !lock ==> *final(self) == (Slcr {
                write_protection_unlock: u32_write_bits(
                    old(self).write_protection_unlock,
                    0,
                    0xDF0D,
                    16,
                ),
                write_protection_status: u32_clear_bit(old(self).write_protection_status, 0),
                ..*old(self)
            }),
            u32_bit(final(self).write_protection_status, 0) == lock,
    {
        proof {
            lemma_u32_mask_values();
        }
        let status = self.write_protection_status;
        if lock {
            let register = self.write_protection_lock;
            self.write_protection_lock = register.write_bits(0, 0x767B, 16);
            self.write_protection_status = status.set_bit(0);
            proof {
                lemma_u32_set_bit_reads(status, 0, 0);
            }
        } else {
            let register = self.write_protection_unlock;
            self.write_protection_unlock = register.write_bits(0, 0xDF0D, 16);
            self.write_protection_status = status.clear_bit(0);
            proof {
                lemma_u32_clear_bit_reads(status, 0, 0);
            }
        }
    }

    /// True if the system level configuration registers are locked.
    pub fn is_system_level_configuration_registers_locked(&self) -> (result: bool)
        ensures
            result == u32_bit(self.write_protection_status, 0),
    {
        self.write_protection_status.read_bit(0)
    }

    /// Gate or ungate an AMBA interface clock.
    pub fn toggle_amba_clocks(&mut self, target: AmbaClockControl, enable: bool)
        ensures
            *final(self) == (Slcr {
                amba_clock_control: if enable {
                    u32_set_bit(old(self).amba_clock_control, target.spec_value())
                } else {
                    u32_clear_bit(old(self).amba_clock_control, target.spec_value())
                },
                ..*old(self)
            }),
    {
        let index = target.as_u32();
        let register = self.amba_clock_control;
        self.amba_clock_control = if enable {
            register.set_bit(index)
        } else {
            register.clear_bit(index)
        };
    }

    /// Enable or disable UART 0's reference clock.
    pub fn toggle_uart_0_reference_clock(&mut self, enable: bool)
        ensures
            *final(self) == (Slcr {
                uart_clock_control: if enable {
                    u32_set_bit(old(self).uart_clock_control, 0)
                } else {
                    u32_clear_bit(old(self).uart_clock_control, 0)
                },
                ..*old(self)
            }),
    {
        let register = self.uart_clock_control;
        self.uart_clock_control = if enable {
            register.set_bit(0)
        } else {
            register.clear_bit(0)
        };
    }

    /// Enable or disable UART 1's reference clock.
    pub fn toggle_uart_1_reference_clock(&mut self, enable: bool)
        ensures
            *final(self) == (Slcr {
                uart_clock_control: if enable {
                    u32_set_bit(old(self).uart_clock_control, 1)
                } else {
                    u32_clear_bit(old(self).uart_clock_control, 1)
                },
                ..*old(self)
            }),
    {
        let register = self.uart_clock_control;
        self.uart_clock_control = if enable {
            register.set_bit(1)
        } else {
            register.clear_bit(1)
        };
    }

    /// The reset control registers.
    pub fn reset(&self) -> (result: &Reset)
        ensures
            *result == self.reset,
    {
        &self.reset
    }

    /// The reset control registers, for issuing reset operations.
    pub fn reset_mut(&mut self) -> (result: &mut Reset)
        ensures
            *result == old(self).reset,
            *final(self) == (Slcr { reset: *final(result), ..*old(self) }),
    {
        &mut self.reset
    }
}

} // verus!
