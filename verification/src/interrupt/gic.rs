//! General interrupt controller: the distributor.
//!
//! The board uses 5 bits to indicate an interrupt's priority; the lower the
//! value, the higher the urgency.
//!
//! The distributor owns register banks that hold, per interrupt, the
//! security, enable, pending, active, priority, CPU-routing and sensitivity
//! state.  Hardware exposes enable and pending through set/clear register
//! pairs whose readable state is the set-register; the model keeps the one
//! logical bank for each.  Which register of a bank and which bit within it
//! belong to an interrupt is computed by [`SolvedAddressOffset::solve`].

use vstd::prelude::*;

use crate::common::bitman::ClearBitwise;
use crate::common::bitman::ReadBitwise;
use crate::common::bitman::ReadBitwiseRange;
use crate::common::bitman::SetBitwise;
use crate::common::bitman::WriteBitwise;
use crate::common::bitman::lemma_u32_bit_writes_read_bits_outside;
use crate::common::bitman::lemma_u32_clear_bit_reads;
use crate::common::bitman::lemma_u32_cleared_register_reads;
use crate::common::bitman::lemma_u32_five_bit_field;
use crate::common::bitman::lemma_u32_mask_values;
use crate::common::bitman::lemma_u32_read_bits_bound;
use crate::common::bitman::lemma_u32_set_bit_reads;
use crate::common::bitman::lemma_u32_two_bit_field;
use crate::common::bitman::lemma_u32_write_bits_bit_outside;
use crate::common::bitman::lemma_u32_write_bits_reads_inside;
use crate::common::bitman::lemma_u32_write_bits_reads_outside;
use crate::common::bitman::u32_bit;
use crate::common::bitman::u32_clear_bit;
use crate::common::bitman::u32_read_bits;
use crate::common::bitman::u32_set_bit;

use super::InterruptPriority;
use super::irq_numbers::Irq;
use super::irq_numbers::SgiIrq;
use super::irq_numbers::SpiIrq;
use super::irq_numbers::lemma_irq_number_in_class;

verus! {

broadcast use vstd::array::group_array_axioms;

/// Security state of one interrupt.
#[derive(Clone, Copy, Debug, PartialEq, Eq, Structural)]
pub enum InterruptSecurity {
    /// Interrupt is secure.
    Secure,
    /// Interrupt is non-secure.
    NonSecure,
}

impl InterruptSecurity {
    /// The security register bit: high means non-secure.
    pub open spec fn spec_bool(self) -> bool {
        match self {
            Self::Secure => false,
            Self::NonSecure => true,
        }
    }

    /// Transform to boolean.
    pub fn as_bool(self) -> (result: bool)
        ensures
            result == self.spec_bool(),
    {
        match self {
            Self::Secure => false,
            Self::NonSecure => true,
        }
    }
}

/// Handling state of one interrupt, as the distributor tracks it.
#[derive(Clone, Copy, Debug, PartialEq, Eq, Structural)]
pub enum InterruptState {
    Inactive,
    Pending,
    Active,
    PendingActive,
}

/// Which CPU handles the interrupt.
#[derive(Clone, Copy, Debug, PartialEq, Eq, Structural)]
pub enum InterruptTargets {
    /// Interrupt is not signaled to any CPU.
    NoCpu,
    /// Interrupt is signaled to CPU 0.
    Cpu0,
    /// Interrupt is signaled to CPU 1.
    Cpu1,
    /// Interrupt is signaled to both CPU 0 and CPU 1.
    Both,
}

impl InterruptTargets {
    /// The two-bit target field: bit 0 routes to CPU 0, bit 1 to CPU 1.
    pub open spec fn spec_value(self) -> u32 {
        match self {
            Self::NoCpu => 0b00,
            Self::Cpu0 => 0b01,
            Self::Cpu1 => 0b10,
            Self::Both => 0b11,
        }
    }

    /// Transform to the two-bit target field.
    pub fn as_u32(self) -> (result: u32)
        ensures
            result == self.spec_value(),
    {
        match self {
            Self::NoCpu => 0b00,
            Self::Cpu0 => 0b01,
            Self::Cpu1 => 0b10,
            Self::Both => 0b11,
        }
    }

    /// Decode a two-bit target field.
    pub fn from_u32(value: u32) -> (result: Self)
        requires
            value <= 3,
        ensures
            result.spec_value() == value,
    {
        match value {
            0b00 => Self::NoCpu,
            0b01 => Self::Cpu0,
            0b10 => Self::Cpu1,
            _ => Self::Both,
        }
    }
}

/// How an interrupt line is sensed.
#[derive(Clone, Copy, Debug, PartialEq, Eq, Structural)]
pub enum InterruptSensitivity {
    /// Interrupt is level-sensitive.
    Level,
    /// Interrupt is edge-triggered.
    Edge,
}

impl InterruptSensitivity {
    /// The sensitivity bit: high means edge-triggered.
    pub open spec fn spec_bool(self) -> bool {
        match self {
            Self::Level => false,
            Self::Edge => true,
        }
    }

    /// Transform to boolean.
    pub fn as_bool(self) -> (result: bool)
        ensures
            result == self.spec_bool(),
    {
        match self {
            Self::Level => false,
            Self::Edge => true,
        }
    }
}

/// Configures the side effect of acknowledgement by one target.
#[derive(Clone, Copy, Debug, PartialEq, Eq, Structural)]
pub enum InterruptHandlingModel {
    /// If the interrupt is acknowledged by one target, it stays pending for
    /// the other targets.
    NToN,
    /// If the interrupt is acknowledged by one target, it turns from pending
    /// to inactive for the other targets.
    OneToN,
}

impl InterruptHandlingModel {
    /// The handling-model bit: high means one-to-N.
    pub open spec fn spec_bool(self) -> bool {
        match self {
            Self::NToN => false,
            Self::OneToN => true,
        }
    }

    /// Transform to boolean.
    pub fn as_bool(self) -> (result: bool)
        ensures
            result == self.spec_bool(),
    {
        match self {
            Self::NToN => false,
            Self::OneToN => true,
        }
    }
}

/// Selects which CPU interfaces a software-generated interrupt is sent to.
#[derive(Clone, Copy, Debug, PartialEq, Eq, Structural)]
pub enum TargetListFilter {
    /// Send the interrupt to the CPU interfaces of the target list.
    Option1,
    /// Send the interrupt to every CPU interface except the requester's.
    Option2,
    /// Send the interrupt only to the requester's CPU interface.
    Option3,
}

impl TargetListFilter {
    /// The two-bit filter field of the software-generated-interrupt register.
    pub open spec fn spec_value(self) -> u32 {
        match self {
            Self::Option1 => 0b00,
            Self::Option2 => 0b01,
            Self::Option3 => 0b10,
        }
    }

    /// Transform to unsigned 32-bit integer.
    pub fn as_u32(self) -> (result: u32)
        ensures
            result == self.spec_value(),
    {
        match self {
            Self::Option1 => 0b00,
            Self::Option2 => 0b01,
            Self::Option3 => 0b10,
        }
    }
}

/// How many interrupts are configured by a single register.
#[derive(Clone, Copy, Debug, PartialEq, Eq, Structural)]
pub enum InterruptsPerAddress {
    /// Register configures 4 interrupts (8-bit fields).
    Count4,
    /// Register configures 16 interrupts (2-bit fields).
    Count16,
    /// Register configures 32 interrupts (1-bit fields).
    Count32,
}

impl InterruptsPerAddress {
    /// How many registers the granularity's bank has for interrupt ids 0 to 95.
    pub open spec fn spec_register_count(self) -> u32 {
        match self {
            Self::Count4 => 24,
            Self::Count16 => 6,
            Self::Count32 => 3,
        }
    }
}

/// The register of a bank that configures interrupt `id` under the chosen
/// granularity.
pub open spec fn spec_solve_register(id: u32, per: InterruptsPerAddress) -> u32 {
    match per {
        InterruptsPerAddress::Count4 => id / 4,
        InterruptsPerAddress::Count16 => id / 16,
        InterruptsPerAddress::Count32 => id / 32,
    }
}

/// The first bit within that register of the field that configures
/// interrupt `id` under the chosen granularity.
pub open spec fn spec_solve_bit(id: u32, per: InterruptsPerAddress) -> u32 {
    match per {
        InterruptsPerAddress::Count4 => ((id % 4) * 8) as u32,
        InterruptsPerAddress::Count16 => ((id % 16) * 2) as u32,
        InterruptsPerAddress::Count32 => (id % 32) as u32,
    }
}

/// Which register in a bank, and which bit offset within that register,
/// configure a given interrupt.
#[derive(Clone, Copy, Debug, PartialEq, Eq, Structural)]
pub struct SolvedAddressOffset {
    /// Index of the register within the bank.
    pub offset_register: usize,
    /// First bit of the interrupt's field within that register.
    pub offset_bit: u32,
}

impl SolvedAddressOffset {
    /// Solve register index and bit offset for an interrupt id.
    ///
    /// An id at or above 96 is a programming error and is excluded by the
    /// precondition rather than clamped.
    pub fn solve(interrupt_id: u32, interrupts_per_address: InterruptsPerAddress) -> (result: Self)
        requires
            interrupt_id < 96,
        ensures
            result.offset_register == spec_solve_register(interrupt_id, interrupts_per_address),
            result.offset_bit == spec_solve_bit(interrupt_id, interrupts_per_address),
            result.offset_register < interrupts_per_address.spec_register_count(),
            result.offset_bit < 32,
    {
        match interrupts_per_address {
            InterruptsPerAddress::Count4 => SolvedAddressOffset {
                offset_register: (interrupt_id / 4) as usize,
                offset_bit: (interrupt_id % 4) * 8,
            },
            InterruptsPerAddress::Count16 => SolvedAddressOffset {
                offset_register: (interrupt_id / 16) as usize,
                offset_bit: (interrupt_id % 16) * 2,
            },
            InterruptsPerAddress::Count32 => SolvedAddressOffset {
                offset_register: (interrupt_id / 32) as usize,
                offset_bit: interrupt_id % 32,
            },
        }
    }
}

/// The solver is injective: under one granularity, no two distinct interrupt
/// ids resolve to the same (register, bit offset) pair, so every interrupt
/// owns its own non-overlapping bit group.
pub proof fn lemma_solver_injective(per: InterruptsPerAddress, first: u32, second: u32)
    requires
        first < 96,
        second < 96,
        first != second,
    ensures
        spec_solve_register(first, per) != spec_solve_register(second, per) || spec_solve_bit(
            first,
            per,
        ) != spec_solve_bit(second, per),
{
}

/// General interrupt controller: the distributor.
///
/// The distributor monitors peripheral interrupt signals and forwards
/// pending interrupts to the CPU interfaces.  The struct owns the
/// distributor's register state; the enable and pending banks hold the
/// logical state that hardware exposes through set/clear register pairs.
/// On this chip the register block sits at base address 0xF8F0_1000, with
/// the banks at their architectural offsets: security at 0x080, set and
/// clear enable at 0x100 and 0x180, set and clear pending at 0x200 and
/// 0x280, active at 0x300, priority at 0x400, targets at 0x800,
/// configuration at 0xC00, the software-generated-interrupt register at
/// 0xF00 and peripheral ID2 at 0xFE8.
pub struct Gic {
    /// Distributor control register; bit 0 is the global enable.
    pub distributor_control: u32,
    /// Interrupt security registers, 1 bit per interrupt.
    pub interrupt_security: [u32; 3],
    /// Interrupt enable state, 1 bit per interrupt.
    pub interrupt_enable: [u32; 3],
    /// Interrupt pending state, 1 bit per interrupt.
    pub interrupt_pending: [u32; 3],
    /// Interrupt active state, 1 bit per interrupt; hardware exposes it
    /// read-only, and only the acknowledge/complete protocol changes it.
    pub interrupt_active: [u32; 3],
    /// Interrupt priority registers, 8 bits per interrupt of which the top
    /// 5 are significant.
    pub interrupt_priority: [u32; 24],
    /// Interrupt processor target registers, 8 bits per interrupt of which
    /// the low 2 are significant.
    pub interrupt_processor_targets: [u32; 24],
    /// Interrupt configuration registers, 2 bits per interrupt: the odd bit
    /// of each pair selects edge sensitivity, the even bit the handling
    /// model.  The corresponding interrupt must be disabled before altering.
    pub interrupt_configuration: [u32; 6],
    /// Software generated interrupt register.
    pub software_generated_interrupt: u32,
    /// Peripheral ID2 register; bits 4 to 7 hold the architecture revision.
    pub peripheral_id2: u32,
}

/// The distributor state after the bulk sensitivity initialisation of
/// [`Gic::configure_sensitivities`]: every shared-peripheral configuration
/// register is reset to level sensitivity with the one-to-N model bit of
/// every pair high, then the fixed minority of edge-triggered shared
/// interrupts (inter-core 0 and 1, the system watchdog, the two ethernet
/// wake-ups and the parity interrupt) get their edge bits set.  The
/// registers covering the software-generated and private-peripheral banks
/// keep their hardware-fixed contents.
pub open spec fn spec_default_sensitivities(state: Gic) -> Gic {
    Gic {
        interrupt_configuration: vstd::array::spec_array_update(
            vstd::array::spec_array_update(
                vstd::array::spec_array_update(
                    vstd::array::spec_array_update(
                        state.interrupt_configuration,
                        2,
                        u32_set_bit(u32_set_bit(u32_set_bit(0x5555_5555u32, 1), 3), 19),
                    ),
                    3,
                    u32_set_bit(0x5555_5555u32, 15),
                ),
                4,
                u32_set_bit(0x5555_5555u32, 29),
            ),
            5,
            u32_set_bit(0x5555_5555u32, 25),
        ),
        ..state
    }
}

/// Running the bulk sensitivity initialisation twice leaves exactly the
/// register state that running it once leaves.
pub proof fn lemma_default_sensitivities_idempotent(state: Gic)
    ensures
        spec_default_sensitivities(spec_default_sensitivities(state)) == spec_default_sensitivities(
            state,
        ),
{
    let once = spec_default_sensitivities(state);
    let twice = spec_default_sensitivities(once);
    assert(twice.interrupt_configuration@ =~= once.interrupt_configuration@);
    assert(twice.interrupt_configuration == once.interrupt_configuration);
}

impl Gic {
    /// True if the distributor's global enable bit is high.
    pub open spec fn spec_enabled(self) -> bool {
        u32_bit(self.distributor_control, 0)
    }

    /// True if the interrupt's security bit marks it non-secure.
    pub open spec fn spec_interrupt_non_secure(self, id: u32) -> bool {
        u32_bit(self.interrupt_security[(id / 32) as int], id % 32)
    }

    /// True if the interrupt is enabled.
    pub open spec fn spec_interrupt_enabled(self, id: u32) -> bool {
        u32_bit(self.interrupt_enable[(id / 32) as int], id % 32)
    }

    /// True if the interrupt is pending.
    pub open spec fn spec_interrupt_pending(self, id: u32) -> bool {
        u32_bit(self.interrupt_pending[(id / 32) as int], id % 32)
    }

    /// True if the interrupt is active.
    pub open spec fn spec_interrupt_active(self, id: u32) -> bool {
        u32_bit(self.interrupt_active[(id / 32) as int], id % 32)
    }

    /// The interrupt's priority level: the 5 significant bits of its 8-bit
    /// priority field.
    pub open spec fn spec_priority_level(self, id: u32) -> u32 {
        u32_read_bits(
            self.interrupt_priority[(id / 4) as int],
            ((id % 4) * 8 + 3) as u32,
            ((id % 4) * 8 + 7) as u32,
        )
    }

    /// The interrupt's full 8-bit priority field.
    pub open spec fn spec_priority_byte(self, id: u32) -> u32 {
        u32_read_bits(
            self.interrupt_priority[(id / 4) as int],
            ((id % 4) * 8) as u32,
            ((id % 4) * 8 + 7) as u32,
        )
    }

    /// The interrupt's two-bit CPU target field.
    pub open spec fn spec_targets(self, id: u32) -> u32 {
        u32_read_bits(
            self.interrupt_processor_targets[(id / 4) as int],
            ((id % 4) * 8) as u32,
            ((id % 4) * 8 + 1) as u32,
        )
    }

    /// The interrupt's full 8-bit CPU target lane: the two-bit target field
    /// in its low bits, the six reserved upper bits.
    pub open spec fn spec_targets_lane(self, id: u32) -> u32 {
        u32_read_bits(
            self.interrupt_processor_targets[(id / 4) as int],
            ((id % 4) * 8) as u32,
            ((id % 4) * 8 + 7) as u32,
        )
    }

    /// True if the interrupt is configured edge-triggered: the odd bit of
    /// its two-bit configuration pair.
    pub open spec fn spec_sensitivity_edge(self, id: u32) -> bool {
        u32_bit(self.interrupt_configuration[(id / 16) as int], ((id % 16) * 2 + 1) as u32)
    }

    /// True if the interrupt's handling model is one-to-N: the even bit of
    /// its two-bit configuration pair.
    pub open spec fn spec_handling_model_one_n(self, id: u32) -> bool {
        u32_bit(self.interrupt_configuration[(id / 16) as int], ((id % 16) * 2) as u32)
    }

    /// The architecture revision field of the peripheral ID2 register.
    pub open spec fn spec_architecture_revision(self) -> u32 {
        u32_read_bits(self.peripheral_id2, 4, 7)
    }

    /// True if `other` matches `self` on every field but the distributor
    /// control register.
    pub open spec fn same_except_control(self, other: Gic) -> bool {
        &&& self.interrupt_security == other.interrupt_security
        &&& self.interrupt_enable == other.interrupt_enable
        &&& self.interrupt_pending == other.interrupt_pending
        &&& self.interrupt_active == other.interrupt_active
        &&& self.interrupt_priority == other.interrupt_priority
        &&& self.interrupt_processor_targets == other.interrupt_processor_targets
        &&& self.interrupt_configuration == other.interrupt_configuration
        &&& self.software_generated_interrupt == other.software_generated_interrupt
        &&& self.peripheral_id2 == other.peripheral_id2
    }

    /// True if `other` matches `self` on every field but the security bank.
    pub open spec fn same_except_security(self, other: Gic) -> bool {
        &&& self.distributor_control == other.distributor_control
        &&& self.interrupt_enable == other.interrupt_enable
        &&& self.interrupt_pending == other.interrupt_pending
        &&& self.interrupt_active == other.interrupt_active
        &&& self.interrupt_priority == other.interrupt_priority
        &&& self.interrupt_processor_targets == other.interrupt_processor_targets
        &&& self.interrupt_configuration == other.interrupt_configuration
        &&& self.software_generated_interrupt == other.software_generated_interrupt
        &&& self.peripheral_id2 == other.peripheral_id2
    }

    /// True if `other` matches `self` on every field but the enable bank.
    pub open spec fn same_except_enable(self, other: Gic) -> bool {
        &&& self.distributor_control == other.distributor_control
        &&& self.interrupt_security == other.interrupt_security
        &&& self.interrupt_pending == other.interrupt_pending
        &&& self.interrupt_active == other.interrupt_active
        &&& self.interrupt_priority == other.interrupt_priority
        &&& self.interrupt_processor_targets == other.interrupt_processor_targets
        &&& self.interrupt_configuration == other.interrupt_configuration
        &&& self.software_generated_interrupt == other.software_generated_interrupt
        &&& self.peripheral_id2 == other.peripheral_id2
    }

    /// True if `other` matches `self` on every field but the pending bank.
    pub open spec fn same_except_pending(self, other: Gic) -> bool {
        &&& self.distributor_control == other.distributor_control
        &&& self.interrupt_security == other.interrupt_security
        &&& self.interrupt_enable == other.interrupt_enable
        &&& self.interrupt_active == other.interrupt_active
        &&& self.interrupt_priority == other.interrupt_priority
        &&& self.interrupt_processor_targets == other.interrupt_processor_targets
        &&& self.interrupt_configuration == other.interrupt_configuration
        &&& self.software_generated_interrupt == other.software_generated_interrupt
        &&& self.peripheral_id2 == other.peripheral_id2
    }

    /// True if `other` matches `self` on every field but the pending and
    /// active banks.
    pub open spec fn same_except_pending_and_active(self, other: Gic) -> bool {
        &&& self.distributor_control == other.distributor_control
        &&& self.interrupt_security == other.interrupt_security
        &&& self.interrupt_enable == other.interrupt_enable
        &&& self.interrupt_priority == other.interrupt_priority
        &&& self.interrupt_processor_targets == other.interrupt_processor_targets
        &&& self.interrupt_configuration == other.interrupt_configuration
        &&& self.software_generated_interrupt == other.software_generated_interrupt
        &&& self.peripheral_id2 == other.peripheral_id2
    }

    /// True if `other` matches `self` on every field but the active bank.
    pub open spec fn same_except_active(self, other: Gic) -> bool {
        &&& self.distributor_control == other.distributor_control
        &&& self.interrupt_security == other.interrupt_security
        &&& self.interrupt_enable == other.interrupt_enable
        &&& self.interrupt_pending == other.interrupt_pending
        &&& self.interrupt_priority == other.interrupt_priority
        &&& self.interrupt_processor_targets == other.interrupt_processor_targets
        &&& self.interrupt_configuration == other.interrupt_configuration
        &&& self.software_generated_interrupt == other.software_generated_interrupt
        &&& self.peripheral_id2 == other.peripheral_id2
    }

    /// True if `other` matches `self` on every field but the priority bank.
    pub open spec fn same_except_priority(self, other: Gic) -> bool {
        &&& self.distributor_control == other.distributor_control
        &&& self.interrupt_security == other.interrupt_security
        &&& self.interrupt_enable == other.interrupt_enable
        &&& self.interrupt_pending == other.interrupt_pending
        &&& self.interrupt_active == other.interrupt_active
        &&& self.interrupt_processor_targets == other.interrupt_processor_targets
        &&& self.interrupt_configuration == other.interrupt_configuration
        &&& self.software_generated_interrupt == other.software_generated_interrupt
        &&& self.peripheral_id2 == other.peripheral_id2
    }

    /// True if `other` matches `self` on every field but the target bank.
    pub open spec fn same_except_targets(self, other: Gic) -> bool {
        &&& self.distributor_control == other.distributor_control
        &&& self.interrupt_security == other.interrupt_security
        &&& self.interrupt_enable == other.interrupt_enable
        &&& self.interrupt_pending == other.interrupt_pending
        &&& self.interrupt_active == other.interrupt_active
        &&& self.interrupt_priority == other.interrupt_priority
        &&& self.interrupt_configuration == other.interrupt_configuration
        &&& self.software_generated_interrupt == other.software_generated_interrupt
        &&& self.peripheral_id2 == other.peripheral_id2
    }

    /// True if `other` matches `self` on every field but the configuration
    /// bank.
    pub open spec fn same_except_configuration(self, other: Gic) -> bool {
        &&& self.distributor_control == other.distributor_control
        &&& self.interrupt_security == other.interrupt_security
        &&& self.interrupt_enable == other.interrupt_enable
        &&& self.interrupt_pending == other.interrupt_pending
        &&& self.interrupt_active == other.interrupt_active
        &&& self.interrupt_priority == other.interrupt_priority
        &&& self.interrupt_processor_targets == other.interrupt_processor_targets
        &&& self.software_generated_interrupt == other.software_generated_interrupt
        &&& self.peripheral_id2 == other.peripheral_id2
    }

    /// True if `other` matches `self` on every field but the
    /// software-generated-interrupt register.
    pub open spec fn same_except_sgi_register(self, other: Gic) -> bool {
        &&& self.distributor_control == other.distributor_control
        &&& self.interrupt_security == other.interrupt_security
        &&& self.interrupt_enable == other.interrupt_enable
        &&& self.interrupt_pending == other.interrupt_pending
        &&& self.interrupt_active == other.interrupt_active
        &&& self.interrupt_priority == other.interrupt_priority
        &&& self.interrupt_processor_targets == other.interrupt_processor_targets
        &&& self.interrupt_configuration == other.interrupt_configuration
        &&& self.peripheral_id2 == other.peripheral_id2
    }

    /// A distributor in its power-on state: every bank cleared, the
    /// architecture revision readable from the identification register.
    pub fn new() -> (result: Gic)
        ensures
            result.distributor_control == 0,
            result.interrupt_security == [0u32, 0u32, 0u32],
            result.interrupt_enable == [0u32, 0u32, 0u32],
            result.interrupt_pending == [0u32, 0u32, 0u32],
            result.interrupt_active == [0u32, 0u32, 0u32],
            forall|i: int| 0 <= i < 24 ==> result.interrupt_priority[i] == 0,
            forall|i: int| 0 <= i < 24 ==> result.interrupt_processor_targets[i] == 0,
            forall|i: int| 0 <= i < 6 ==> result.interrupt_configuration[i] == 0,
            result.software_generated_interrupt == 0,
            result.peripheral_id2 == 0x10,
            !result.spec_enabled(),
            forall|id: u32| id < 96 ==> !result.spec_interrupt_enabled(id),
            forall|id: u32| id < 96 ==> !result.spec_interrupt_pending(id),
            forall|id: u32| id < 96 ==> !result.spec_interrupt_active(id),
            forall|id: u32| id < 96 ==> !result.spec_interrupt_non_secure(id),
            forall|id: u32| id < 96 ==> result.spec_priority_byte(id) == 0,
            forall|id: u32| id < 96 ==> result.spec_priority_level(id) == 0,
            forall|id: u32| id < 96 ==> result.spec_targets(id) == 0,
            forall|id: u32| id < 96 ==> !result.spec_sensitivity_edge(id),
            forall|id: u32| id < 96 ==> !result.spec_handling_model_one_n(id),
            result.spec_architecture_revision() == 1,
    {
        proof {
            lemma_u32_cleared_register_reads();
            assert(u32_read_bits(0x10u32, 4, 7) == 1) by (bit_vector);
        }
        Gic {
            distributor_control: 0,
            interrupt_security: [0, 0, 0],
            interrupt_enable: [0, 0, 0],
            interrupt_pending: [0, 0, 0],
            interrupt_active: [0, 0, 0],
            interrupt_priority: [0; 24],
            interrupt_processor_targets: [0; 24],
            interrupt_configuration: [0; 6],
            software_generated_interrupt: 0,
            peripheral_id2: 0x10,
        }
    }

    /// Enable or disable the distributor.
    pub fn toggle(&mut self, enable: bool)
        ensures
            final(self).spec_enabled() == enable,
            final(self).distributor_control == if enable {
                u32_set_bit(old(self).distributor_control, 0)
            } else {
                u32_clear_bit(old(self).distributor_control, 0)
            },
            old(self).same_except_control(*final(self)),
    {
        let control = self.distributor_control;
        self.distributor_control = if enable {
            control.set_bit(0)
        } else {
            control.clear_bit(0)
        };
        proof {
            if enable {
                lemma_u32_set_bit_reads(control, 0, 0);
            } else {
                lemma_u32_clear_bit_reads(control, 0, 0);
            }
        }
    }

    /// Set interrupt security.
    pub fn set_interrupt_security(&mut self, interrupt: Irq, security: InterruptSecurity)
        ensures
            final(self).spec_interrupt_non_secure(interrupt.spec_number()) == security.spec_bool(),
            forall|other: u32|
                other < 96 && other != interrupt.spec_number() ==> final(self).spec_interrupt_non_secure(other) == old(self).spec_interrupt_non_secure(other),
            old(self).same_except_security(*final(self)),
    {
        proof {
            lemma_irq_number_in_class(interrupt);
        }
        let id = interrupt.as_u32();
        let solved = SolvedAddressOffset::solve(id, InterruptsPerAddress::Count32);
        let word = self.interrupt_security[solved.offset_register];
        let updated = if security.as_bool() {
            word.set_bit(solved.offset_bit)
        } else {
            word.clear_bit(solved.offset_bit)
        };
        self.interrupt_security[solved.offset_register] = updated;
        proof {
            if security.spec_bool() {
                lemma_u32_set_bit_reads(word, id % 32, id % 32);
            } else {
                lemma_u32_clear_bit_reads(word, id % 32, id % 32);
            }
            assert forall|other: u32|
                other < 96 && other != interrupt.spec_number() implies self.spec_interrupt_non_secure(other) == old(
                self,
            ).spec_interrupt_non_secure(other) by {
                if other / 32 == id / 32 {
                    if security.spec_bool() {
                        lemma_u32_set_bit_reads(word, id % 32, other % 32);
                    } else {
                        lemma_u32_clear_bit_reads(word, id % 32, other % 32);
                    }
                }
            }
        }
    }

    /// Enable or disable an interrupt.
    pub fn toggle_interrupt(&mut self, interrupt: Irq, enable: bool)
        ensures
            final(self).spec_interrupt_enabled(interrupt.spec_number()) == enable,
            forall|other: u32|
                other < 96 && other != interrupt.spec_number() ==> final(self).spec_interrupt_enabled(other) == old(self).spec_interrupt_enabled(other),
            old(self).same_except_enable(*final(self)),
    {
        proof {
            lemma_irq_number_in_class(interrupt);
        }
        let id = interrupt.as_u32();
        let solved = SolvedAddressOffset::solve(id, InterruptsPerAddress::Count32);
        let word = self.interrupt_enable[solved.offset_register];
        let updated = if enable {
            word.set_bit(solved.offset_bit)
        } else {
            word.clear_bit(solved.offset_bit)
        };
        self.interrupt_enable[solved.offset_register] = updated;
        proof {
            if enable {
                lemma_u32_set_bit_reads(word, id % 32, id % 32);
            } else {
                lemma_u32_clear_bit_reads(word, id % 32, id % 32);
            }
            assert forall|other: u32|
                other < 96 && other != interrupt.spec_number() implies self.spec_interrupt_enabled(other) == old(
                self,
            ).spec_interrupt_enabled(other) by {
                if other / 32 == id / 32 {
                    if enable {
                        lemma_u32_set_bit_reads(word, id % 32, other % 32);
                    } else {
                        lemma_u32_clear_bit_reads(word, id % 32, other % 32);
                    }
                }
            }
        }
    }

    /// True if the interrupt is enabled.
    pub fn is_interrupt_enabled(&self, interrupt: Irq) -> (result: bool)
        ensures
            result == self.spec_interrupt_enabled(interrupt.spec_number()),
    {
        proof {
            lemma_irq_number_in_class(interrupt);
        }
        let id = interrupt.as_u32();
        let solved = SolvedAddressOffset::solve(id, InterruptsPerAddress::Count32);
        self.interrupt_enable[solved.offset_register].read_bit(solved.offset_bit)
    }

    /// Raise or clear an interrupt's pending state.
    pub fn toggle_interrupt_pending(&mut self, interrupt: Irq, enable: bool)
        ensures
            final(self).spec_interrupt_pending(interrupt.spec_number()) == enable,
            forall|other: u32|
                other < 96 && other != interrupt.spec_number() ==> final(self).spec_interrupt_pending(other) == old(self).spec_interrupt_pending(other),
            old(self).same_except_pending(*final(self)),
    {
        proof {
            lemma_irq_number_in_class(interrupt);
        }
        let id = interrupt.as_u32();
        let solved = SolvedAddressOffset::solve(id, InterruptsPerAddress::Count32);
        let word = self.interrupt_pending[solved.offset_register];
        let updated = if enable {
            word.set_bit(solved.offset_bit)
        } else {
            word.clear_bit(solved.offset_bit)
        };
        self.interrupt_pending[solved.offset_register] = updated;
        proof {
            if enable {
                lemma_u32_set_bit_reads(word, id % 32, id % 32);
            } else {
                lemma_u32_clear_bit_reads(word, id % 32, id % 32);
            }
            assert forall|other: u32|
                other < 96 && other != interrupt.spec_number() implies self.spec_interrupt_pending(other) == old(
                self,
            ).spec_interrupt_pending(other) by {
                if other / 32 == id / 32 {
                    if enable {
                        lemma_u32_set_bit_reads(word, id % 32, other % 32);
                    } else {
                        lemma_u32_clear_bit_reads(word, id % 32, other % 32);
                    }
                }
            }
        }
    }

    /// True if the interrupt is pending.
    pub fn is_interrupt_pending(&self, interrupt: Irq) -> (result: bool)
        ensures
            result == self.spec_interrupt_pending(interrupt.spec_number()),
    {
        proof {
            lemma_irq_number_in_class(interrupt);
        }
        let id = interrupt.as_u32();
        let solved = SolvedAddressOffset::solve(id, InterruptsPerAddress::Count32);
        self.interrupt_pending[solved.offset_register].read_bit(solved.offset_bit)
    }

    /// True if the interrupt is active.
    pub fn is_interrupt_active(&self, interrupt: Irq) -> (result: bool)
        ensures
            result == self.spec_interrupt_active(interrupt.spec_number()),
    {
        proof {
            lemma_irq_number_in_class(interrupt);
        }
        let id = interrupt.as_u32();
        let solved = SolvedAddressOffset::solve(id, InterruptsPerAddress::Count32);
        self.interrupt_active[solved.offset_register].read_bit(solved.offset_bit)
    }

    /// Move an interrupt in or out of the active state.  Hardware drives the
    /// active bank through the acknowledge/complete protocol alone, so this
    /// is reserved for the CPU interface.
    pub(crate) fn set_interrupt_active_state(&mut self, interrupt: Irq, active: bool)
        ensures
            final(self).spec_interrupt_active(interrupt.spec_number()) == active,
            forall|other: u32|
                other < 96 && other != interrupt.spec_number() ==> final(self).spec_interrupt_active(other) == old(self).spec_interrupt_active(other),
            old(self).same_except_active(*final(self)),
    {
        proof {
            lemma_irq_number_in_class(interrupt);
        }
        let id = interrupt.as_u32();
        let solved = SolvedAddressOffset::solve(id, InterruptsPerAddress::Count32);
        let word = self.interrupt_active[solved.offset_register];
        let updated = if active {
            word.set_bit(solved.offset_bit)
        } else {
            word.clear_bit(solved.offset_bit)
        };
        self.interrupt_active[solved.offset_register] = updated;
        proof {
            if active {
                lemma_u32_set_bit_reads(word, id % 32, id % 32);
            } else {
                lemma_u32_clear_bit_reads(word, id % 32, id % 32);
            }
            assert forall|other: u32|
                other < 96 && other != interrupt.spec_number() implies self.spec_interrupt_active(other) == old(
                self,
            ).spec_interrupt_active(other) by {
                if other / 32 == id / 32 {
                    if active {
                        lemma_u32_set_bit_reads(word, id % 32, other % 32);
                    } else {
                        lemma_u32_clear_bit_reads(word, id % 32, other % 32);
                    }
                }
            }
        }
    }

    /// Set an interrupt's priority.
    pub fn set_interrupt_priority(&mut self, interrupt: Irq, priority: InterruptPriority)
        ensures
            final(self).spec_priority_level(interrupt.spec_number()) == priority.spec_level(),
            final(self).spec_priority_byte(interrupt.spec_number()) == priority.spec_byte(),
            forall|other: u32|
                other < 96 && other != interrupt.spec_number() ==> final(self).spec_priority_byte(
                    other,
                ) == old(self).spec_priority_byte(other) && final(self).spec_priority_level(other)
                    == old(self).spec_priority_level(other),
            old(self).same_except_priority(*final(self)),
    {
        proof {
            lemma_irq_number_in_class(interrupt);
            lemma_u32_mask_values();
        }
        let id = interrupt.as_u32();
        let solved = SolvedAddressOffset::solve(id, InterruptsPerAddress::Count4);
        let word = self.interrupt_priority[solved.offset_register];
        let field = priority.as_u8() as u32;
        let updated = word.write_bits(solved.offset_bit, field, 8);
        self.interrupt_priority[solved.offset_register] = updated;
        proof {
            lemma_u32_five_bit_field(word, solved.offset_bit, priority.spec_level());
            lemma_u32_write_bits_reads_inside(word, solved.offset_bit, field, 8);
            assert forall|other: u32|
                other < 96 && other != interrupt.spec_number() implies self.spec_priority_byte(
                other,
            ) == old(self).spec_priority_byte(other) && self.spec_priority_level(other) == old(
                self,
            ).spec_priority_level(other) by {
                if other / 4 == id / 4 {
                    lemma_u32_write_bits_reads_outside(
                        word,
                        ((id % 4) * 8) as u32,
                        field,
                        8,
                        ((other % 4) * 8) as u32,
                        ((other % 4) * 8 + 7) as u32,
                    );
                    lemma_u32_write_bits_reads_outside(
                        word,
                        ((id % 4) * 8) as u32,
                        field,
                        8,
                        ((other % 4) * 8 + 3) as u32,
                        ((other % 4) * 8 + 7) as u32,
                    );
                }
            }
        }
    }

    /// Read an interrupt's priority.
    pub fn read_interrupt_priority(&self, interrupt: Irq) -> (result: InterruptPriority)
        ensures
            result.spec_level() == self.spec_priority_level(interrupt.spec_number()),
    {
        proof {
            lemma_irq_number_in_class(interrupt);
        }
        let id = interrupt.as_u32();
        let solved = SolvedAddressOffset::solve(id, InterruptsPerAddress::Count4);
        let word = self.interrupt_priority[solved.offset_register];
        let level = word.read_bits(
            core::ops::RangeInclusive::new(solved.offset_bit + 3, solved.offset_bit + 7),
        );
        proof {
            lemma_u32_read_bits_bound(word, (solved.offset_bit + 3) as u32, (solved.offset_bit + 7) as u32);
            lemma_u32_mask_values();
        }
        InterruptPriority::from_u8((level * 8) as u8)
    }

    /// Read an interrupt's full 8-bit priority field, as the CPU interface
    /// compares it against the priority mask.
    pub(crate) fn read_interrupt_priority_byte(&self, interrupt: Irq) -> (result: u32)
        ensures
            result == self.spec_priority_byte(interrupt.spec_number()),
            result <= 0xFF,
    {
        proof {
            lemma_irq_number_in_class(interrupt);
        }
        let id = interrupt.as_u32();
        let solved = SolvedAddressOffset::solve(id, InterruptsPerAddress::Count4);
        let word = self.interrupt_priority[solved.offset_register];
        let byte = word.read_bits(
            core::ops::RangeInclusive::new(solved.offset_bit, solved.offset_bit + 7),
        );
        proof {
            lemma_u32_read_bits_bound(word, solved.offset_bit, (solved.offset_bit + 7) as u32);
            lemma_u32_mask_values();
        }
        byte
    }

    /// Write an interrupt's 8-bit CPU target lane: the two-bit target field
    /// in its low bits, the reserved upper bits cleared.
    fn set_interrupt_targets(&mut self, interrupt: Irq, targets: InterruptTargets)
        ensures
            final(self).spec_targets(interrupt.spec_number()) == targets.spec_value(),
            final(self).spec_targets_lane(interrupt.spec_number()) == targets.spec_value(),
            forall|other: u32|
                other < 96 && other != interrupt.spec_number() ==> final(self).spec_targets(other)
                    == old(self).spec_targets(other) && final(self).spec_targets_lane(other) == old(
                    self,
                ).spec_targets_lane(other),
            old(self).same_except_targets(*final(self)),
    {
        proof {
            lemma_irq_number_in_class(interrupt);
            lemma_u32_mask_values();
        }
        let id = interrupt.as_u32();
        let solved = SolvedAddressOffset::solve(id, InterruptsPerAddress::Count4);
        let word = self.interrupt_processor_targets[solved.offset_register];
        let field = targets.as_u32();
        let updated = word.write_bits(solved.offset_bit, field, 8);
        self.interrupt_processor_targets[solved.offset_register] = updated;
        proof {
            lemma_u32_two_bit_field(word, solved.offset_bit, targets.spec_value());
            lemma_u32_write_bits_reads_inside(word, solved.offset_bit, field, 8);
            assert forall|other: u32|
                other < 96 && other != interrupt.spec_number() implies self.spec_targets(other)
                == old(self).spec_targets(other) && self.spec_targets_lane(other) == old(
                self,
            ).spec_targets_lane(other) by {
                if other / 4 == id / 4 {
                    lemma_u32_write_bits_reads_outside(
                        word,
                        ((id % 4) * 8) as u32,
                        field,
                        8,
                        ((other % 4) * 8) as u32,
                        ((other % 4) * 8 + 1) as u32,
                    );
                    lemma_u32_write_bits_reads_outside(
                        word,
                        ((id % 4) * 8) as u32,
                        field,
                        8,
                        ((other % 4) * 8) as u32,
                        ((other % 4) * 8 + 7) as u32,
                    );
                }
            }
        }
    }

    /// Select which CPU handles a given software-generated interrupt.
    pub fn set_software_generated_interrupt_targets(
        &mut self,
        sgi: SgiIrq,
        targets: InterruptTargets,
    )
        ensures
            final(self).spec_targets(sgi.spec_number()) == targets.spec_value(),
            final(self).spec_targets_lane(sgi.spec_number()) == targets.spec_value(),
            forall|other: u32|
                other < 96 && other != sgi.spec_number() ==> final(self).spec_targets(other)
                    == old(self).spec_targets(other) && final(self).spec_targets_lane(other) == old(
                    self,
                ).spec_targets_lane(other),
            old(self).same_except_targets(*final(self)),
    {
        self.set_interrupt_targets(Irq::Sgi(sgi), targets);
    }

    /// Select which CPU handles a given shared peripheral interrupt.
    pub fn set_shared_peripheral_interrupt_targets(
        &mut self,
        spi: SpiIrq,
        targets: InterruptTargets,
    )
        ensures
            final(self).spec_targets(spi.spec_number()) == targets.spec_value(),
            final(self).spec_targets_lane(spi.spec_number()) == targets.spec_value(),
            forall|other: u32|
                other < 96 && other != spi.spec_number() ==> final(self).spec_targets(other)
                    == old(self).spec_targets(other) && final(self).spec_targets_lane(other) == old(
                    self,
                ).spec_targets_lane(other),
            old(self).same_except_targets(*final(self)),
    {
        self.set_interrupt_targets(Irq::Spi(spi), targets);
    }

    /// Read which CPU handles a given interrupt.
    pub fn read_interrupt_targets(&self, interrupt: Irq) -> (result: InterruptTargets)
        ensures
            result.spec_value() == self.spec_targets(interrupt.spec_number()),
    {
        proof {
            lemma_irq_number_in_class(interrupt);
        }
        let id = interrupt.as_u32();
        let solved = SolvedAddressOffset::solve(id, InterruptsPerAddress::Count4);
        let word = self.interrupt_processor_targets[solved.offset_register];
        let field = word.read_bits(
            core::ops::RangeInclusive::new(solved.offset_bit, solved.offset_bit + 1),
        );
        proof {
            lemma_u32_read_bits_bound(word, solved.offset_bit, (solved.offset_bit + 1) as u32);
            lemma_u32_mask_values();
        }
        InterruptTargets::from_u32(field)
    }

    /// Configure how a shared peripheral interrupt is sensed.
    ///
    /// The corresponding interrupt should be disabled before calling; the
    /// hardware does not enforce that ordering and neither does this model,
    /// so it stays the caller's responsibility.  Software-generated
    /// interrupts are fixed to edge sensitivity and private peripheral
    /// interrupts have fixed sensitivity, so only shared peripheral
    /// interrupts can be configured.
    pub fn set_shared_peripheral_interrupt_sensitivity(
        &mut self,
        spi: SpiIrq,
        sensitivity: InterruptSensitivity,
    ) -> (result: Result<(), ()>)
        ensures
            result is Ok,
            final(self).spec_sensitivity_edge(spi.spec_number()) == sensitivity.spec_bool(),
            forall|other: u32|
                other < 96 && other != spi.spec_number() ==> final(self).spec_sensitivity_edge(other) == old(self).spec_sensitivity_edge(other),
            forall|other: u32|
                other < 96 ==> final(self).spec_handling_model_one_n(other) == old(
                    self,
                ).spec_handling_model_one_n(other),
            final(self).interrupt_configuration == vstd::array::spec_array_update(
                old(self).interrupt_configuration,
                spec_solve_register(spi.spec_number(), InterruptsPerAddress::Count16) as int,
                if sensitivity.spec_bool() {
                    u32_set_bit(
                        old(self).interrupt_configuration[spec_solve_register(
                            spi.spec_number(),
                            InterruptsPerAddress::Count16,
                        ) as int],
                        (spec_solve_bit(spi.spec_number(), InterruptsPerAddress::Count16)
                            + 1) as u32,
                    )
                } else {
                    u32_clear_bit(
                        old(self).interrupt_configuration[spec_solve_register(
                            spi.spec_number(),
                            InterruptsPerAddress::Count16,
                        ) as int],
                        (spec_solve_bit(spi.spec_number(), InterruptsPerAddress::Count16)
                            + 1) as u32,
                    )
                },
            ),
            old(self).same_except_configuration(*final(self)),
    {
        proof {
            lemma_irq_number_in_class(Irq::Spi(spi));
        }
        let id = spi.as_u32();
        let solved = SolvedAddressOffset::solve(id, InterruptsPerAddress::Count16);
        let word = self.interrupt_configuration[solved.offset_register];
        let updated = if sensitivity.as_bool() {
            word.set_bit(solved.offset_bit + 1)
        } else {
            word.clear_bit(solved.offset_bit + 1)
        };
        self.interrupt_configuration[solved.offset_register] = updated;
        proof {
            let bit = (solved.offset_bit + 1) as u32;
            if sensitivity.spec_bool() {
                lemma_u32_set_bit_reads(word, bit, bit);
            } else {
                lemma_u32_clear_bit_reads(word, bit, bit);
            }
            assert forall|other: u32|
                other < 96 && other != spi.spec_number() implies self.spec_sensitivity_edge(other)
                == old(self).spec_sensitivity_edge(other) by {
                if other / 16 == id / 16 {
                    if sensitivity.spec_bool() {
                        lemma_u32_set_bit_reads(word, bit, ((other % 16) * 2 + 1) as u32);
                    } else {
                        lemma_u32_clear_bit_reads(word, bit, ((other % 16) * 2 + 1) as u32);
                    }
                }
            }
            assert forall|other: u32|
                other < 96 implies self.spec_handling_model_one_n(other) == old(
                self,
            ).spec_handling_model_one_n(other) by {
                if other / 16 == id / 16 {
                    if sensitivity.spec_bool() {
                        lemma_u32_set_bit_reads(word, bit, ((other % 16) * 2) as u32);
                    } else {
                        lemma_u32_clear_bit_reads(word, bit, ((other % 16) * 2) as u32);
                    }
                }
            }
        }
        Ok(())
    }

    /// Configure the handling model of an interrupt: the even bit of its
    /// two-bit configuration pair.  The corresponding interrupt should be
    /// disabled before calling; that ordering stays the caller's
    /// responsibility.
    pub fn toggle_interrupt_handling_model(
        &mut self,
        interrupt: Irq,
        model: InterruptHandlingModel,
    )
        ensures
            final(self).spec_handling_model_one_n(interrupt.spec_number()) == model.spec_bool(),
            forall|other: u32|
                other < 96 && other != interrupt.spec_number() ==> final(self).spec_handling_model_one_n(other) == old(self).spec_handling_model_one_n(other),
            forall|other: u32|
                other < 96 ==> final(self).spec_sensitivity_edge(other) == old(
                    self,
                ).spec_sensitivity_edge(other),
            old(self).same_except_configuration(*final(self)),
    {
        proof {
            lemma_irq_number_in_class(interrupt);
        }
        let id = interrupt.as_u32();
        let solved = SolvedAddressOffset::solve(id, InterruptsPerAddress::Count16);
        let word = self.interrupt_configuration[solved.offset_register];
        let updated = if model.as_bool() {
            word.set_bit(solved.offset_bit)
        } else {
            word.clear_bit(solved.offset_bit)
        };
        self.interrupt_configuration[solved.offset_register] = updated;
        proof {
            let bit = solved.offset_bit;
            if model.spec_bool() {
                lemma_u32_set_bit_reads(word, bit, bit);
            } else {
                lemma_u32_clear_bit_reads(word, bit, bit);
            }
            assert forall|other: u32|
                other < 96 && other != interrupt.spec_number() implies self.spec_handling_model_one_n(
                other,
            ) == old(self).spec_handling_model_one_n(other) by {
                if other / 16 == id / 16 {
                    if model.spec_bool() {
                        lemma_u32_set_bit_reads(word, bit, ((other % 16) * 2) as u32);
                    } else {
                        lemma_u32_clear_bit_reads(word, bit, ((other % 16) * 2) as u32);
                    }
                }
            }
            assert forall|other: u32|
                other < 96 implies self.spec_sensitivity_edge(other) == old(
                self,
            ).spec_sensitivity_edge(other) by {
                if other / 16 == id / 16 {
                    if model.spec_bool() {
                        lemma_u32_set_bit_reads(word, bit, ((other % 16) * 2 + 1) as u32);
                    } else {
                        lemma_u32_clear_bit_reads(word, bit, ((other % 16) * 2 + 1) as u32);
                    }
                }
            }
        }
    }

    /// Issue a software-generated interrupt: one register write encoding the
    /// interrupt id, the secure-access flag, the CPU target list and the
    /// target list filter.
    pub fn generate_software_interrupt(
        &mut self,
        sgi: SgiIrq,
        satt: bool,
        cpu_target_list: u8,
        target_list_filter: TargetListFilter,
    )
        ensures
            u32_read_bits(final(self).software_generated_interrupt, 0, 3) == sgi.spec_number(),
            u32_bit(final(self).software_generated_interrupt, 15) == satt,
            u32_read_bits(final(self).software_generated_interrupt, 16, 23) == cpu_target_list,
            u32_read_bits(final(self).software_generated_interrupt, 24, 25)
                == target_list_filter.spec_value(),
            forall|bit: u32|
                (4 <= bit <= 14 || 26 <= bit < 32) ==> u32_bit(
                    final(self).software_generated_interrupt,
                    bit,
                ) == u32_bit(old(self).software_generated_interrupt, bit),
            old(self).same_except_sgi_register(*final(self)),
    {
        proof {
            lemma_u32_mask_values();
        }
        let step_id = self.software_generated_interrupt.write_bits(0, sgi.as_u32(), 4);
        let step_satt = if satt {
            step_id.set_bit(15)
        } else {
            step_id.clear_bit(15)
        };
        let step_targets = step_satt.write_bits(16, cpu_target_list as u32, 8);
        let step_filter = step_targets.write_bits(24, target_list_filter.as_u32(), 2);
        self.software_generated_interrupt = step_filter;
        proof {
            lemma_u32_write_bits_reads_inside(
                old(self).software_generated_interrupt,
                0,
                sgi.spec_number(),
                4,
            );
            if satt {
                lemma_u32_set_bit_reads(step_id, 15, 15);
            } else {
                lemma_u32_clear_bit_reads(step_id, 15, 15);
            }
            lemma_u32_bit_writes_read_bits_outside(step_id, 15, 0, 3);
            lemma_u32_write_bits_reads_inside(step_satt, 16, cpu_target_list as u32, 8);
            lemma_u32_write_bits_reads_outside(step_satt, 16, cpu_target_list as u32, 8, 0, 3);
            lemma_u32_write_bits_bit_outside(step_satt, 16, cpu_target_list as u32, 8, 15);
            lemma_u32_write_bits_reads_inside(
                step_targets,
                24,
                target_list_filter.spec_value(),
                2,
            );
            lemma_u32_write_bits_reads_outside(
                step_targets,
                24,
                target_list_filter.spec_value(),
                2,
                0,
                3,
            );
            lemma_u32_write_bits_reads_outside(
                step_targets,
                24,
                target_list_filter.spec_value(),
                2,
                16,
                23,
            );
            lemma_u32_write_bits_bit_outside(
                step_targets,
                24,
                target_list_filter.spec_value(),
                2,
                15,
            );
            assert forall|bit: u32| (4 <= bit <= 14 || 26 <= bit < 32) implies u32_bit(
                self.software_generated_interrupt,
                bit,
            ) == u32_bit(old(self).software_generated_interrupt, bit) by {
                lemma_u32_write_bits_bit_outside(
                    old(self).software_generated_interrupt,
                    0,
                    sgi.spec_number(),
                    4,
                    bit,
                );
                if satt {
                    lemma_u32_set_bit_reads(step_id, 15, bit);
                } else {
                    lemma_u32_clear_bit_reads(step_id, 15, bit);
                }
                lemma_u32_write_bits_bit_outside(step_satt, 16, cpu_target_list as u32, 8, bit);
                lemma_u32_write_bits_bit_outside(
                    step_targets,
                    24,
                    target_list_filter.spec_value(),
                    2,
                    bit,
                );
            }
        }
    }

    /// Read the revision field for the interrupt controller architecture.
    pub fn read_architecture_revision(&self) -> (result: u32)
        ensures
            result == self.spec_architecture_revision(),
            result <= 15,
    {
        let revision = self.peripheral_id2.read_bits(core::ops::RangeInclusive::new(4u32, 7u32));
        proof {
            lemma_u32_read_bits_bound(self.peripheral_id2, 4, 7);
            lemma_u32_mask_values();
        }
        revision
    }

    /// Bulk-initialise the sensitivity configuration.
    ///
    /// Resets every shared-peripheral configuration register to
    /// level-sensitive with the one-to-N model bit of every pair high, then
    /// configures the fixed minority of edge-triggered shared interrupts.
    /// The registers covering the software-generated and private-peripheral
    /// banks hold hardware-fixed sensitivities and are left untouched.
    pub fn configure_sensitivities(&mut self)
        ensures
            *final(self) == spec_default_sensitivities(*old(self)),
    {
        self.interrupt_configuration[2] = 0x5555_5555;
        self.interrupt_configuration[3] = 0x5555_5555;
        self.interrupt_configuration[4] = 0x5555_5555;
        self.interrupt_configuration[5] = 0x5555_5555;
        let _ = self.set_shared_peripheral_interrupt_sensitivity(
            SpiIrq::Cpu0,
            InterruptSensitivity::Edge,
        );
        let _ = self.set_shared_peripheral_interrupt_sensitivity(
            SpiIrq::Cpu1,
            InterruptSensitivity::Edge,
        );
        let _ = self.set_shared_peripheral_interrupt_sensitivity(
            SpiIrq::Swdt,
            InterruptSensitivity::Edge,
        );
        let _ = self.set_shared_peripheral_interrupt_sensitivity(
            SpiIrq::Ethernet0Wakeup,
            InterruptSensitivity::Edge,
        );
        let _ = self.set_shared_peripheral_interrupt_sensitivity(
            SpiIrq::Ethernet1Wakeup,
            InterruptSensitivity::Edge,
        );
        let _ = self.set_shared_peripheral_interrupt_sensitivity(
            SpiIrq::Parity,
            InterruptSensitivity::Edge,
        );
        proof {
            let target = spec_default_sensitivities(*old(self));
            assert(self.interrupt_configuration@ =~= target.interrupt_configuration@);
            assert(self.interrupt_configuration == target.interrupt_configuration);
        }
    }
}

} // verus!
