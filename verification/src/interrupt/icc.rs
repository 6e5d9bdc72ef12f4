//! CPU interrupt interface.
//!
//! The interface gates which routed interrupts reach its core and exposes
//! the acknowledge/complete protocol: acknowledging picks the most urgent
//! signaled interrupt and turns it from pending to active in the
//! distributor, and completing with the same acknowledge record turns it
//! back to inactive.  The model serves the interface of core 0, so routing
//! is judged against CPU 0's target bit and the requester id of an
//! acknowledged software-generated interrupt reads as core 0.

use vstd::prelude::*;

use crate::common::bitman::ClearBitwise;
use crate::common::bitman::ReadBitwise;
use crate::common::bitman::ReadBitwiseRange;
use crate::common::bitman::SetBitwise;
use crate::common::bitman::WriteBitwise;
use crate::common::bitman::lemma_u32_clear_bit_reads;
use crate::common::bitman::lemma_u32_mask_values;
use crate::common::bitman::lemma_u32_read_bits_bound;
use crate::common::bitman::lemma_u32_set_bit_reads;
use crate::common::bitman::lemma_u32_write_bits_reads_inside;
use crate::common::bitman::u32_bit;
use crate::common::bitman::u32_clear_bit;
use crate::common::bitman::u32_read_bits;
use crate::common::bitman::u32_set_bit;
use crate::common::bitman::u32_write_bits;

use super::InterruptPriority;
use super::gic::Gic;
use super::irq_numbers::Irq;
use super::irq_numbers::PpiIrq;
use super::irq_numbers::SgiIrq;
use super::irq_numbers::SpiIrq;
use super::irq_numbers::irq_number_ok;
use super::irq_numbers::lemma_irq_number_in_class;
use super::irq_numbers::sgi_number_ok;
use super::irq_numbers::spi_number_ok;

verus! {

/// True if a priority mask set to `mask_byte` lets an interrupt whose
/// priority field holds `priority_byte` through: only strictly more urgent
/// (numerically smaller) priorities pass.
pub open spec fn spec_filter_admits(mask_byte: u32, priority_byte: u32) -> bool {
    priority_byte < mask_byte
}

/// Which interrupt priorities are handled.
#[derive(Clone, Copy, Debug, PartialEq, Eq, Structural)]
pub enum InterruptPriorityFilter {
    /// Do not handle any interrupt.
    AllowNone,
    /// Handle interrupts down to the given priority.
    AllowSome { lowest_allowed: InterruptPriority },
    /// Handle all interrupts.
    AllowAll,
}

impl InterruptPriorityFilter {
    /// The priority-mask byte that encodes the filter.  Since the mask
    /// passes only strictly more urgent priorities, the bound of
    /// `AllowSome` is encoded as its own byte plus one.
    pub open spec fn spec_byte(self) -> u8 {
        match self {
            Self::AllowNone => 0,
            Self::AllowSome { lowest_allowed } => (lowest_allowed.spec_byte() + 1) as u8,
            Self::AllowAll => 0xFF,
        }
    }

    /// The priority-mask byte that encodes the filter.
    pub fn as_u8(self) -> (result: u8)
        ensures
            result == self.spec_byte(),
    {
        match self {
            Self::AllowNone => 0,
            Self::AllowSome { lowest_allowed } => {
                proof {
                    lemma_priority_filter_monotone(lowest_allowed, lowest_allowed);
                }
                lowest_allowed.as_u8() + 1
            },
            Self::AllowAll => 0xFF,
        }
    }
}

/// The filter is monotone in urgency: `AllowSome` admits its bound and
/// every more urgent (numerically smaller) priority and rejects every less
/// urgent one; `AllowAll` admits even the least urgent priority; and
/// `AllowNone` admits nothing.
pub proof fn lemma_priority_filter_monotone(
    lowest: InterruptPriority,
    candidate: InterruptPriority,
)
    ensures
        lowest.spec_level() <= 31,
        candidate.spec_level() <= 31,
        spec_filter_admits(
            InterruptPriorityFilter::AllowSome { lowest_allowed: lowest }.spec_byte() as u32,
            candidate.spec_byte() as u32,
        ) <==> candidate.spec_level() <= lowest.spec_level(),
        spec_filter_admits(
            InterruptPriorityFilter::AllowAll.spec_byte() as u32,
            candidate.spec_byte() as u32,
        ),
        !spec_filter_admits(
            InterruptPriorityFilter::AllowNone.spec_byte() as u32,
            candidate.spec_byte() as u32,
        ),
{
}

/// Information provided by the distributor when acknowledging an interrupt.
///
/// The raw acknowledge value pairs the interrupt id with, for
/// software-generated interrupts, the requesting core's id; completion must
/// be given the same record, because the hardware pairs acknowledge and
/// complete by the full value.
#[derive(Clone, Copy, Debug, PartialEq, Eq, Structural)]
pub enum InterruptAcknowledge {
    Sgi {
        /// Interrupt identifier.
        sgi: SgiIrq,
        /// Identifier of the CPU that requested the interrupt.
        cpu_id: u32,
    },
    Ppi {
        /// Interrupt identifier.
        ppi: PpiIrq,
    },
    Spi {
        /// Interrupt identifier.
        spi: SpiIrq,
    },
}

impl InterruptAcknowledge {
    /// The acknowledged interrupt source.
    pub open spec fn spec_irq(self) -> Irq {
        match self {
            Self::Sgi { sgi, .. } => Irq::Sgi(sgi),
            Self::Ppi { ppi } => Irq::Ppi(ppi),
            Self::Spi { spi } => Irq::Spi(spi),
        }
    }

    /// The flat numeric id of the acknowledged interrupt.
    pub open spec fn spec_number(self) -> u32 {
        self.spec_irq().spec_number()
    }

    /// A requester id fits in the raw value's three-bit CPU field.
    pub open spec fn spec_wf(self) -> bool {
        match self {
            Self::Sgi { cpu_id, .. } => cpu_id < 8,
            _ => true,
        }
    }

    /// The raw 32-bit acknowledge value: the interrupt id in bits 0 to 9
    /// and, for a software-generated interrupt, the requesting CPU's id in
    /// bits 10 to 12.
    pub open spec fn spec_raw(self) -> u32 {
        match self {
            Self::Sgi { sgi, cpu_id } => (sgi.spec_number() + cpu_id * 0x400) as u32,
            Self::Ppi { ppi } => ppi.spec_number(),
            Self::Spi { spi } => spi.spec_number(),
        }
    }

    /// Decode a raw acknowledge value.
    pub fn from_u32(value: u32) -> (result: Self)
        requires
            irq_number_ok(u32_read_bits(value, 0, 9)),
        ensures
            result.spec_number() == u32_read_bits(value, 0, 9),
            result matches InterruptAcknowledge::Sgi { cpu_id, .. } ==> cpu_id == u32_read_bits(
                value,
                10,
                12,
            ),
            result is Sgi <==> sgi_number_ok(u32_read_bits(value, 0, 9)),
            result.spec_wf(),
    {
        let interrupt_id = value.read_bits(core::ops::RangeInclusive::new(0u32, 9u32));
        match Irq::from_u32(interrupt_id) {
            Irq::Sgi(sgi) => {
                // Solve which processor requested this interrupt.
                let cpu_id = value.read_bits(core::ops::RangeInclusive::new(10u32, 12u32));
                proof {
                    lemma_u32_read_bits_bound(value, 10, 12);
                    lemma_u32_mask_values();
                }
                Self::Sgi { sgi, cpu_id }
            },
            Irq::Ppi(ppi) => Self::Ppi { ppi },
            Irq::Spi(spi) => Self::Spi { spi },
        }
    }

    /// Encode the raw 32-bit acknowledge value.
    pub fn as_u32(self) -> (result: u32)
        requires
            self.spec_wf(),
        ensures
            result == self.spec_raw(),
    {
        proof {
            lemma_u32_mask_values();
            lemma_irq_number_in_class(self.spec_irq());
        }
        match self {
            Self::Sgi { sgi, cpu_id } => {
                let with_id = 0u32.write_bits(0, sgi.as_u32(), 10);
                let raw = with_id.write_bits(10, cpu_id, 3);
                proof {
                    lemma_ack_encode(sgi.spec_number(), cpu_id);
                }
                raw
            },
            Self::Ppi { ppi } => {
                let raw = 0u32.write_bits(0, ppi.as_u32(), 10);
                proof {
                    lemma_ack_encode(ppi.spec_number(), 0);
                }
                raw
            },
            Self::Spi { spi } => {
                let raw = 0u32.write_bits(0, spi.as_u32(), 10);
                proof {
                    lemma_ack_encode(spi.spec_number(), 0);
                }
                raw
            },
        }
    }
}

/// Writing an interrupt id below 1024 and a CPU id below 8 into the raw
/// acknowledge layout is plain positional arithmetic.
proof fn lemma_ack_encode(id: u32, cpu: u32)
    by (bit_vector)
    requires
        id < 1024,
        cpu < 8,
    ensures
        u32_write_bits(0u32, 0, id, 10) == id,
        u32_write_bits(u32_write_bits(0u32, 0, id, 10), 10, cpu, 3) == (id + cpu * 0x400) as u32,
{
}

/// Decoding the raw acknowledge layout recovers both fields.
proof fn lemma_ack_decode(id: u32, cpu: u32)
    by (bit_vector)
    requires
        id < 1024,
        cpu < 8,
    ensures
        u32_read_bits((id + cpu * 0x400) as u32, 0, 9) == id,
        u32_read_bits((id + cpu * 0x400) as u32, 10, 12) == cpu,
{
}

/// Round trip of the acknowledge encoding: decoding the raw value of any
/// well-formed acknowledge record recovers the interrupt id and, for a
/// software-generated interrupt, the requesting CPU's id, so re-encoding the
/// decoded record reproduces the raw value bit for bit.
pub proof fn lemma_acknowledge_roundtrip(ack: InterruptAcknowledge)
    requires
        ack.spec_wf(),
    ensures
        u32_read_bits(ack.spec_raw(), 0, 9) == ack.spec_number(),
        irq_number_ok(u32_read_bits(ack.spec_raw(), 0, 9)),
        ack matches InterruptAcknowledge::Sgi { cpu_id, .. } ==> u32_read_bits(
            ack.spec_raw(),
            10,
            12,
        ) == cpu_id,
{
    lemma_irq_number_in_class(ack.spec_irq());
    match ack {
        InterruptAcknowledge::Sgi { sgi, cpu_id } => {
            lemma_ack_decode(sgi.spec_number(), cpu_id);
        },
        InterruptAcknowledge::Ppi { ppi } => {
            lemma_ack_decode(ppi.spec_number(), 0);
        },
        InterruptAcknowledge::Spi { spi } => {
            lemma_ack_decode(spi.spec_number(), 0);
        },
    }
}

/// True if the distributor signals interrupt `id` to this CPU interface:
/// both blocks are enabled, the interrupt is enabled and pending, its
/// priority passes the interface's mask, and a shared peripheral interrupt
/// is routed to this core (CPU 0).
pub open spec fn spec_signaled(distributor: Gic, interface: Icc, id: u32) -> bool {
    &&& irq_number_ok(id)
    &&& distributor.spec_enabled()
    &&& interface.spec_enabled()
    &&& distributor.spec_interrupt_enabled(id)
    &&& distributor.spec_interrupt_pending(id)
    &&& spec_filter_admits(interface.spec_priority_mask(), distributor.spec_priority_byte(id))
    &&& (spi_number_ok(id) ==> distributor.spec_targets(id) % 2 == 1)
}

/// True if signaled interrupt `chosen` is served no later than signaled
/// interrupt `other`: it has a more urgent priority byte, or the same
/// priority byte and an id that is not larger.
pub open spec fn spec_takes_precedence(distributor: Gic, chosen: u32, other: u32) -> bool {
    ||| distributor.spec_priority_byte(chosen) < distributor.spec_priority_byte(other)
    ||| (distributor.spec_priority_byte(chosen) == distributor.spec_priority_byte(other) && chosen
        <= other)
}

/// CPU interrupt interface.
///
/// The interface is responsible for signaling interrupts to its CPU.  The
/// struct owns the interface's register state; the read-once acknowledge
/// register is not stored but computed from the distributor's live state,
/// which is what the hardware does.  On this chip the register block sits
/// at base address 0xF8F0_0100, with control at 0x00, the priority mask at
/// 0x04, the binary point at 0x08, acknowledge at 0x0C, end-of-interrupt
/// at 0x10, running priority at 0x14, highest pending at 0x18, the aliased
/// non-secure binary point at 0x1C and identification at 0xFC.
pub struct Icc {
    /// Interface control register; bits 0 and 1 enable secure and
    /// non-secure interrupt signaling.
    pub interface_control: u32,
    /// Interrupt priority mask register; bits 0 to 7 hold the mask.
    pub interrupt_priority_mask: u32,
    /// Binary point register; bits 0 to 2 split priority into group and
    /// subpriority.
    pub binary_point: u32,
    /// End-of-interrupt register; holds the last completed raw value.
    pub end_of_interrupt: u32,
    /// Running priority register; bits 0 to 7 hold the priority of the
    /// highest-priority active interrupt.
    pub running_priority: u32,
    /// Highest pending interrupt register, as last overridden.
    pub highest_pending_interrupt: u32,
    /// Aliased non-secure binary point register.
    pub aliased_non_secure_binary_point: u32,
    /// Implementer identification register.
    pub implementer_identification: u32,
}

impl Icc {
    /// True if both the secure and the non-secure enable bits are high.
    pub open spec fn spec_enabled(self) -> bool {
        u32_bit(self.interface_control, 0) && u32_bit(self.interface_control, 1)
    }

    /// The priority mask byte.
    pub open spec fn spec_priority_mask(self) -> u32 {
        u32_read_bits(self.interrupt_priority_mask, 0, 7)
    }

    /// The binary point field.
    pub open spec fn spec_binary_point(self) -> u32 {
        u32_read_bits(self.binary_point, 0, 2)
    }

    /// The aliased non-secure binary point field.
    pub open spec fn spec_non_secure_binary_point(self) -> u32 {
        u32_read_bits(self.aliased_non_secure_binary_point, 0, 2)
    }

    /// The running priority's 5 significant bits.
    pub open spec fn spec_running_priority_level(self) -> u32 {
        u32_read_bits(self.running_priority, 3, 7)
    }

    /// True if `other` matches `self` on every field but the interface
    /// control register.
    pub open spec fn same_except_control(self, other: Icc) -> bool {
        &&& self.interrupt_priority_mask == other.interrupt_priority_mask
        &&& self.binary_point == other.binary_point
        &&& self.end_of_interrupt == other.end_of_interrupt
        &&& self.running_priority == other.running_priority
        &&& self.highest_pending_interrupt == other.highest_pending_interrupt
        &&& self.aliased_non_secure_binary_point == other.aliased_non_secure_binary_point
        &&& self.implementer_identification == other.implementer_identification
    }

    /// True if `other` matches `self` on every field but the priority mask
    /// register.
    pub open spec fn same_except_priority_mask(self, other: Icc) -> bool {
        &&& self.interface_control == other.interface_control
        &&& self.binary_point == other.binary_point
        &&& self.end_of_interrupt == other.end_of_interrupt
        &&& self.running_priority == other.running_priority
        &&& self.highest_pending_interrupt == other.highest_pending_interrupt
        &&& self.aliased_non_secure_binary_point == other.aliased_non_secure_binary_point
        &&& self.implementer_identification == other.implementer_identification
    }

    /// True if `other` matches `self` on every field but the binary point
    /// register.
    pub open spec fn same_except_binary_point(self, other: Icc) -> bool {
        &&& self.interface_control == other.interface_control
        &&& self.interrupt_priority_mask == other.interrupt_priority_mask
        &&& self.end_of_interrupt == other.end_of_interrupt
        &&& self.running_priority == other.running_priority
        &&& self.highest_pending_interrupt == other.highest_pending_interrupt
        &&& self.aliased_non_secure_binary_point == other.aliased_non_secure_binary_point
        &&& self.implementer_identification == other.implementer_identification
    }

    /// True if `other` matches `self` on every field but the
    /// end-of-interrupt register.
    pub open spec fn same_except_end_of_interrupt(self, other: Icc) -> bool {
        &&& self.interface_control == other.interface_control
        &&& self.interrupt_priority_mask == other.interrupt_priority_mask
        &&& self.binary_point == other.binary_point
        &&& self.running_priority == other.running_priority
        &&& self.highest_pending_interrupt == other.highest_pending_interrupt
        &&& self.aliased_non_secure_binary_point == other.aliased_non_secure_binary_point
        &&& self.implementer_identification == other.implementer_identification
    }

    /// True if `other` matches `self` on every field but the running
    /// priority register.
    pub open spec fn same_except_running_priority(self, other: Icc) -> bool {
        &&& self.interface_control == other.interface_control
        &&& self.interrupt_priority_mask == other.interrupt_priority_mask
        &&& self.binary_point == other.binary_point
        &&& self.end_of_interrupt == other.end_of_interrupt
        &&& self.highest_pending_interrupt == other.highest_pending_interrupt
        &&& self.aliased_non_secure_binary_point == other.aliased_non_secure_binary_point
        &&& self.implementer_identification == other.implementer_identification
    }

    /// True if `other` matches `self` on every field but the highest
    /// pending interrupt register.
    pub open spec fn same_except_highest_pending(self, other: Icc) -> bool {
        &&& self.interface_control == other.interface_control
        &&& self.interrupt_priority_mask == other.interrupt_priority_mask
        &&& self.binary_point == other.binary_point
        &&& self.end_of_interrupt == other.end_of_interrupt
        &&& self.running_priority == other.running_priority
        &&& self.aliased_non_secure_binary_point == other.aliased_non_secure_binary_point
        &&& self.implementer_identification == other.implementer_identification
    }

    /// True if `other` matches `self` on every field but the aliased
    /// non-secure binary point register.
    pub open spec fn same_except_non_secure_binary_point(self, other: Icc) -> bool {
        &&& self.interface_control == other.interface_control
        &&& self.interrupt_priority_mask == other.interrupt_priority_mask
        &&& self.binary_point == other.binary_point
        &&& self.end_of_interrupt == other.end_of_interrupt
        &&& self.running_priority == other.running_priority
        &&& self.highest_pending_interrupt == other.highest_pending_interrupt
        &&& self.implementer_identification == other.implementer_identification
    }

    /// A CPU interface in its power-on state: signaling disabled, the
    /// priority mask blocking everything, the running priority idle, and
    /// the identification register holding the chip's value.
    pub fn new() -> (result: Icc)
        ensures
            result.interface_control == 0,
            result.interrupt_priority_mask == 0,
            result.binary_point == 0,
            result.end_of_interrupt == 0,
            result.running_priority == 0xF8,
            result.highest_pending_interrupt == 0,
            result.aliased_non_secure_binary_point == 0,
            result.implementer_identification == 0x3901_243B,
            !result.spec_enabled(),
            result.spec_priority_mask() == 0,
            result.spec_binary_point() == 0,
            result.spec_non_secure_binary_point() == 0,
            result.spec_running_priority_level() == 31,
    {
        proof {
            crate::common::bitman::lemma_u32_cleared_register_reads();
            assert(u32_read_bits(0xF8u32, 3, 7) == 31) by (bit_vector);
        }
        Icc {
            interface_control: 0,
            interrupt_priority_mask: 0,
            binary_point: 0,
            end_of_interrupt: 0,
            running_priority: 0xF8,
            highest_pending_interrupt: 0,
            aliased_non_secure_binary_point: 0,
            implementer_identification: 0x3901_243B,
        }
    }

    /// Enable or disable the interface, for secure and non-secure
    /// interrupts alike.
    pub fn toggle(&mut self, enable: bool)
        ensures
            final(self).interface_control == if enable {
                u32_set_bit(u32_set_bit(old(self).interface_control, 0), 1)
            } else {
                u32_clear_bit(u32_clear_bit(old(self).interface_control, 0), 1)
            },
            u32_bit(final(self).interface_control, 0) == enable,
            u32_bit(final(self).interface_control, 1) == enable,
            final(self).spec_enabled() == enable,
            old(self).same_except_control(*final(self)),
    {
        let control = self.interface_control;
        let with_secure = if enable {
            control.set_bit(0)
        } else {
            control.clear_bit(0)
        };
        let with_both = if enable {
            with_secure.set_bit(1)
        } else {
            with_secure.clear_bit(1)
        };
        self.interface_control = with_both;
        proof {
            if enable {
                lemma_u32_set_bit_reads(control, 0, 0);
                lemma_u32_set_bit_reads(with_secure, 1, 0);
                lemma_u32_set_bit_reads(with_secure, 1, 1);
            } else {
                lemma_u32_clear_bit_reads(control, 0, 0);
                lemma_u32_clear_bit_reads(with_secure, 1, 0);
                lemma_u32_clear_bit_reads(with_secure, 1, 1);
            }
        }
    }

    /// Set which interrupt priorities are handled.
    pub fn set_interrupt_priority_filter(&mut self, value: InterruptPriorityFilter)
        ensures
            final(self).spec_priority_mask() == value.spec_byte(),
            final(self).interrupt_priority_mask == u32_write_bits(
                old(self).interrupt_priority_mask,
                0,
                value.spec_byte() as u32,
                8,
            ),
            old(self).same_except_priority_mask(*final(self)),
    {
        proof {
            lemma_u32_mask_values();
        }
        let byte = value.as_u8();
        let mask = self.interrupt_priority_mask;
        self.interrupt_priority_mask = mask.write_bits(0, byte as u32, 8);
        proof {
            lemma_u32_write_bits_reads_inside(mask, 0, byte as u32, 8);
        }
    }

    /// Set the binary point field.
    pub fn set_binary_point(&mut self, value: u8)
        requires
            value < 8,
        ensures
            final(self).spec_binary_point() == value,
            old(self).same_except_binary_point(*final(self)),
    {
        proof {
            lemma_u32_mask_values();
        }
        let register = self.binary_point;
        self.binary_point = register.write_bits(0, value as u32, 3);
        proof {
            lemma_u32_write_bits_reads_inside(register, 0, value as u32, 3);
        }
    }

    /// Get the binary point field.
    pub fn get_binary_point(&self) -> (result: u8)
        ensures
            result == self.spec_binary_point(),
    {
        let field = self.binary_point.read_bits(core::ops::RangeInclusive::new(0u32, 2u32));
        proof {
            lemma_u32_read_bits_bound(self.binary_point, 0, 2);
            lemma_u32_mask_values();
        }
        field as u8
    }

    /// The most urgent interrupt the distributor currently signals to this
    /// interface, if any: the least priority byte, ties broken toward the
    /// smallest interrupt id.
    fn select_signaled(&self, distributor: &Gic) -> (result: Option<Irq>)
        ensures
            result is None ==> forall|id: u32| !spec_signaled(*distributor, *self, id),
            result matches Some(irq) ==> {
                &&& spec_signaled(*distributor, *self, irq.spec_number())
                &&& forall|id: u32|
                    spec_signaled(*distributor, *self, id) ==> spec_takes_precedence(
                        *distributor,
                        irq.spec_number(),
                        id,
                    )
            },
    {
        let mut best: Option<Irq> = None;
        let mut best_byte: u32 = 0;
        let mut id: u32 = 0;
        while id < 93
            invariant
                id <= 93,
                best is None ==> forall|probe: u32|
                    probe < id ==> !spec_signaled(*distributor, *self, probe),
                best matches Some(irq) ==> {
                    &&& irq.spec_number() < id
                    &&& spec_signaled(*distributor, *self, irq.spec_number())
                    &&& best_byte == distributor.spec_priority_byte(irq.spec_number())
                    &&& forall|probe: u32|
                        probe < id && spec_signaled(*distributor, *self, probe)
                            ==> spec_takes_precedence(*distributor, irq.spec_number(), probe)
                },
            decreases 93 - id,
        {
            let valid = id <= 15 || (27 <= id && id <= 31) || (32 <= id && id != 36);
            if valid {
                let candidate = Irq::from_u32(id);
                if self.signaled(distributor, candidate) {
                    let byte = distributor.read_interrupt_priority_byte(candidate);
                    match best {
                        Option::None => {
                            best = Some(candidate);
                            best_byte = byte;
                        },
                        Option::Some(_) => {
                            if byte < best_byte {
                                best = Some(candidate);
                                best_byte = byte;
                            }
                        },
                    }
                }
            }
            id = id + 1;
        }
        best
    }

    /// True if the distributor signals the interrupt to this interface.
    fn signaled(&self, distributor: &Gic, interrupt: Irq) -> (result: bool)
        ensures
            result == spec_signaled(*distributor, *self, interrupt.spec_number()),
    {
        proof {
            lemma_irq_number_in_class(interrupt);
        }
        let distributor_enabled = distributor.distributor_control.read_bit(0);
        let interface_enabled = self.interface_control.read_bit(0)
            && self.interface_control.read_bit(1);
        let enabled = distributor.is_interrupt_enabled(interrupt);
        let pending = distributor.is_interrupt_pending(interrupt);
        let byte = distributor.read_interrupt_priority_byte(interrupt);
        let mask = self.interrupt_priority_mask.read_bits(
            core::ops::RangeInclusive::new(0u32, 7u32),
        );
        let routed = match interrupt {
            Irq::Spi(_) => distributor.read_interrupt_targets(interrupt).as_u32() % 2 == 1,
            _ => true,
        };
        distributor_enabled && interface_enabled && enabled && pending && byte < mask && routed
    }

    /// Accept an interrupt from the distributor.
    ///
    /// Picks the most urgent signaled interrupt, turns it from pending to
    /// active in the distributor (the hardware side effect of reading the
    /// acknowledge register), and returns its acknowledge record.  When
    /// nothing is signaled the read would yield the spurious id, so the
    /// call is rejected and nothing changes.  The raw acknowledge value must
    /// be obtained exactly once per interrupt instance and the very same
    /// record handed to [`Icc::complete_interrupt`].
    pub fn acknowledge_interrupt(&self, distributor: &mut Gic) -> (result: Result<
        InterruptAcknowledge,
        (),
    >)
        ensures
            result is Ok <==> exists|id: u32| spec_signaled(*old(distributor), *self, id),
            result matches Ok(ack) ==> {
                &&& ack.spec_wf()
                &&& (ack matches InterruptAcknowledge::Sgi { cpu_id, .. } ==> cpu_id == 0)
                &&& spec_signaled(*old(distributor), *self, ack.spec_number())
                &&& forall|id: u32|
                    spec_signaled(*old(distributor), *self, id) ==> spec_takes_precedence(
                        *old(distributor),
                        ack.spec_number(),
                        id,
                    )
                &&& !final(distributor).spec_interrupt_pending(ack.spec_number())
                &&& final(distributor).spec_interrupt_active(ack.spec_number())
                &&& forall|other: u32|
                    other < 96 && other != ack.spec_number() ==> final(distributor).spec_interrupt_pending(other) == old(distributor).spec_interrupt_pending(
                        other,
                    ) && final(distributor).spec_interrupt_active(other) == old(
                        distributor,
                    ).spec_interrupt_active(other)
                &&& old(distributor).same_except_pending_and_active(*final(distributor))
            },
            result is Err ==> *final(distributor) == *old(distributor),
    {
        match self.select_signaled(distributor) {
            Option::None => Err(()),
            Option::Some(irq) => {
                distributor.toggle_interrupt_pending(irq, false);
                distributor.set_interrupt_active_state(irq, true);
                let ack = match irq {
                    Irq::Sgi(sgi) => InterruptAcknowledge::Sgi { sgi, cpu_id: 0 },
                    Irq::Ppi(ppi) => InterruptAcknowledge::Ppi { ppi },
                    Irq::Spi(spi) => InterruptAcknowledge::Spi { spi },
                };
                Ok(ack)
            },
        }
    }

    /// Signal to the distributor that interrupt handling is complete.
    ///
    /// Writes the raw value of the acknowledge record, the very value
    /// obtained from [`Icc::acknowledge_interrupt`], to the
    /// end-of-interrupt register, which turns the interrupt from active
    /// back to inactive.
    pub fn complete_interrupt(&mut self, distributor: &mut Gic, value: InterruptAcknowledge)
        requires
            value.spec_wf(),
        ensures
            !final(distributor).spec_interrupt_active(value.spec_number()),
            forall|other: u32|
                other < 96 && other != value.spec_number() ==> final(distributor).spec_interrupt_active(other) == old(distributor).spec_interrupt_active(other),
            old(distributor).same_except_active(*final(distributor)),
            final(self).end_of_interrupt == value.spec_raw(),
            old(self).same_except_end_of_interrupt(*final(self)),
    {
        let raw = value.as_u32();
        self.end_of_interrupt = raw;
        let irq = match value {
            InterruptAcknowledge::Sgi { sgi, .. } => Irq::Sgi(sgi),
            InterruptAcknowledge::Ppi { ppi } => Irq::Ppi(ppi),
            InterruptAcknowledge::Spi { spi } => Irq::Spi(spi),
        };
        distributor.set_interrupt_active_state(irq, false);
    }

    /// Get the priority of the highest-priority interrupt that is active.
    pub fn running_priority(&self) -> (result: InterruptPriority)
        ensures
            result.spec_level() == self.spec_running_priority_level(),
    {
        let level = self.running_priority.read_bits(core::ops::RangeInclusive::new(3u32, 7u32));
        proof {
            lemma_u32_read_bits_bound(self.running_priority, 3, 7);
            lemma_u32_mask_values();
        }
        InterruptPriority::from_u8((level * 8) as u8)
    }

    /// Override the priority of the highest-priority active interrupt.
    pub fn set_running_priority(&mut self, value: InterruptPriority)
        ensures
            final(self).spec_running_priority_level() == value.spec_level(),
            old(self).same_except_running_priority(*final(self)),
    {
        proof {
            lemma_u32_mask_values();
            lemma_priority_filter_monotone(value, value);
        }
        let byte = value.as_u8();
        let register = self.running_priority;
        self.running_priority = register.write_bits(0, byte as u32, 8);
        proof {
            crate::common::bitman::lemma_u32_five_bit_field(register, 0, value.spec_level());
        }
    }

    /// Get the highest pending interrupt the distributor currently signals
    /// to this interface.  Unlike acknowledging, this read has no side
    /// effect.
    pub fn highest_pending_interrupt(&self, distributor: &Gic) -> (result: Result<
        InterruptAcknowledge,
        (),
    >)
        ensures
            result is Ok <==> exists|id: u32| spec_signaled(*distributor, *self, id),
            result matches Ok(ack) ==> {
                &&& ack.spec_wf()
                &&& spec_signaled(*distributor, *self, ack.spec_number())
                &&& forall|id: u32|
                    spec_signaled(*distributor, *self, id) ==> spec_takes_precedence(
                        *distributor,
                        ack.spec_number(),
                        id,
                    )
            },
    {
        match self.select_signaled(distributor) {
            Option::None => Err(()),
            Option::Some(irq) => {
                let ack = match irq {
                    Irq::Sgi(sgi) => InterruptAcknowledge::Sgi { sgi, cpu_id: 0 },
                    Irq::Ppi(ppi) => InterruptAcknowledge::Ppi { ppi },
                    Irq::Spi(spi) => InterruptAcknowledge::Spi { spi },
                };
                Ok(ack)
            },
        }
    }

    /// Override the highest pending interrupt register.
    pub fn set_highest_pending_interrupt(&mut self, iar: InterruptAcknowledge)
        requires
            iar.spec_wf(),
        ensures
            final(self).highest_pending_interrupt == iar.spec_raw(),
            old(self).same_except_highest_pending(*final(self)),
    {
        let raw = iar.as_u32();
        self.highest_pending_interrupt = raw;
    }

    /// Set the aliased non-secure binary point field.
    pub fn set_non_secure_binary_point(&mut self, value: u8)
        requires
            value < 8,
        ensures
            final(self).spec_non_secure_binary_point() == value,
            old(self).same_except_non_secure_binary_point(*final(self)),
    {
        proof {
            lemma_u32_mask_values();
        }
        let register = self.aliased_non_secure_binary_point;
        self.aliased_non_secure_binary_point = register.write_bits(0, value as u32, 3);
        proof {
            lemma_u32_write_bits_reads_inside(register, 0, value as u32, 3);
        }
    }

    /// Get the aliased non-secure binary point field.
    pub fn get_non_secure_binary_point(&self) -> (result: u8)
        ensures
            result == self.spec_non_secure_binary_point(),
    {
        let field = self.aliased_non_secure_binary_point.read_bits(
            core::ops::RangeInclusive::new(0u32, 2u32),
        );
        proof {
            lemma_u32_read_bits_bound(self.aliased_non_secure_binary_point, 0, 2);
            lemma_u32_mask_values();
        }
        field as u8
    }

    /// The implementer field of the identification register.
    pub fn implementer(&self) -> (result: u32)
        ensures
            result == u32_read_bits(self.implementer_identification, 0, 11),
    {
        self.implementer_identification.read_bits(core::ops::RangeInclusive::new(0u32, 11u32))
    }

    /// The revision field of the identification register.
    pub fn revision_number(&self) -> (result: u32)
        ensures
            result == u32_read_bits(self.implementer_identification, 12, 15),
    {
        self.implementer_identification.read_bits(core::ops::RangeInclusive::new(12u32, 15u32))
    }

    /// The architecture version field of the identification register.
    pub fn architecture_version(&self) -> (result: u32)
        ensures
            result == u32_read_bits(self.implementer_identification, 16, 19),
    {
        self.implementer_identification.read_bits(core::ops::RangeInclusive::new(16u32, 19u32))
    }

    /// The part number field of the identification register.
    pub fn part_number(&self) -> (result: u32)
        ensures
            result == u32_read_bits(self.implementer_identification, 20, 31),
    {
        self.implementer_identification.read_bits(core::ops::RangeInclusive::new(20u32, 31u32))
    }
}

} // verus!
