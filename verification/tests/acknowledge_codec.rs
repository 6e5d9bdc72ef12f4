//! Round trip of the acknowledge/complete value encoding.

use pynq_bsp::interrupt::icc::InterruptAcknowledge;
use pynq_bsp::interrupt::irq_numbers::PpiIrq;
use pynq_bsp::interrupt::irq_numbers::SgiIrq;
use pynq_bsp::interrupt::irq_numbers::SpiIrq;

#[test]
fn sgi_acknowledge_roundtrip_is_bit_for_bit() {
    for id in 0..=15u32 {
        for cpu_id in 0..8u32 {
            let sgi = SgiIrq::from_u32(id).unwrap();
            let record = InterruptAcknowledge::Sgi { sgi, cpu_id };
            let raw = record.as_u32();
            assert_eq!(raw, id + cpu_id * 0x400);
            let decoded = InterruptAcknowledge::from_u32(raw);
            assert_eq!(decoded, record);
            assert_eq!(decoded.as_u32(), raw, "re-encoding changed the raw value");
        }
    }
}

#[test]
fn peripheral_acknowledge_roundtrip() {
    let ppi = InterruptAcknowledge::Ppi { ppi: PpiIrq::CpuPrivateTimer };
    assert_eq!(ppi.as_u32(), 29);
    assert_eq!(InterruptAcknowledge::from_u32(29), ppi);

    let spi = InterruptAcknowledge::Spi { spi: SpiIrq::Uart0 };
    assert_eq!(spi.as_u32(), 59);
    assert_eq!(InterruptAcknowledge::from_u32(59), spi);
}

#[test]
fn acknowledge_decode_splits_id_and_requester() {
    let decoded = InterruptAcknowledge::from_u32(3 + 2 * 0x400);
    assert_eq!(decoded, InterruptAcknowledge::Sgi { sgi: SgiIrq::Sgi3, cpu_id: 2 });
    // A peripheral id ignores the CPU field location: the id alone decodes.
    let decoded = InterruptAcknowledge::from_u32(61);
    assert_eq!(decoded, InterruptAcknowledge::Spi { spi: SpiIrq::Pl0 });
}
