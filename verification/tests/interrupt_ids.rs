//! Round trips and rejection of the interrupt identifier classes.

use pynq_bsp::interrupt::irq_numbers::Irq;
use pynq_bsp::interrupt::irq_numbers::PpiIrq;
use pynq_bsp::interrupt::irq_numbers::SgiIrq;
use pynq_bsp::interrupt::irq_numbers::SpiIrq;

fn valid_ids() -> Vec<u32> {
    let mut ids: Vec<u32> = (0..=15).collect();
    ids.extend(27..=31);
    ids.extend((32..=92).filter(|id| *id != 36));
    ids
}

#[test]
fn identifier_roundtrip_covers_every_valid_id() {
    for id in valid_ids() {
        let irq = Irq::from_u32(id);
        assert_eq!(irq.as_u32(), id, "id {id} did not round trip");
    }
}

#[test]
fn identifier_classes_are_disjoint() {
    for id in 0..200u32 {
        let sgi = SgiIrq::from_u32(id).is_ok();
        let ppi = PpiIrq::from_u32(id).is_ok();
        let spi = SpiIrq::from_u32(id).is_ok();
        assert!(
            !(sgi && ppi) && !(sgi && spi) && !(ppi && spi),
            "id {id} decodes in two classes"
        );
    }
}

#[test]
fn identifier_classes_match_their_ranges() {
    for id in 0..200u32 {
        assert_eq!(SgiIrq::from_u32(id).is_ok(), id <= 15);
        assert_eq!(PpiIrq::from_u32(id).is_ok(), (27..=31).contains(&id));
        assert_eq!(SpiIrq::from_u32(id).is_ok(), (32..=92).contains(&id) && id != 36);
    }
}

#[test]
fn invalid_ids_are_rejected_not_defaulted() {
    for id in (16..=26).chain([36, 93, 94, 1023, u32::MAX]) {
        assert_eq!(SgiIrq::from_u32(id), Err(id));
        assert_eq!(PpiIrq::from_u32(id), Err(id));
        assert_eq!(SpiIrq::from_u32(id), Err(id));
    }
}

#[test]
fn class_roundtrip_preserves_the_variant() {
    assert_eq!(SgiIrq::from_u32(SgiIrq::Sgi7.as_u32()), Ok(SgiIrq::Sgi7));
    assert_eq!(PpiIrq::from_u32(PpiIrq::Awdt.as_u32()), Ok(PpiIrq::Awdt));
    assert_eq!(SpiIrq::from_u32(SpiIrq::Pl0.as_u32()), Ok(SpiIrq::Pl0));
    assert_eq!(SpiIrq::Pl0.as_u32(), 61);
    assert_eq!(SpiIrq::Parity.as_u32(), 92);
    assert_eq!(PpiIrq::GlobalTimer.as_u32(), 27);
}
