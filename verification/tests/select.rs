use pcr_select::{Error, PcrSelect, PcrSelectSize, PcrSlot, TpmsPcrSelect, WrapperErrorKind};
use std::convert::TryFrom;

const SIZES: [PcrSelectSize; 4] = [
    PcrSelectSize::OneByte,
    PcrSelectSize::TwoBytes,
    PcrSelectSize::ThreeBytes,
    PcrSelectSize::FourBytes,
];

fn wire(size_of_select: u8, pcr_select: [u8; 4]) -> TpmsPcrSelect {
    TpmsPcrSelect { size_of_select, pcr_select }
}

#[test]
fn new_keeps_size_and_slots() {
    let select = PcrSelect::new(PcrSelectSize::TwoBytes, &[PcrSlot::Slot3, PcrSlot::Slot12]);
    assert_eq!(select.size_of_select(), PcrSelectSize::TwoBytes);
    assert_eq!(select.selected_pcrs(), vec![PcrSlot::Slot3, PcrSlot::Slot12]);
}

#[test]
fn new_collapses_duplicates_and_orders_slots() {
    let select = PcrSelect::new(
        PcrSelectSize::ThreeBytes,
        &[PcrSlot::Slot5, PcrSlot::Slot1, PcrSlot::Slot5, PcrSlot::Slot23, PcrSlot::Slot1],
    );
    assert_eq!(
        select.selected_pcrs(),
        vec![PcrSlot::Slot1, PcrSlot::Slot5, PcrSlot::Slot23]
    );
    let plain = PcrSelect::new(
        PcrSelectSize::ThreeBytes,
        &[PcrSlot::Slot1, PcrSlot::Slot5, PcrSlot::Slot23],
    );
    assert_eq!(select, plain);
}

#[test]
fn new_with_no_slots_selects_nothing() {
    let select = PcrSelect::new(PcrSelectSize::OneByte, &[]);
    assert!(select.selected_pcrs().is_empty());
    assert_eq!(TpmsPcrSelect::from(select), wire(1, [0, 0, 0, 0]));
}

#[test]
fn serialize_exact() {
    let select = PcrSelect::new(
        PcrSelectSize::ThreeBytes,
        &[PcrSlot::Slot0, PcrSlot::Slot9, PcrSlot::Slot10, PcrSlot::Slot23],
    );
    assert_eq!(TpmsPcrSelect::from(select), wire(3, [0x01, 0x06, 0x80, 0x00]));
}

#[test]
fn serialize_writes_each_size() {
    for (i, size) in SIZES.iter().enumerate() {
        let select = PcrSelect::new(*size, &[PcrSlot::Slot7]);
        assert_eq!(TpmsPcrSelect::from(select), wire(i as u8 + 1, [0x80, 0, 0, 0]));
    }
}

#[test]
fn parse_exact() {
    let select = PcrSelect::try_from(wire(2, [0x11, 0x00, 0x40, 0x00])).unwrap();
    assert_eq!(select.size_of_select(), PcrSelectSize::TwoBytes);
    assert_eq!(
        select.selected_pcrs(),
        vec![PcrSlot::Slot0, PcrSlot::Slot4, PcrSlot::Slot22]
    );
}

#[test]
fn parse_single_slot_scenario() {
    let tss = wire(3, [0x01, 0x00, 0x00, 0x00]);
    let select = PcrSelect::try_from(tss).unwrap();
    assert_eq!(select.size_of_select(), PcrSelectSize::ThreeBytes);
    assert_eq!(select.selected_pcrs(), vec![PcrSlot::Slot0]);
    assert_eq!(TpmsPcrSelect::from(select), tss);
}

#[test]
fn parse_empty_selection_is_valid() {
    let tss = wire(3, [0x00, 0x00, 0x00, 0x00]);
    let select = PcrSelect::try_from(tss).unwrap();
    assert_eq!(select.selected_pcrs().len(), 0);
    assert_eq!(TpmsPcrSelect::from(select), tss);
}

#[test]
fn parse_rejects_size_out_of_range() {
    assert_eq!(
        PcrSelect::try_from(wire(0, [0x01, 0, 0, 0])),
        Err(Error { kind: WrapperErrorKind::InvalidParam, value: 0 })
    );
    assert_eq!(
        PcrSelect::try_from(wire(5, [0x01, 0, 0, 0])),
        Err(Error { kind: WrapperErrorKind::InvalidParam, value: 5 })
    );
    assert_eq!(
        PcrSelect::try_from(wire(255, [0, 0, 0, 0])),
        Err(Error { kind: WrapperErrorKind::InvalidParam, value: 255 })
    );
}

#[test]
fn parse_rejects_undefined_bits() {
    for size in 1u8..=4 {
        assert_eq!(
            PcrSelect::try_from(wire(size, [0x00, 0x00, 0x00, 0x01])),
            Err(Error { kind: WrapperErrorKind::UnsupportedParam, value: 0x0100_0000 })
        );
        assert_eq!(
            PcrSelect::try_from(wire(size, [0xFF, 0xFF, 0xFF, 0x80])),
            Err(Error { kind: WrapperErrorKind::UnsupportedParam, value: 0x80FF_FFFF })
        );
    }
}

#[test]
fn parse_checks_the_size_field_first() {
    assert_eq!(
        PcrSelect::try_from(wire(0, [0x00, 0x00, 0x00, 0x01])),
        Err(Error { kind: WrapperErrorKind::InvalidParam, value: 0 })
    );
}

#[test]
fn parse_reads_all_bytes_whatever_the_size() {
    let select = PcrSelect::try_from(wire(1, [0x00, 0x00, 0x80, 0x00])).unwrap();
    assert_eq!(select.size_of_select(), PcrSelectSize::OneByte);
    assert_eq!(select.selected_pcrs(), vec![PcrSlot::Slot23]);
}

#[test]
fn selection_round_trip() {
    let mut mask: u32 = 0x00C0_FFEE;
    for round in 0..4_000 {
        let bits = mask & 0x00FF_FFFF;
        let tss = wire(SIZES[round % 4].to_u8(), bits.to_le_bytes());
        let parsed = PcrSelect::try_from(tss).unwrap();
        let built = PcrSelect::new(SIZES[round % 4], &parsed.selected_pcrs());
        assert_eq!(built, parsed);
        assert_eq!(PcrSelect::try_from(TpmsPcrSelect::from(built)), Ok(built));
        assert_eq!(TpmsPcrSelect::from(parsed), tss);
        mask = mask.wrapping_mul(1_664_525).wrapping_add(1_013_904_223);
    }
}

#[test]
fn selection_round_trip_of_every_single_slot() {
    for size in SIZES.iter() {
        for i in 0..24 {
            let slot = PcrSlot::try_from(1u32 << i).unwrap();
            let select = PcrSelect::new(*size, &[slot]);
            let tss = TpmsPcrSelect::from(select);
            assert_eq!(tss, wire(size.to_u8(), (1u32 << i).to_le_bytes()));
            assert_eq!(PcrSelect::try_from(tss), Ok(select));
        }
    }
}

#[test]
fn full_selection_round_trip() {
    let tss = wire(4, [0xFF, 0xFF, 0xFF, 0x00]);
    let select = PcrSelect::try_from(tss).unwrap();
    assert_eq!(select.selected_pcrs().len(), 24);
    assert_eq!(TpmsPcrSelect::from(select), tss);
}
