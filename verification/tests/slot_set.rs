use pcr_select::{PcrSlot, PcrSlotSet};

#[test]
fn empty_set_has_no_members() {
    let set = PcrSlotSet::empty();
    assert_eq!(set.bits(), 0);
    assert!(set.slots().is_empty());
    assert!(!set.contains(PcrSlot::Slot0));
    assert!(!set.contains(PcrSlot::Slot23));
}

#[test]
fn set_from_bits_accepts_defined_bits() {
    let set = PcrSlotSet::from_bits(0x0080_0005).unwrap();
    assert_eq!(set.bits(), 0x0080_0005);
    assert_eq!(set.slots(), vec![PcrSlot::Slot0, PcrSlot::Slot2, PcrSlot::Slot23]);
    assert_eq!(PcrSlotSet::from_bits(0), Some(PcrSlotSet::empty()));
    assert!(PcrSlotSet::from_bits(0x00FF_FFFF).is_some());
}

#[test]
fn set_from_bits_rejects_undefined_bits() {
    assert_eq!(PcrSlotSet::from_bits(0x0100_0000), None);
    assert_eq!(PcrSlotSet::from_bits(0x8000_0001), None);
    assert_eq!(PcrSlotSet::from_bits(u32::MAX), None);
}

#[test]
fn set_insert_adds_one_member() {
    let mut set = PcrSlotSet::empty();
    set.insert(PcrSlot::Slot4);
    assert_eq!(set.bits(), 0x10);
    assert!(set.contains(PcrSlot::Slot4));
    assert!(!set.contains(PcrSlot::Slot5));
    set.insert(PcrSlot::Slot1);
    assert_eq!(set.bits(), 0x12);
    assert_eq!(set.slots(), vec![PcrSlot::Slot1, PcrSlot::Slot4]);
}

#[test]
fn set_insert_twice_changes_nothing() {
    let mut set = PcrSlotSet::empty();
    set.insert(PcrSlot::Slot9);
    let once = set;
    set.insert(PcrSlot::Slot9);
    assert_eq!(set, once);
    assert_eq!(set.bits(), 0x200);
}

#[test]
fn set_contains_follows_the_bits() {
    let set = PcrSlotSet::from_bits(0x0001_0100).unwrap();
    assert!(set.contains(PcrSlot::Slot8));
    assert!(set.contains(PcrSlot::Slot16));
    assert!(!set.contains(PcrSlot::Slot0));
    assert!(!set.contains(PcrSlot::Slot17));
}

#[test]
fn full_set_lists_all_slots_in_order() {
    let slots = PcrSlotSet::from_bits(0x00FF_FFFF).unwrap().slots();
    assert_eq!(slots.len(), 24);
    for (i, slot) in slots.iter().enumerate() {
        assert_eq!(u32::from(*slot), 1u32 << i);
    }
}

#[test]
fn set_slots_and_bits_agree() {
    let mut mask: u32 = 0x0012_3456;
    for _ in 0..2_000 {
        let bits = mask & 0x00FF_FFFF;
        let set = PcrSlotSet::from_bits(bits).unwrap();
        let slots = set.slots();
        assert_eq!(slots.len(), bits.count_ones() as usize);
        let mut rebuilt = PcrSlotSet::empty();
        for slot in slots.iter() {
            assert!(set.contains(*slot));
            rebuilt.insert(*slot);
        }
        assert_eq!(rebuilt, set);
        assert_eq!(rebuilt.bits(), bits);
        mask = mask.wrapping_mul(1_664_525).wrapping_add(1_013_904_223);
    }
}
