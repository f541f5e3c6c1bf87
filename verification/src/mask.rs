//! How a bit mask and the set of slots that it selects determine each other.

use vstd::prelude::*;
use crate::slot::{lemma_slot_is_single_bit, PcrSlot};

verus! {

/// The mask in which the bit of every slot is set.
pub const ALL_SLOTS_MASK: u32 = 0x00FF_FFFF;

/// The bit value of `slot` if `slots` holds it, else zero.
pub open spec fn bit_if(slots: Set<PcrSlot>, slot: PcrSlot) -> u32 {
    if slots.contains(slot) {
        slot.spec_bits()
    } else {
        0
    }
}

/// The mask of a set of slots: the sum, which is also the bitwise or, of the
/// bit values of its members.
pub open spec fn mask_of(slots: Set<PcrSlot>) -> u32 {
    (
        bit_if(slots, PcrSlot::Slot0)
            + bit_if(slots, PcrSlot::Slot1)
            + bit_if(slots, PcrSlot::Slot2)
            + bit_if(slots, PcrSlot::Slot3)
            + bit_if(slots, PcrSlot::Slot4)
            + bit_if(slots, PcrSlot::Slot5)
            + bit_if(slots, PcrSlot::Slot6)
            + bit_if(slots, PcrSlot::Slot7)
            + bit_if(slots, PcrSlot::Slot8)
            + bit_if(slots, PcrSlot::Slot9)
            + bit_if(slots, PcrSlot::Slot10)
            + bit_if(slots, PcrSlot::Slot11)
            + bit_if(slots, PcrSlot::Slot12)
            + bit_if(slots, PcrSlot::Slot13)
            + bit_if(slots, PcrSlot::Slot14)
            + bit_if(slots, PcrSlot::Slot15)
            + bit_if(slots, PcrSlot::Slot16)
            + bit_if(slots, PcrSlot::Slot17)
            + bit_if(slots, PcrSlot::Slot18)
            + bit_if(slots, PcrSlot::Slot19)
            + bit_if(slots, PcrSlot::Slot20)
            + bit_if(slots, PcrSlot::Slot21)
            + bit_if(slots, PcrSlot::Slot22)
            + bit_if(slots, PcrSlot::Slot23)
    ) as u32
}

/// The set of slots that a mask selects: those whose bit is set in it.
pub open spec fn slots_of(mask: u32) -> Set<PcrSlot> {
    Set::new(|slot: PcrSlot| mask & slot.spec_bits() != 0)
}

/// A sum of distinct single bits holds each of them where it belongs, and
/// nothing above the highest.
proof fn lemma_sum_of_distinct_bits(
    mask: u32,
    t0: u32,
    t1: u32,
    t2: u32,
    t3: u32,
    t4: u32,
    t5: u32,
    t6: u32,
    t7: u32,
    t8: u32,
    t9: u32,
    t10: u32,
    t11: u32,
    t12: u32,
    t13: u32,
    t14: u32,
    t15: u32,
    t16: u32,
    t17: u32,
    t18: u32,
    t19: u32,
    t20: u32,
    t21: u32,
    t22: u32,
    t23: u32,
)
    by (bit_vector)
    requires
        t0 == 0 || t0 == 0x0000_0001,
        t1 == 0 || t1 == 0x0000_0002,
        t2 == 0 || t2 == 0x0000_0004,
        t3 == 0 || t3 == 0x0000_0008,
        t4 == 0 || t4 == 0x0000_0010,
        t5 == 0 || t5 == 0x0000_0020,
        t6 == 0 || t6 == 0x0000_0040,
        t7 == 0 || t7 == 0x0000_0080,
        t8 == 0 || t8 == 0x0000_0100,
        t9 == 0 || t9 == 0x0000_0200,
        t10 == 0 || t10 == 0x0000_0400,
        t11 == 0 || t11 == 0x0000_0800,
        t12 == 0 || t12 == 0x0000_1000,
        t13 == 0 || t13 == 0x0000_2000,
        t14 == 0 || t14 == 0x0000_4000,
        t15 == 0 || t15 == 0x0000_8000,
        t16 == 0 || t16 == 0x0001_0000,
        t17 == 0 || t17 == 0x0002_0000,
        t18 == 0 || t18 == 0x0004_0000,
        t19 == 0 || t19 == 0x0008_0000,
        t20 == 0 || t20 == 0x0010_0000,
        t21 == 0 || t21 == 0x0020_0000,
        t22 == 0 || t22 == 0x0040_0000,
        t23 == 0 || t23 == 0x0080_0000,
        mask == t0 + t1 + t2 + t3 + t4 + t5 + t6 + t7 + t8 + t9 + t10 + t11 + t12 + t13 + t14 + t15 + t16 + t17 + t18 + t19 + t20 + t21 + t22 + t23,
    ensures
        mask <= 0x00FF_FFFF,
        mask & 0x0000_0001 == t0,
        mask & 0x0000_0002 == t1,
        mask & 0x0000_0004 == t2,
        mask & 0x0000_0008 == t3,
        mask & 0x0000_0010 == t4,
        mask & 0x0000_0020 == t5,
        mask & 0x0000_0040 == t6,
        mask & 0x0000_0080 == t7,
        mask & 0x0000_0100 == t8,
        mask & 0x0000_0200 == t9,
        mask & 0x0000_0400 == t10,
        mask & 0x0000_0800 == t11,
        mask & 0x0000_1000 == t12,
        mask & 0x0000_2000 == t13,
        mask & 0x0000_4000 == t14,
        mask & 0x0000_8000 == t15,
        mask & 0x0001_0000 == t16,
        mask & 0x0002_0000 == t17,
        mask & 0x0004_0000 == t18,
        mask & 0x0008_0000 == t19,
        mask & 0x0010_0000 == t20,
        mask & 0x0020_0000 == t21,
        mask & 0x0040_0000 == t22,
        mask & 0x0080_0000 == t23,
{
}

/// A mask within the low 24 bits is the sum of the single bits set in it.
proof fn lemma_mask_is_sum_of_its_bits(mask: u32)
    by (bit_vector)
    requires
        mask <= 0x00FF_FFFF,
    ensures
        mask == (mask & 0x0000_0001)
            + (mask & 0x0000_0002)
            + (mask & 0x0000_0004)
            + (mask & 0x0000_0008)
            + (mask & 0x0000_0010)
            + (mask & 0x0000_0020)
            + (mask & 0x0000_0040)
            + (mask & 0x0000_0080)
            + (mask & 0x0000_0100)
            + (mask & 0x0000_0200)
            + (mask & 0x0000_0400)
            + (mask & 0x0000_0800)
            + (mask & 0x0000_1000)
            + (mask & 0x0000_2000)
            + (mask & 0x0000_4000)
            + (mask & 0x0000_8000)
            + (mask & 0x0001_0000)
            + (mask & 0x0002_0000)
            + (mask & 0x0004_0000)
            + (mask & 0x0008_0000)
            + (mask & 0x0010_0000)
            + (mask & 0x0020_0000)
            + (mask & 0x0040_0000)
            + (mask & 0x0080_0000),
        mask & 0x0000_0001 == 0 || mask & 0x0000_0001 == 0x0000_0001,
        mask & 0x0000_0002 == 0 || mask & 0x0000_0002 == 0x0000_0002,
        mask & 0x0000_0004 == 0 || mask & 0x0000_0004 == 0x0000_0004,
        mask & 0x0000_0008 == 0 || mask & 0x0000_0008 == 0x0000_0008,
        mask & 0x0000_0010 == 0 || mask & 0x0000_0010 == 0x0000_0010,
        mask & 0x0000_0020 == 0 || mask & 0x0000_0020 == 0x0000_0020,
        mask & 0x0000_0040 == 0 || mask & 0x0000_0040 == 0x0000_0040,
        mask & 0x0000_0080 == 0 || mask & 0x0000_0080 == 0x0000_0080,
        mask & 0x0000_0100 == 0 || mask & 0x0000_0100 == 0x0000_0100,
        mask & 0x0000_0200 == 0 || mask & 0x0000_0200 == 0x0000_0200,
        mask & 0x0000_0400 == 0 || mask & 0x0000_0400 == 0x0000_0400,
        mask & 0x0000_0800 == 0 || mask & 0x0000_0800 == 0x0000_0800,
        mask & 0x0000_1000 == 0 || mask & 0x0000_1000 == 0x0000_1000,
        mask & 0x0000_2000 == 0 || mask & 0x0000_2000 == 0x0000_2000,
        mask & 0x0000_4000 == 0 || mask & 0x0000_4000 == 0x0000_4000,
        mask & 0x0000_8000 == 0 || mask & 0x0000_8000 == 0x0000_8000,
        mask & 0x0001_0000 == 0 || mask & 0x0001_0000 == 0x0001_0000,
        mask & 0x0002_0000 == 0 || mask & 0x0002_0000 == 0x0002_0000,
        mask & 0x0004_0000 == 0 || mask & 0x0004_0000 == 0x0004_0000,
        mask & 0x0008_0000 == 0 || mask & 0x0008_0000 == 0x0008_0000,
        mask & 0x0010_0000 == 0 || mask & 0x0010_0000 == 0x0010_0000,
        mask & 0x0020_0000 == 0 || mask & 0x0020_0000 == 0x0020_0000,
        mask & 0x0040_0000 == 0 || mask & 0x0040_0000 == 0x0040_0000,
        mask & 0x0080_0000 == 0 || mask & 0x0080_0000 == 0x0080_0000,
{
}

/// A mask built from a set of slots has no undefined bit, and selects that
/// set again.
pub proof fn lemma_slots_of_mask(slots: Set<PcrSlot>)
    ensures
        mask_of(slots) <= ALL_SLOTS_MASK,
        slots_of(mask_of(slots)) == slots,
{
    let mask = mask_of(slots);
    lemma_sum_of_distinct_bits(
        mask,
        bit_if(slots, PcrSlot::Slot0),
        bit_if(slots, PcrSlot::Slot1),
        bit_if(slots, PcrSlot::Slot2),
        bit_if(slots, PcrSlot::Slot3),
        bit_if(slots, PcrSlot::Slot4),
        bit_if(slots, PcrSlot::Slot5),
        bit_if(slots, PcrSlot::Slot6),
        bit_if(slots, PcrSlot::Slot7),
        bit_if(slots, PcrSlot::Slot8),
        bit_if(slots, PcrSlot::Slot9),
        bit_if(slots, PcrSlot::Slot10),
        bit_if(slots, PcrSlot::Slot11),
        bit_if(slots, PcrSlot::Slot12),
        bit_if(slots, PcrSlot::Slot13),
        bit_if(slots, PcrSlot::Slot14),
        bit_if(slots, PcrSlot::Slot15),
        bit_if(slots, PcrSlot::Slot16),
        bit_if(slots, PcrSlot::Slot17),
        bit_if(slots, PcrSlot::Slot18),
        bit_if(slots, PcrSlot::Slot19),
        bit_if(slots, PcrSlot::Slot20),
        bit_if(slots, PcrSlot::Slot21),
        bit_if(slots, PcrSlot::Slot22),
        bit_if(slots, PcrSlot::Slot23),
    );
    assert forall|slot: PcrSlot| slots_of(mask).contains(slot) <==> slots.contains(slot) by {
        assert(mask & slot.spec_bits() == bit_if(slots, slot));
    }
}

/// A mask without undefined bits is the mask of the set that it selects.
pub proof fn lemma_mask_of_slots(mask: u32)
    requires
        mask <= ALL_SLOTS_MASK,
    ensures
        mask_of(slots_of(mask)) == mask,
{
    lemma_mask_is_sum_of_its_bits(mask);
    let slots = slots_of(mask);
    assert forall|slot: PcrSlot| bit_if(slots, slot) == mask & slot.spec_bits() by {
    }
}

/// Every single bit among the low 24 is the bit value of a slot; with
/// `lemma_slot_is_single_bit`, the values that stand for a slot are exactly
/// these.
pub proof fn lemma_single_bit_is_slot(value: u32)
    requires
        value != 0,
        value & ((value - 1) as u32) == 0,
        value <= ALL_SLOTS_MASK,
    ensures
        PcrSlot::spec_from_bits(value) is Some,
{
    lemma_mask_of_slots(value);
    let slot = choose|slot: PcrSlot| slots_of(value).contains(slot);
    lemma_slot_is_single_bit(slot);
    let bits = slot.spec_bits();
    assert(bits == value) by (bit_vector)
        requires
            value != 0,
            value & ((value - 1) as u32) == 0,
            bits != 0,
            bits & ((bits - 1) as u32) == 0,
            value & bits != 0,
    ;
}

} // verus!
