//! Sets of PCR slots, kept as a bit mask.

use vstd::prelude::*;
use crate::mask::{lemma_mask_of_slots, lemma_slots_of_mask, mask_of, slots_of, ALL_SLOTS_MASK};
use crate::slot::{lemma_slot_is_single_bit, PcrSlot};

verus! {

/// The slots stand in strictly ascending order of their bit values.
pub open spec fn ascending(slots: Seq<PcrSlot>) -> bool {
    forall|i: int, j: int| 0 <= i < j < slots.len() ==> slots[i].spec_bits() < slots[j].spec_bits()
}

/// There is one way only to list the members of a set in ascending order.
pub proof fn lemma_ascending_is_unique(a: Seq<PcrSlot>, b: Seq<PcrSlot>)
    requires
        ascending(a),
        ascending(b),
        forall|slot: PcrSlot| a.contains(slot) <==> b.contains(slot),
    ensures
        a == b,
    decreases a.len(),
{
    if a.len() == 0 {
        if b.len() > 0 {
            assert(b.contains(b[0]));
        }
        assert(a =~= b);
    } else {
        assert(a.contains(a[0]));
        assert(b.contains(b[0]));
        assert(a[0] == b[0]);
        let a_rest = a.skip(1);
        let b_rest = b.skip(1);
        assert forall|slot: PcrSlot| a_rest.contains(slot) <==> b_rest.contains(slot) by {
            if a_rest.contains(slot) {
                let i = choose|i: int| 0 <= i < a_rest.len() && a_rest[i] == slot;
                assert(a[i + 1] == slot);
                assert(a.contains(slot));
                let j = choose|j: int| 0 <= j < b.len() && b[j] == slot;
                assert(b_rest[j - 1] == slot);
            }
            if b_rest.contains(slot) {
                let i = choose|i: int| 0 <= i < b_rest.len() && b_rest[i] == slot;
                assert(b[i + 1] == slot);
                assert(b.contains(slot));
                let j = choose|j: int| 0 <= j < a.len() && a[j] == slot;
                assert(a_rest[j - 1] == slot);
            }
        }
        assert(ascending(a_rest)) by {
            assert forall|i: int, j: int| 0 <= i < j < a_rest.len() implies a_rest[i].spec_bits()
                < a_rest[j].spec_bits() by {
                assert(a_rest[i] == a[i + 1] && a_rest[j] == a[j + 1]);
            }
        }
        assert(ascending(b_rest)) by {
            assert forall|i: int, j: int| 0 <= i < j < b_rest.len() implies b_rest[i].spec_bits()
                < b_rest[j].spec_bits() by {
                assert(b_rest[i] == b[i + 1] && b_rest[j] == b[j + 1]);
            }
        }
        lemma_ascending_is_unique(a_rest, b_rest);
        assert(a =~= seq![a[0]] + a_rest);
        assert(b =~= seq![b[0]] + b_rest);
    }
}

/// Setting one more bit keeps a mask within the low 24 bits, and changes
/// what it answers for that bit only.
proof fn lemma_insert_bit(mask: u32, bit: u32, other: u32)
    by (bit_vector)
    requires
        mask <= 0x00FF_FFFF,
        bit != 0,
        bit & ((bit - 1) as u32) == 0,
        bit <= 0x0080_0000,
        other != 0,
        other & ((other - 1) as u32) == 0,
    ensures
        mask | bit <= 0x00FF_FFFF,
        ((mask | bit) & other != 0) == (mask & other != 0 || other == bit),
{
}

/// Doubling a single bit gives the next single bit, with no other in
/// between.
proof fn lemma_next_bit(bit: u32, other: u32)
    by (bit_vector)
    requires
        bit != 0,
        bit & ((bit - 1) as u32) == 0,
        bit < 0x0100_0000,
        other != 0,
        other & ((other - 1) as u32) == 0,
    ensures
        bit <= 0x0080_0000,
        2 * bit != 0,
        ((2 * bit) as u32) & ((2 * bit - 1) as u32) == 0,
        other < 2 * bit ==> other < bit || other == bit,
{
}

/// A set of PCR slots.
#[derive(Debug, Copy, Clone, PartialEq, Eq, Structural)]
pub struct PcrSlotSet {
    bits: u32,
}

impl View for PcrSlotSet {
    type V = Set<PcrSlot>;

    /// The slots that the set holds.
    closed spec fn view(&self) -> Set<PcrSlot> {
        slots_of(self.bits)
    }
}

impl PcrSlotSet {
    /// No bit is set that stands for no slot.
    #[verifier::type_invariant]
    pub closed spec fn inv(&self) -> bool {
        self.bits <= ALL_SLOTS_MASK
    }

    /// The set that holds exactly `slots`.
    pub closed spec fn spec_new(slots: Set<PcrSlot>) -> PcrSlotSet {
        PcrSlotSet { bits: mask_of(slots) }
    }

    /// `spec_new` gives a valid set with the members that it was given.
    pub proof fn lemma_spec_new(slots: Set<PcrSlot>)
        ensures
            PcrSlotSet::spec_new(slots).inv(),
            PcrSlotSet::spec_new(slots)@ == slots,
    {
        lemma_slots_of_mask(slots);
    }

    /// A valid set is determined by its members.
    pub proof fn lemma_view_determines(self)
        requires
            self.inv(),
        ensures
            PcrSlotSet::spec_new(self@) == self,
    {
        lemma_mask_of_slots(self.bits);
    }

    /// The set without members.
    pub fn empty() -> (set: PcrSlotSet)
        ensures
            set@ == Set::<PcrSlot>::empty(),
    {
        let set = PcrSlotSet { bits: 0 };
        proof {
            assert forall|slot: PcrSlot| !set@.contains(slot) by {
                let bits = slot.spec_bits();
                assert(0u32 & bits == 0) by (bit_vector);
            }
        }
        set
    }

    /// The set of the slots whose bits are set in `bits`; `None` if a bit
    /// is set that stands for no slot.
    pub fn from_bits(bits: u32) -> (set: Option<PcrSlotSet>)
        ensures
            set is Some <==> bits <= ALL_SLOTS_MASK,
            set matches Some(s) ==> s@ == slots_of(bits),
    {
        if bits <= ALL_SLOTS_MASK {
            Some(PcrSlotSet { bits })
        } else {
            None
        }
    }

    /// The mask of the set: the bitwise or of the bit values of its
    /// members.
    pub fn bits(&self) -> (bits: u32)
        ensures
            bits == mask_of(self@),
    {
        proof {
            use_type_invariant(self);
            lemma_mask_of_slots(self.bits);
        }
        self.bits
    }

    /// Whether the set holds `slot`.
    pub fn contains(&self, slot: PcrSlot) -> (held: bool)
        ensures
            held == self@.contains(slot),
    {
        self.bits & u32::from(slot) != 0
    }

    /// Adds `slot` to the set. Adding a member again changes nothing.
    pub fn insert(&mut self, slot: PcrSlot)
        ensures
            final(self)@ == old(self)@.insert(slot),
    {
        let bit = u32::from(slot);
        proof {
            use_type_invariant(&*self);
            lemma_slot_is_single_bit(slot);
            assert forall|other: PcrSlot|
                slots_of(self.bits | bit).contains(other) <==> slots_of(self.bits).insert(
                    slot,
                ).contains(other) by {
                lemma_slot_is_single_bit(other);
                lemma_insert_bit(self.bits, bit, other.spec_bits());
            }
            lemma_insert_bit(self.bits, bit, bit);
        }
        self.bits = self.bits | bit;
    }

    /// The members of the set, in ascending order of their bit values.
    pub fn slots(&self) -> (slots: Vec<PcrSlot>)
        ensures
            ascending(slots@),
            forall|slot: PcrSlot| slots@.contains(slot) <==> self@.contains(slot),
    {
        let mut slots: Vec<PcrSlot> = Vec::new();
        let mut bit: u32 = 1;
        assert(1u32 & ((1u32 - 1) as u32) == 0) by (bit_vector);
        while bit < 0x0100_0000
            invariant
                bit != 0,
                bit & ((bit - 1) as u32) == 0,
                bit <= 0x0100_0000,
                ascending(slots@),
                forall|i: int|
                    0 <= i < slots.len() ==> self@.contains(#[trigger] slots[i])
                        && slots[i].spec_bits() < bit,
                forall|slot: PcrSlot|
                    self@.contains(slot) && slot.spec_bits() < bit ==> slots@.contains(slot),
            decreases 0x0100_0000 - bit,
        {
            let ghost before = slots@;
            if self.bits & bit != 0 {
                if let Ok(slot) = PcrSlot::try_from(bit) {
                    slots.push(slot);
                    assert(slots@[before.len() as int] == slot);
                }
            }
            proof {
                assert forall|slot: PcrSlot|
                    self@.contains(slot) && slot.spec_bits() < 2 * bit implies slots@.contains(
                    slot,
                ) by {
                    lemma_slot_is_single_bit(slot);
                    lemma_next_bit(bit, slot.spec_bits());
                    if slot.spec_bits() < bit {
                        let k = choose|k: int| 0 <= k < before.len() && before[k] == slot;
                        assert(slots@[k] == slot);
                    } else {
                        assert(slots@[before.len() as int] == slot);
                    }
                }
                lemma_next_bit(bit, bit);
            }
            bit = 2 * bit;
        }
        proof {
            assert forall|slot: PcrSlot| self@.contains(slot) implies slots@.contains(slot) by {
                lemma_slot_is_single_bit(slot);
            }
        }
        slots
    }
}

} // verus!
