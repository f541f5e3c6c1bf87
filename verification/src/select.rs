//! A PCR selection: a size field and a set of slots, with its conversions
//! to and from the wire structure.

use vstd::prelude::*;
use vstd::std_specs::convert::{FromSpec, TryFromSpec};
use crate::error::{Error, WrapperErrorKind};
use crate::mask::{lemma_mask_of_slots, lemma_slots_of_mask, mask_of, slots_of, ALL_SLOTS_MASK};
use crate::select_size::PcrSelectSize;
use crate::slot::PcrSlot;
use crate::slot_set::{ascending, PcrSlotSet};
use crate::wire::{
    lemma_le_bytes_u32_round_trip, lemma_u32_le_bytes_round_trip, spec_u32_from_le_bytes,
    spec_u32_to_le_bytes, u32_from_le_bytes, u32_to_le_bytes, TpmsPcrSelect,
};

verus! {

/// A selection of PCR slots together with the size of its wire form.
///
/// The size is carried as given. It does not restrict which slots may be
/// selected: a selection may name slots beyond the bytes that its size
/// counts.
#[derive(Debug, Copy, Clone, PartialEq, Eq, Structural)]
pub struct PcrSelect {
    size_of_select: PcrSelectSize,
    selected_pcrs: PcrSlotSet,
}

impl View for PcrSelect {
    type V = Set<PcrSlot>;

    /// The selected slots.
    closed spec fn view(&self) -> Set<PcrSlot> {
        self.selected_pcrs@
    }
}

impl PcrSelect {
    /// The set of selected slots is a valid set.
    #[verifier::type_invariant]
    pub closed spec fn inv(&self) -> bool {
        self.selected_pcrs.inv()
    }

    /// The size of the select.
    pub closed spec fn spec_size_of_select(&self) -> PcrSelectSize {
        self.size_of_select
    }

    /// The selection with the given size that selects exactly `slots`.
    pub closed spec fn spec_new(size_of_select: PcrSelectSize, slots: Set<PcrSlot>) -> PcrSelect {
        PcrSelect { size_of_select, selected_pcrs: PcrSlotSet::spec_new(slots) }
    }

    /// `spec_new` gives a valid selection with the size and the slots that
    /// it was given.
    pub proof fn lemma_spec_new(size_of_select: PcrSelectSize, slots: Set<PcrSlot>)
        ensures
            PcrSelect::spec_new(size_of_select, slots).inv(),
            PcrSelect::spec_new(size_of_select, slots).spec_size_of_select() == size_of_select,
            PcrSelect::spec_new(size_of_select, slots)@ == slots,
    {
        PcrSlotSet::lemma_spec_new(slots);
    }

    /// A valid selection is determined by its size and its slots.
    pub proof fn lemma_view_determines(self)
        requires
            self.inv(),
        ensures
            PcrSelect::spec_new(self.spec_size_of_select(), self@) == self,
    {
        self.selected_pcrs.lemma_view_determines();
    }

    /// Creates a selection of the given slots. A slot named twice is
    /// selected once.
    pub fn new(size_of_select: PcrSelectSize, pcr_slots: &[PcrSlot]) -> (select: PcrSelect)
        ensures
            select.spec_size_of_select() == size_of_select,
            select@ == pcr_slots@.to_set(),
    {
        let mut selected_pcrs = PcrSlotSet::empty();
        let mut i: usize = 0;
        while i < pcr_slots.len()
            invariant
                i <= pcr_slots.len(),
                forall|slot: PcrSlot|
                    selected_pcrs@.contains(slot) <==> exists|k: int|
                        0 <= k < i && pcr_slots@[k] == slot,
            decreases pcr_slots.len() - i,
        {
            selected_pcrs.insert(pcr_slots[i]);
            i += 1;
        }
        proof {
            use_type_invariant(&selected_pcrs);
        }
        PcrSelect { size_of_select, selected_pcrs }
    }

    /// Returns the size of the select.
    #[verifier::when_used_as_spec(spec_size_of_select)]
    pub fn size_of_select(&self) -> (size: PcrSelectSize)
        ensures
            size == self.spec_size_of_select(),
    {
        self.size_of_select
    }

    /// Returns the selected slots, in ascending order of their bit values.
    pub fn selected_pcrs(&self) -> (slots: Vec<PcrSlot>)
        ensures
            ascending(slots@),
            forall|slot: PcrSlot| slots@.contains(slot) <==> self@.contains(slot),
    {
        self.selected_pcrs.slots()
    }
}

impl vstd::std_specs::convert::TryFromSpecImpl<TpmsPcrSelect> for PcrSelect {
    open spec fn obeys_try_from_spec() -> bool {
        true
    }

    /// The size field is looked at first: a value outside one to four is an
    /// `InvalidParam` failure that carries the value. Then the byte array
    /// is read as a little-endian mask: a bit that stands for no slot is an
    /// `UnsupportedParam` failure that carries the mask.
    open spec fn try_from_spec(tss_pcr_select: TpmsPcrSelect) -> Result<PcrSelect, Error> {
        let mask = spec_u32_from_le_bytes(tss_pcr_select.pcr_select);
        match PcrSelectSize::spec_from_u8(tss_pcr_select.size_of_select) {
            None => Err(
                Error {
                    kind: WrapperErrorKind::InvalidParam,
                    value: tss_pcr_select.size_of_select as u32,
                },
            ),
            Some(size_of_select) => if mask <= ALL_SLOTS_MASK {
                Ok(PcrSelect::spec_new(size_of_select, slots_of(mask)))
            } else {
                Err(Error { kind: WrapperErrorKind::UnsupportedParam, value: mask })
            },
        }
    }
}

impl TryFrom<TpmsPcrSelect> for PcrSelect {
    type Error = Error;

    /// Parses a wire structure. All four bytes of the array are read,
    /// whatever the size field says, and any number of slots, none
    /// included, may be selected.
    fn try_from(tss_pcr_select: TpmsPcrSelect) -> (result: Result<PcrSelect, Error>)
        ensures
            match PcrSelectSize::spec_from_u8(tss_pcr_select.size_of_select) {
                None => result == Err::<PcrSelect, Error>(
                    Error {
                        kind: WrapperErrorKind::InvalidParam,
                        value: tss_pcr_select.size_of_select as u32,
                    },
                ),
                Some(size_of_select) => {
                    let mask = spec_u32_from_le_bytes(tss_pcr_select.pcr_select);
                    if mask <= ALL_SLOTS_MASK {
                        &&& result matches Ok(select)
                        &&& select.spec_size_of_select() == size_of_select
                        &&& select@ == slots_of(mask)
                    } else {
                        result == Err::<PcrSelect, Error>(
                            Error { kind: WrapperErrorKind::UnsupportedParam, value: mask },
                        )
                    }
                },
            },
    {
        let size_of_select = match PcrSelectSize::from_u8(tss_pcr_select.size_of_select) {
            Some(size) => size,
            None => {
                return Err(
                    Error::local_error(
                        WrapperErrorKind::InvalidParam,
                        tss_pcr_select.size_of_select as u32,
                    ),
                );
            },
        };
        let mask = u32_from_le_bytes(tss_pcr_select.pcr_select);
        let selected_pcrs = match PcrSlotSet::from_bits(mask) {
            Some(set) => set,
            None => {
                return Err(Error::local_error(WrapperErrorKind::UnsupportedParam, mask));
            },
        };
        proof {
            use_type_invariant(&selected_pcrs);
            selected_pcrs.lemma_view_determines();
        }
        Ok(PcrSelect { size_of_select, selected_pcrs })
    }
}

impl vstd::std_specs::convert::FromSpecImpl<PcrSelect> for TpmsPcrSelect {
    open spec fn obeys_from_spec() -> bool {
        true
    }

    /// The number of the size goes to the size field, and the mask of the
    /// selected slots to the byte array, in little-endian order.
    open spec fn from_spec(pcr_select: PcrSelect) -> TpmsPcrSelect {
        TpmsPcrSelect {
            size_of_select: pcr_select.spec_size_of_select().spec_to_u8(),
            pcr_select: spec_u32_to_le_bytes(mask_of(pcr_select@)),
        }
    }
}

impl From<PcrSelect> for TpmsPcrSelect {
    /// Serializes a selection.
    fn from(pcr_select: PcrSelect) -> (tss_pcr_select: TpmsPcrSelect)
        ensures
            tss_pcr_select.size_of_select == pcr_select.spec_size_of_select().spec_to_u8(),
            tss_pcr_select.pcr_select == spec_u32_to_le_bytes(mask_of(pcr_select@)),
    {
        TpmsPcrSelect {
            size_of_select: pcr_select.size_of_select.to_u8(),
            pcr_select: u32_to_le_bytes(pcr_select.selected_pcrs.bits()),
        }
    }
}

/// A serialized selection parses back to the selection that it came from.
pub proof fn lemma_select_round_trip(pcr_select: PcrSelect)
    requires
        pcr_select.inv(),
    ensures
        PcrSelect::try_from_spec(TpmsPcrSelect::from_spec(pcr_select)) == Ok::<PcrSelect, Error>(
            pcr_select,
        ),
{
    PcrSelectSize::lemma_u8_round_trip(pcr_select.spec_size_of_select(), 0);
    lemma_u32_le_bytes_round_trip(mask_of(pcr_select@));
    lemma_slots_of_mask(pcr_select@);
    pcr_select.lemma_view_determines();
}

/// A wire structure that parses is what its selection serializes to.
pub proof fn lemma_wire_round_trip(tss_pcr_select: TpmsPcrSelect)
    ensures
        PcrSelect::try_from_spec(tss_pcr_select) matches Ok(pcr_select)
            ==> TpmsPcrSelect::from_spec(pcr_select) == tss_pcr_select,
{
    let mask = spec_u32_from_le_bytes(tss_pcr_select.pcr_select);
    if let Ok(pcr_select) = PcrSelect::try_from_spec(tss_pcr_select) {
        let size_of_select = PcrSelectSize::spec_from_u8(tss_pcr_select.size_of_select).unwrap();
        PcrSelectSize::lemma_u8_round_trip(size_of_select, tss_pcr_select.size_of_select);
        PcrSelect::lemma_spec_new(size_of_select, slots_of(mask));
        lemma_mask_of_slots(mask);
        lemma_le_bytes_u32_round_trip(tss_pcr_select.pcr_select);
    }
}

/// A mask with a bit set above the low 24 is refused as unsupported,
/// whichever of the four sizes comes with it.
pub proof fn lemma_undefined_bit_is_unsupported(tss_pcr_select: TpmsPcrSelect)
    requires
        1 <= tss_pcr_select.size_of_select <= 4,
        spec_u32_from_le_bytes(tss_pcr_select.pcr_select) & 0xFF00_0000 != 0,
    ensures
        PcrSelect::try_from_spec(tss_pcr_select) == Err::<PcrSelect, Error>(
            Error {
                kind: WrapperErrorKind::UnsupportedParam,
                value: spec_u32_from_le_bytes(tss_pcr_select.pcr_select),
            },
        ),
{
    let mask = spec_u32_from_le_bytes(tss_pcr_select.pcr_select);
    assert(mask & 0xFF00_0000 != 0 ==> mask > 0x00FF_FFFF) by (bit_vector);
}

} // verus!
