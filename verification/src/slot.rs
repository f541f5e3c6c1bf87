//! The enumeration of PCR slots and its conversions to and from raw bits.

use vstd::prelude::*;
use vstd::std_specs::convert::{FromSpec, TryFromSpec};
use crate::error::{Error, WrapperErrorKind};
use crate::wire::{
    lemma_u32_le_bytes_round_trip, spec_u32_from_le_bytes, spec_u32_to_le_bytes, u32_from_le_bytes,
    u32_to_le_bytes, TPM2_PCR_SELECT_MAX,
};

verus! {

/// One PCR slot. Slot `i` stands for bit `i` of a selection mask, and the
/// slots are ordered by that position.
#[derive(Hash, Debug, Eq, PartialEq, Ord, PartialOrd, Clone, Copy, Structural)]
pub enum PcrSlot {
    Slot0,
    Slot1,
    Slot2,
    Slot3,
    Slot4,
    Slot5,
    Slot6,
    Slot7,
    Slot8,
    Slot9,
    Slot10,
    Slot11,
    Slot12,
    Slot13,
    Slot14,
    Slot15,
    Slot16,
    Slot17,
    Slot18,
    Slot19,
    Slot20,
    Slot21,
    Slot22,
    Slot23,
}

impl PcrSlot {
    /// The bit value of this slot: `2^i` for slot `i`.
    pub open spec fn spec_bits(self) -> u32 {
        match self {
            PcrSlot::Slot0 => 0x0000_0001,
            PcrSlot::Slot1 => 0x0000_0002,
            PcrSlot::Slot2 => 0x0000_0004,
            PcrSlot::Slot3 => 0x0000_0008,
            PcrSlot::Slot4 => 0x0000_0010,
            PcrSlot::Slot5 => 0x0000_0020,
            PcrSlot::Slot6 => 0x0000_0040,
            PcrSlot::Slot7 => 0x0000_0080,
            PcrSlot::Slot8 => 0x0000_0100,
            PcrSlot::Slot9 => 0x0000_0200,
            PcrSlot::Slot10 => 0x0000_0400,
            PcrSlot::Slot11 => 0x0000_0800,
            PcrSlot::Slot12 => 0x0000_1000,
            PcrSlot::Slot13 => 0x0000_2000,
            PcrSlot::Slot14 => 0x0000_4000,
            PcrSlot::Slot15 => 0x0000_8000,
            PcrSlot::Slot16 => 0x0001_0000,
            PcrSlot::Slot17 => 0x0002_0000,
            PcrSlot::Slot18 => 0x0004_0000,
            PcrSlot::Slot19 => 0x0008_0000,
            PcrSlot::Slot20 => 0x0010_0000,
            PcrSlot::Slot21 => 0x0020_0000,
            PcrSlot::Slot22 => 0x0040_0000,
            PcrSlot::Slot23 => 0x0080_0000,
        }
    }

    /// The slot whose bit value is `value`, if there is one.
    pub open spec fn spec_from_bits(value: u32) -> Option<PcrSlot> {
        if exists|slot: PcrSlot| slot.spec_bits() == value {
            Some(choose|slot: PcrSlot| slot.spec_bits() == value)
        } else {
            None
        }
    }
}

impl vstd::std_specs::convert::FromSpecImpl<PcrSlot> for u32 {
    open spec fn obeys_from_spec() -> bool {
        true
    }

    open spec fn from_spec(pcr_slot: PcrSlot) -> u32 {
        pcr_slot.spec_bits()
    }
}

impl From<PcrSlot> for u32 {
    /// The bit value of the slot.
    fn from(pcr_slot: PcrSlot) -> (bits: u32)
        ensures
            bits == pcr_slot.spec_bits(),
    {
        match pcr_slot {
            PcrSlot::Slot0 => 0x0000_0001,
            PcrSlot::Slot1 => 0x0000_0002,
            PcrSlot::Slot2 => 0x0000_0004,
            PcrSlot::Slot3 => 0x0000_0008,
            PcrSlot::Slot4 => 0x0000_0010,
            PcrSlot::Slot5 => 0x0000_0020,
            PcrSlot::Slot6 => 0x0000_0040,
            PcrSlot::Slot7 => 0x0000_0080,
            PcrSlot::Slot8 => 0x0000_0100,
            PcrSlot::Slot9 => 0x0000_0200,
            PcrSlot::Slot10 => 0x0000_0400,
            PcrSlot::Slot11 => 0x0000_0800,
            PcrSlot::Slot12 => 0x0000_1000,
            PcrSlot::Slot13 => 0x0000_2000,
            PcrSlot::Slot14 => 0x0000_4000,
            PcrSlot::Slot15 => 0x0000_8000,
            PcrSlot::Slot16 => 0x0001_0000,
            PcrSlot::Slot17 => 0x0002_0000,
            PcrSlot::Slot18 => 0x0004_0000,
            PcrSlot::Slot19 => 0x0008_0000,
            PcrSlot::Slot20 => 0x0010_0000,
            PcrSlot::Slot21 => 0x0020_0000,
            PcrSlot::Slot22 => 0x0040_0000,
            PcrSlot::Slot23 => 0x0080_0000,
        }
    }
}

impl vstd::std_specs::convert::TryFromSpecImpl<u32> for PcrSlot {
    open spec fn obeys_try_from_spec() -> bool {
        true
    }

    open spec fn try_from_spec(pcr_slot: u32) -> Result<PcrSlot, Error> {
        match PcrSlot::spec_from_bits(pcr_slot) {
            Some(slot) => Ok(slot),
            None => Err(Error { kind: WrapperErrorKind::InvalidParam, value: pcr_slot }),
        }
    }
}

impl TryFrom<u32> for PcrSlot {
    type Error = Error;

    /// The slot whose bit value is `pcr_slot`. Any other value, be it zero,
    /// a combination of several bits or an undefined bit, is an
    /// `InvalidParam` failure that carries the value.
    fn try_from(pcr_slot: u32) -> (result: Result<PcrSlot, Error>)
        ensures
            match result {
                Ok(slot) => slot.spec_bits() == pcr_slot,
                Err(e) => {
                    &&& e == (Error { kind: WrapperErrorKind::InvalidParam, value: pcr_slot })
                    &&& forall|slot: PcrSlot| slot.spec_bits() != pcr_slot
                },
            },
    {
        let slot = match pcr_slot {
            0x0000_0001 => PcrSlot::Slot0,
            0x0000_0002 => PcrSlot::Slot1,
            0x0000_0004 => PcrSlot::Slot2,
            0x0000_0008 => PcrSlot::Slot3,
            0x0000_0010 => PcrSlot::Slot4,
            0x0000_0020 => PcrSlot::Slot5,
            0x0000_0040 => PcrSlot::Slot6,
            0x0000_0080 => PcrSlot::Slot7,
            0x0000_0100 => PcrSlot::Slot8,
            0x0000_0200 => PcrSlot::Slot9,
            0x0000_0400 => PcrSlot::Slot10,
            0x0000_0800 => PcrSlot::Slot11,
            0x0000_1000 => PcrSlot::Slot12,
            0x0000_2000 => PcrSlot::Slot13,
            0x0000_4000 => PcrSlot::Slot14,
            0x0000_8000 => PcrSlot::Slot15,
            0x0001_0000 => PcrSlot::Slot16,
            0x0002_0000 => PcrSlot::Slot17,
            0x0004_0000 => PcrSlot::Slot18,
            0x0008_0000 => PcrSlot::Slot19,
            0x0010_0000 => PcrSlot::Slot20,
            0x0020_0000 => PcrSlot::Slot21,
            0x0040_0000 => PcrSlot::Slot22,
            0x0080_0000 => PcrSlot::Slot23,
            _ => {
                return Err(Error::local_error(WrapperErrorKind::InvalidParam, pcr_slot));
            },
        };
        assert(slot.spec_bits() == pcr_slot);
        Ok(slot)
    }
}

impl vstd::std_specs::convert::FromSpecImpl<PcrSlot> for [u8; TPM2_PCR_SELECT_MAX] {
    open spec fn obeys_from_spec() -> bool {
        true
    }

    open spec fn from_spec(pcr_slot: PcrSlot) -> [u8; TPM2_PCR_SELECT_MAX] {
        spec_u32_to_le_bytes(pcr_slot.spec_bits())
    }
}

impl From<PcrSlot> for [u8; TPM2_PCR_SELECT_MAX] {
    /// The bit value of the slot in little-endian order.
    fn from(pcr_slot: PcrSlot) -> (bytes: [u8; TPM2_PCR_SELECT_MAX])
        ensures
            bytes == spec_u32_to_le_bytes(pcr_slot.spec_bits()),
    {
        u32_to_le_bytes(u32::from(pcr_slot))
    }
}

impl vstd::std_specs::convert::TryFromSpecImpl<[u8; TPM2_PCR_SELECT_MAX]> for PcrSlot {
    open spec fn obeys_try_from_spec() -> bool {
        true
    }

    open spec fn try_from_spec(tss_pcr_slot: [u8; TPM2_PCR_SELECT_MAX]) -> Result<PcrSlot, Error> {
        <PcrSlot as TryFromSpec<u32>>::try_from_spec(spec_u32_from_le_bytes(tss_pcr_slot))
    }
}

impl TryFrom<[u8; TPM2_PCR_SELECT_MAX]> for PcrSlot {
    type Error = Error;

    /// The slot whose bit value the bytes hold in little-endian order; an
    /// `InvalidParam` failure that carries the value if there is none.
    fn try_from(tss_pcr_slot: [u8; TPM2_PCR_SELECT_MAX]) -> (result: Result<PcrSlot, Error>)
        ensures
            match result {
                Ok(slot) => slot.spec_bits() == spec_u32_from_le_bytes(tss_pcr_slot),
                Err(e) => {
                    &&& e == (Error {
                        kind: WrapperErrorKind::InvalidParam,
                        value: spec_u32_from_le_bytes(tss_pcr_slot),
                    })
                    &&& forall|slot: PcrSlot|
                        slot.spec_bits() != spec_u32_from_le_bytes(tss_pcr_slot)
                },
            },
    {
        PcrSlot::try_from(u32_from_le_bytes(tss_pcr_slot))
    }
}

/// The bit value of a slot has exactly one bit set, and that bit is one of
/// the low 24.
pub proof fn lemma_slot_is_single_bit(slot: PcrSlot)
    ensures
        slot.spec_bits() != 0,
        slot.spec_bits() & ((slot.spec_bits() - 1) as u32) == 0,
        slot.spec_bits() <= 0x0080_0000,
{
    let bits = slot.spec_bits();
    assert((
        bits == 0x0000_0001
        || bits == 0x0000_0002
        || bits == 0x0000_0004
        || bits == 0x0000_0008
        || bits == 0x0000_0010
        || bits == 0x0000_0020
        || bits == 0x0000_0040
        || bits == 0x0000_0080
        || bits == 0x0000_0100
        || bits == 0x0000_0200
        || bits == 0x0000_0400
        || bits == 0x0000_0800
        || bits == 0x0000_1000
        || bits == 0x0000_2000
        || bits == 0x0000_4000
        || bits == 0x0000_8000
        || bits == 0x0001_0000
        || bits == 0x0002_0000
        || bits == 0x0004_0000
        || bits == 0x0008_0000
        || bits == 0x0010_0000
        || bits == 0x0020_0000
        || bits == 0x0040_0000
        || bits == 0x0080_0000
    ) ==> bits != 0 && bits & ((bits - 1) as u32) == 0) by (bit_vector);
}

/// A slot read back from its own bit value is the same slot.
pub proof fn lemma_slot_u32_round_trip(slot: PcrSlot)
    ensures
        <PcrSlot as TryFromSpec<u32>>::try_from_spec(u32::from_spec(slot)) == Ok::<PcrSlot, Error>(
            slot,
        ),
{
}

/// A slot read back from its own bytes is the same slot.
pub proof fn lemma_slot_bytes_round_trip(slot: PcrSlot)
    ensures
        <PcrSlot as TryFromSpec<[u8; TPM2_PCR_SELECT_MAX]>>::try_from_spec(
            <[u8; TPM2_PCR_SELECT_MAX]>::from_spec(slot),
        ) == Ok::<PcrSlot, Error>(slot),
{
    lemma_u32_le_bytes_round_trip(slot.spec_bits());
    lemma_slot_u32_round_trip(slot);
}

} // verus!
