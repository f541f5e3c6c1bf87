//! The admissible values of the size field of a wire selection.

use vstd::prelude::*;

verus! {

/// How many bytes of the select array are significant: one to four.
#[derive(Debug, Copy, Clone, PartialEq, Eq, Structural)]
pub enum PcrSelectSize {
    OneByte,
    TwoBytes,
    ThreeBytes,
    FourBytes,
}

impl PcrSelectSize {
    /// The number of bytes that this size stands for.
    pub open spec fn spec_to_u8(self) -> u8 {
        match self {
            PcrSelectSize::OneByte => 1,
            PcrSelectSize::TwoBytes => 2,
            PcrSelectSize::ThreeBytes => 3,
            PcrSelectSize::FourBytes => 4,
        }
    }

    /// The size that stands for `value` bytes, if `value` is one to four.
    pub open spec fn spec_from_u8(value: u8) -> Option<PcrSelectSize> {
        if value == 1 {
            Some(PcrSelectSize::OneByte)
        } else if value == 2 {
            Some(PcrSelectSize::TwoBytes)
        } else if value == 3 {
            Some(PcrSelectSize::ThreeBytes)
        } else if value == 4 {
            Some(PcrSelectSize::FourBytes)
        } else {
            None
        }
    }

    /// The size that stands for `value` bytes; `None` unless `value` is one
    /// to four.
    pub fn from_u8(value: u8) -> (size: Option<PcrSelectSize>)
        ensures
            size == PcrSelectSize::spec_from_u8(value),
    {
        match value {
            1 => Some(PcrSelectSize::OneByte),
            2 => Some(PcrSelectSize::TwoBytes),
            3 => Some(PcrSelectSize::ThreeBytes),
            4 => Some(PcrSelectSize::FourBytes),
            _ => None,
        }
    }

    /// The number of bytes that this size stands for.
    pub fn to_u8(self) -> (value: u8)
        ensures
            value == self.spec_to_u8(),
    {
        match self {
            PcrSelectSize::OneByte => 1,
            PcrSelectSize::TwoBytes => 2,
            PcrSelectSize::ThreeBytes => 3,
            PcrSelectSize::FourBytes => 4,
        }
    }

    /// A size read back from its own number is the same size, and the
    /// numbers that have a size are exactly one to four.
    pub proof fn lemma_u8_round_trip(size: PcrSelectSize, value: u8)
        ensures
            PcrSelectSize::spec_from_u8(size.spec_to_u8()) == Some(size),
            PcrSelectSize::spec_from_u8(value) is Some <==> 1 <= value <= 4,
            PcrSelectSize::spec_from_u8(value) matches Some(s) ==> s.spec_to_u8() == value,
    {
    }
}

/// Three bytes: the size that suits most platforms.
impl Default for PcrSelectSize {
    fn default() -> (size: PcrSelectSize)
        ensures
            size == PcrSelectSize::ThreeBytes,
    {
        PcrSelectSize::ThreeBytes
    }
}

} // verus!
