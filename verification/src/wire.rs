//! The wire structure that carries a PCR selection, and the little-endian
//! packing of its byte array.

use vstd::prelude::*;

verus! {

/// Length of the byte array of a wire selection.
pub const TPM2_PCR_SELECT_MAX: usize = 4;

/// A PCR selection as it travels on the wire: a size field, then a bit mask
/// packed in little-endian order.
#[derive(Debug, Clone, Copy, PartialEq, Eq)]
pub struct TpmsPcrSelect {
    /// How many bytes of `pcr_select` are significant.
    pub size_of_select: u8,
    /// The selection mask, least significant byte first.
    pub pcr_select: [u8; TPM2_PCR_SELECT_MAX],
}

/// The number whose base-256 digits, least significant first, are `bytes`.
pub open spec fn spec_u32_from_le_bytes(bytes: [u8; TPM2_PCR_SELECT_MAX]) -> u32 {
    (bytes[0] + 0x100 * bytes[1] + 0x1_0000 * bytes[2] + 0x100_0000 * bytes[3]) as u32
}

/// The four base-256 digits of `value`, least significant first.
pub open spec fn spec_u32_to_le_bytes(value: u32) -> [u8; TPM2_PCR_SELECT_MAX] {
    [
        (value % 0x100) as u8,
        (value / 0x100 % 0x100) as u8,
        (value / 0x1_0000 % 0x100) as u8,
        (value / 0x100_0000) as u8,
    ]
}

/// Reads a little-endian 32-bit number.
pub fn u32_from_le_bytes(bytes: [u8; TPM2_PCR_SELECT_MAX]) -> (value: u32)
    ensures
        value == spec_u32_from_le_bytes(bytes),
{
    let b0: u32 = bytes[0] as u32;
    let b1: u32 = bytes[1] as u32;
    let b2: u32 = bytes[2] as u32;
    let b3: u32 = bytes[3] as u32;
    b0 + 0x100 * b1 + 0x1_0000 * b2 + 0x100_0000 * b3
}

/// Writes a 32-bit number in little-endian order.
pub fn u32_to_le_bytes(value: u32) -> (bytes: [u8; TPM2_PCR_SELECT_MAX])
    ensures
        bytes == spec_u32_to_le_bytes(value),
{
    [
        (value % 0x100) as u8,
        (value / 0x100 % 0x100) as u8,
        (value / 0x1_0000 % 0x100) as u8,
        (value / 0x100_0000) as u8,
    ]
}

/// Packing a number and reading it back gives the number.
pub proof fn lemma_u32_le_bytes_round_trip(value: u32)
    ensures
        spec_u32_from_le_bytes(spec_u32_to_le_bytes(value)) == value,
{
}

/// Reading four bytes and packing the number again gives the same bytes.
pub proof fn lemma_le_bytes_u32_round_trip(bytes: [u8; TPM2_PCR_SELECT_MAX])
    ensures
        spec_u32_to_le_bytes(spec_u32_from_le_bytes(bytes)) == bytes,
{
    let b0 = bytes[0] as int;
    let b1 = bytes[1] as int;
    let b2 = bytes[2] as int;
    let b3 = bytes[3] as int;
    let high = b2 + 0x100 * b3;
    let mid = b1 + 0x100 * high;
    let value = b0 + 0x100 * mid;
    assert(value == spec_u32_from_le_bytes(bytes));
    assert(value % 0x100 == b0 && value / 0x100 == mid);
    assert(mid % 0x100 == b1 && mid / 0x100 == high);
    assert(high % 0x100 == b2 && high / 0x100 == b3);
}

} // verus!
