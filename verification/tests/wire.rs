use pcr_select::wire::{u32_from_le_bytes, u32_to_le_bytes};
use pcr_select::TPM2_PCR_SELECT_MAX;

#[test]
fn select_array_has_four_bytes() {
    assert_eq!(TPM2_PCR_SELECT_MAX, 4);
}

#[test]
fn to_le_bytes_exact() {
    assert_eq!(u32_to_le_bytes(0x0102_0304), [0x04, 0x03, 0x02, 0x01]);
    assert_eq!(u32_to_le_bytes(0), [0, 0, 0, 0]);
    assert_eq!(u32_to_le_bytes(u32::MAX), [0xFF, 0xFF, 0xFF, 0xFF]);
    assert_eq!(u32_to_le_bytes(0x0000_0100), [0x00, 0x01, 0x00, 0x00]);
}

#[test]
fn from_le_bytes_exact() {
    assert_eq!(u32_from_le_bytes([0x04, 0x03, 0x02, 0x01]), 0x0102_0304);
    assert_eq!(u32_from_le_bytes([0, 0, 0, 0]), 0);
    assert_eq!(u32_from_le_bytes([0xFF, 0xFF, 0xFF, 0xFF]), u32::MAX);
    assert_eq!(u32_from_le_bytes([0x00, 0x00, 0x00, 0x80]), 0x8000_0000);
}

#[test]
fn le_bytes_agree_with_std() {
    let mut value: u32 = 0x9E37_79B9;
    for _ in 0..10_000 {
        assert_eq!(u32_to_le_bytes(value), value.to_le_bytes());
        assert_eq!(u32_from_le_bytes(value.to_le_bytes()), value);
        value = value.wrapping_mul(1_664_525).wrapping_add(1_013_904_223);
    }
}
