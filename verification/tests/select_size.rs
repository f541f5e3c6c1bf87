use pcr_select::PcrSelectSize;

#[test]
fn size_from_out_of_range_is_none() {
    assert_eq!(PcrSelectSize::from_u8(0), None);
    assert_eq!(PcrSelectSize::from_u8(5), None);
    assert_eq!(PcrSelectSize::from_u8(255), None);
}

#[test]
fn size_from_one_to_four() {
    assert_eq!(PcrSelectSize::from_u8(1), Some(PcrSelectSize::OneByte));
    assert_eq!(PcrSelectSize::from_u8(2), Some(PcrSelectSize::TwoBytes));
    assert_eq!(PcrSelectSize::from_u8(3), Some(PcrSelectSize::ThreeBytes));
    assert_eq!(PcrSelectSize::from_u8(4), Some(PcrSelectSize::FourBytes));
}

#[test]
fn size_to_u8_exact() {
    assert_eq!(PcrSelectSize::OneByte.to_u8(), 1);
    assert_eq!(PcrSelectSize::TwoBytes.to_u8(), 2);
    assert_eq!(PcrSelectSize::ThreeBytes.to_u8(), 3);
    assert_eq!(PcrSelectSize::FourBytes.to_u8(), 4);
}

#[test]
fn size_round_trip_over_all_bytes() {
    for value in 0u8..=255 {
        match PcrSelectSize::from_u8(value) {
            Some(size) => {
                assert!((1..=4).contains(&value));
                assert_eq!(size.to_u8(), value);
            }
            None => assert!(value == 0 || value > 4),
        }
    }
}

#[test]
fn default_size_is_three_bytes() {
    assert_eq!(PcrSelectSize::default(), PcrSelectSize::ThreeBytes);
    assert_eq!(PcrSelectSize::default().to_u8(), 3);
}
