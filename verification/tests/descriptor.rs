use probe_rs_avr::edbg_avr::{m4809_updi_device_descriptor, M4809_SIGNATURE};

#[test]
fn m4809_descriptor_matches_expected_layout() {
    let descriptor = m4809_updi_device_descriptor();

    assert_eq!(descriptor.len(), 48);
    assert_eq!(&descriptor[0..2], &0x4000u16.to_le_bytes());
    assert_eq!(descriptor[2], 128);
    assert_eq!(descriptor[3], 64);
    assert_eq!(&descriptor[4..6], &0x1000u16.to_le_bytes());
    assert_eq!(&descriptor[6..8], &0x0f80u16.to_le_bytes());
    assert_eq!(&descriptor[36..38], &0x1100u16.to_le_bytes());
    assert_eq!(descriptor[42], M4809_SIGNATURE[1]);
    assert_eq!(descriptor[43], M4809_SIGNATURE[2]);
    assert_eq!(descriptor[46], 0);
    assert_eq!(descriptor[47], 1);
}
