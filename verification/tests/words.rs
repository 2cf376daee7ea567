use probe_rs_avr::words::{
    checked_byte_len, ensure_data_in_range, le_bytes_to_u16s, le_bytes_to_u32s, le_bytes_to_u64s,
    u16s_to_le_bytes, u32s_to_le_bytes, u64s_to_le_bytes, u8s_to_le_bytes, values_to_le_bytes,
    ReadWriteBitWidth, ValueOutOfRange,
};

#[test]
fn values_are_encoded_at_the_write_width() {
    let values = [0x1234u64, 0xabcd];
    assert_eq!(values_to_le_bytes(ReadWriteBitWidth::B8, &values), vec![0x34, 0xcd]);
    assert_eq!(values_to_le_bytes(ReadWriteBitWidth::B16, &values), vec![0x34, 0x12, 0xcd, 0xab]);
    assert_eq!(
        values_to_le_bytes(ReadWriteBitWidth::B32, &[0xdeadbeef]),
        vec![0xef, 0xbe, 0xad, 0xde]
    );
    assert_eq!(
        values_to_le_bytes(ReadWriteBitWidth::B64, &[0x0102030405060708]),
        vec![8, 7, 6, 5, 4, 3, 2, 1]
    );
    assert!(values_to_le_bytes(ReadWriteBitWidth::B32, &[]).is_empty());
}

#[test]
fn range_check_reports_first_offender() {
    assert_eq!(ensure_data_in_range(&[0xff, 0x12], ReadWriteBitWidth::B8), Ok(()));
    assert_eq!(
        ensure_data_in_range(&[0x12, 0x100, 0x200], ReadWriteBitWidth::B8),
        Err(ValueOutOfRange { value: 0x100, width: ReadWriteBitWidth::B8 })
    );
    assert_eq!(ensure_data_in_range(&[u64::MAX], ReadWriteBitWidth::B64), Ok(()));
    assert_eq!(
        ensure_data_in_range(&[0x1_0000_0000], ReadWriteBitWidth::B32),
        Err(ValueOutOfRange { value: 0x1_0000_0000, width: ReadWriteBitWidth::B32 })
    );
    assert_eq!(ensure_data_in_range(&[0xffff], ReadWriteBitWidth::B16), Ok(()));
}

#[test]
fn words_read_back_what_was_written() {
    let w16 = [0x1234u16, 0xffee];
    assert_eq!(le_bytes_to_u16s(&u16s_to_le_bytes(&w16)), w16.to_vec());
    let w32 = [0xdeadbeefu32, 7];
    assert_eq!(le_bytes_to_u32s(&u32s_to_le_bytes(&w32)), w32.to_vec());
    let w64 = [u64::MAX, 0x0102030405060708];
    assert_eq!(le_bytes_to_u64s(&u64s_to_le_bytes(&w64)), w64.to_vec());
    assert_eq!(u8s_to_le_bytes(&[1, 2, 3]), vec![1, 2, 3]);
    assert_eq!(le_bytes_to_u16s(&[0x01, 0x02, 0x03, 0x04]), vec![0x0201, 0x0403]);
}

#[test]
fn widths() {
    assert_eq!(ReadWriteBitWidth::B8.byte_width(), 1);
    assert_eq!(ReadWriteBitWidth::B64.byte_width(), 8);
    assert_eq!(ReadWriteBitWidth::B16.bits(), 16);
    assert_eq!(checked_byte_len(4, ReadWriteBitWidth::B32), Some(16));
    assert_eq!(checked_byte_len(usize::MAX, ReadWriteBitWidth::B16), None);
}
