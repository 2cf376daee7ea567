use probe_rs_avr::read_output::{
    ihex_records, write_hex_table, write_ihex, write_simple_hex, HexRecord, OutputError,
    OutputFormat,
};
use probe_rs_avr::words::ReadWriteBitWidth;

fn text(b: Vec<u8>) -> String {
    String::from_utf8(b).unwrap()
}

#[test]
fn simple_hex_prints_words_most_significant_first() {
    let data = [0x01, 0x02, 0x03, 0x04, 0x05];
    assert_eq!(text(write_simple_hex(ReadWriteBitWidth::B8, &data)), "01 02 03 04 05\n");
    assert_eq!(text(write_simple_hex(ReadWriteBitWidth::B16, &data)), "0201 0403 05\n");
    assert_eq!(text(write_simple_hex(ReadWriteBitWidth::B32, &data)), "04030201 05\n");
    assert_eq!(text(write_simple_hex(ReadWriteBitWidth::B64, &[0xab; 8])), "abababababababab\n");
    assert_eq!(text(write_simple_hex(ReadWriteBitWidth::B8, &[])), "\n");
}

#[test]
fn hex_table_lines_carry_addresses() {
    let data: Vec<u8> = (0..10).collect();
    assert_eq!(
        text(write_hex_table(0x400e1490, ReadWriteBitWidth::B8, &data)),
        "400e1490: 00 01 02 03 04 05 06 07\n400e1498: 08 09\n"
    );
    assert_eq!(
        text(write_hex_table(0x10, ReadWriteBitWidth::B16, &data)),
        "00000010: 0100 0302 0504 0706 0908\n"
    );
    assert_eq!(
        text(write_hex_table(0x1_0000_0000, ReadWriteBitWidth::B32, &[1, 0, 0, 0])),
        "100000000: 00000001\n"
    );
    assert_eq!(text(write_hex_table(0, ReadWriteBitWidth::B8, &[])), "");
}

#[test]
fn ihex_records_split_at_segment_boundaries() {
    let data = vec![0xaa; 4];
    let records = ihex_records(0xfffe, &data).unwrap();
    assert_eq!(
        records,
        vec![
            HexRecord::ExtendedLinearAddress(0),
            HexRecord::Data { offset: 0xfffe, value: vec![0xaa, 0xaa] },
            HexRecord::ExtendedLinearAddress(1),
            HexRecord::Data { offset: 0, value: vec![0xaa, 0xaa] },
            HexRecord::EndOfFile,
        ]
    );
    let long = vec![1u8; 300];
    let records = ihex_records(0x100, &long).unwrap();
    assert_eq!(records.len(), 4);
    assert_eq!(records[1], HexRecord::Data { offset: 0x100, value: vec![1; 255] });
    assert_eq!(records[2], HexRecord::Data { offset: 0x1ff, value: vec![1; 45] });
    assert_eq!(ihex_records(0x1_0000_0000, &[]).unwrap(), vec![HexRecord::EndOfFile]);
    assert_eq!(ihex_records(0xffff_ffff, &[1, 2]), Err(OutputError::HexAddressBeyond32Bit));
    assert!(ihex_records(0xffff_fffe, &[1, 2]).is_ok());
}

#[test]
fn ihex_text() {
    let out = text(write_ihex(0x0010, &[0x48, 0x65, 0x6c, 0x6c, 0x6f]).unwrap());
    assert_eq!(out, ":020000040000FA\n:0500100048656C6C6FF7\n:00000001FF\n");
    assert_eq!(write_ihex(0x1_0000_0000, &[1]), Err(OutputError::HexAddressBeyond32Bit));
}

#[test]
fn format_dispatch() {
    let data = [0x10, 0x20];
    assert_eq!(OutputFormat::Binary.write(0, ReadWriteBitWidth::B8, &data), Ok(vec![0x10, 0x20]));
    assert_eq!(
        text(OutputFormat::SimpleHex.write(0, ReadWriteBitWidth::B16, &data).unwrap()),
        "2010\n"
    );
    assert_eq!(
        text(OutputFormat::HexTable.write(0x20, ReadWriteBitWidth::B8, &data).unwrap()),
        "00000020: 10 20\n"
    );
    assert_eq!(
        text(OutputFormat::Ihex.write(0x20, ReadWriteBitWidth::B8, &data).unwrap()),
        ":020000040000FA\n:020020001020AE\n:00000001FF\n"
    );
}
