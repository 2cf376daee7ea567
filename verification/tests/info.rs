use probe_rs_avr::edbg_avr::{DebugProbeSelector, IceFirmwareVersion, PkobnUpdiM4809Info};
use probe_rs_avr::edbg_avr_info::{
    format_hex_bytes, format_info_lines, hex_dump_lines, probe_selection, ProbeSelection,
};
use probe_rs_avr::edbg_avr_read::{region_read_request, Cmd, ReadRequestError, Region, RegionRead};
use probe_rs_avr::read_output::OutputFormat;
use probe_rs_avr::avr::AvrMemoryRegion;
use probe_rs_avr::words::ReadWriteBitWidth;

fn info() -> PkobnUpdiM4809Info {
    PkobnUpdiM4809Info {
        probe_selector: DebugProbeSelector {
            vendor_id: 0x03eb,
            product_id: 0x2175,
            serial_number: Some("MCHP3290".to_string()),
        },
        cmsis_dap_vendor: Some("Microchip".to_string()),
        cmsis_dap_product: None,
        cmsis_dap_serial: Some("MCHP3290".to_string()),
        cmsis_dap_firmware_version: Some("1.10".to_string()),
        cmsis_dap_packet_size: 64,
        ice_serial: Some("ATML3290".to_string()),
        ice_firmware_version: IceFirmwareVersion { hardware: 1, major: 1, minor: 10, release: 22 },
        target_voltage_mv: 3300,
        updi_clock_khz: 750,
        partial_family_id: Some("mega".to_string()),
        sib_string: "megaAVR P:0D:1-3M2".to_string(),
        chip_revision: 0x13,
        signature: [0x1e, 0x96, 0x51],
        lock_byte: 0xc5,
        fuses: vec![0x00, 0x54, 0x02],
        userrow: (0..18).collect(),
        prodsig: vec![0x1e, 0x96, 0x51],
        detected_part: Some("ATmega4809"),
    }
}

#[test]
fn info_report() {
    let i = info();
    let voltage = format!("{:.2}", f32::from(i.target_voltage_mv) / 1000.0);
    let lines = format_info_lines(&i, &voltage);
    assert_eq!(
        lines,
        vec![
            "CMSIS-DAP vendor: Microchip",
            "CMSIS-DAP serial: MCHP3290",
            "CMSIS-DAP firmware: 1.10",
            "CMSIS-DAP packet size: 64 bytes",
            "Probe selector: 03eb:2175:MCHP3290",
            "EDBG serial: ATML3290",
            "EDBG firmware: HW 1 FW 1.10 (rel. 22)",
            "Target voltage: 3.30 V",
            "UPDI clock: 750 kHz",
            "Partial family ID: mega",
            "SIB: megaAVR P:0D:1-3M2",
            "Chip revision: 1.3",
            "Signature: 1e 96 51",
            "Lock byte: c5",
            "Fuses: 00 54 02",
            "USERROW:",
            "  0000: 00 01 02 03 04 05 06 07 08 09 0a 0b 0c 0d 0e 0f",
            "  0010: 10 11",
            "PRODSIG:",
            "  0000: 1e 96 51",
            "Detected part: ATmega4809",
        ]
    );
}

#[test]
fn info_report_without_optional_items() {
    let mut i = info();
    i.cmsis_dap_vendor = None;
    i.cmsis_dap_serial = None;
    i.cmsis_dap_firmware_version = None;
    i.ice_serial = None;
    i.partial_family_id = None;
    i.detected_part = None;
    i.probe_selector.serial_number = None;
    i.fuses = Vec::new();
    i.userrow = Vec::new();
    i.prodsig = Vec::new();
    let lines = format_info_lines(&i, "0.00");
    assert_eq!(lines.len(), 12);
    assert_eq!(lines[8], "Lock byte: c5");
    assert_eq!(lines[9], "Fuses: ");
    assert_eq!(lines[10], "USERROW:");
    assert_eq!(lines[11], "PRODSIG:");
    assert_eq!(lines[1], "Probe selector: 03eb:2175");
    assert_eq!(lines[3], "Target voltage: 0.00 V");
}

#[test]
fn hex_bytes_and_dumps() {
    assert_eq!(format_hex_bytes(&[0x00, 0xab, 0x7f]), "00 ab 7f");
    assert_eq!(format_hex_bytes(&[]), "");
    let data: Vec<u8> = (0..18).collect();
    assert_eq!(
        hex_dump_lines("USERROW", &data),
        vec![
            "USERROW:".to_string(),
            "  0000: 00 01 02 03 04 05 06 07 08 09 0a 0b 0c 0d 0e 0f".to_string(),
            "  0010: 10 11".to_string(),
        ]
    );
    assert_eq!(hex_dump_lines("EMPTY", &[]), vec!["EMPTY:".to_string()]);
}

#[test]
fn probe_selection_decisions() {
    assert_eq!(probe_selection(0, true, false), ProbeSelection::ProbeNotFound);
    assert_eq!(probe_selection(0, false, true), ProbeSelection::NoProbesFound);
    assert_eq!(probe_selection(1, false, true), ProbeSelection::Single);
    assert_eq!(probe_selection(2, true, true), ProbeSelection::MultipleMatched);
    assert_eq!(probe_selection(3, false, true), ProbeSelection::MultipleFound);
    assert_eq!(probe_selection(2, false, false), ProbeSelection::Interactive);
}

#[test]
fn region_read_requests() {
    assert_eq!(Region::Eeprom.memory_region(), AvrMemoryRegion::Eeprom);
    assert_eq!(region_read_request(16, ReadWriteBitWidth::B8, 0x00), Ok((0, 16)));
    assert_eq!(region_read_request(4, ReadWriteBitWidth::B32, 0x10), Ok((0x10, 16)));
    assert_eq!(
        region_read_request(usize::MAX, ReadWriteBitWidth::B16, 0),
        Err(ReadRequestError::LengthOverflow)
    );
    assert_eq!(
        region_read_request(0x8000_0000, ReadWriteBitWidth::B16, 0),
        Err(ReadRequestError::LengthExceeds32Bit)
    );
    assert_eq!(
        region_read_request(1, ReadWriteBitWidth::B8, 0x1_0000_0000),
        Err(ReadRequestError::OffsetExceeds32Bit)
    );
}

fn read_cmd(address: u64, width: ReadWriteBitWidth, words: usize) -> Cmd {
    Cmd {
        non_interactive: true,
        probe: None,
        region: Region::Eeprom,
        address,
        width,
        words,
        output: None,
        format: OutputFormat::HexTable,
    }
}

#[test]
fn read_command_requests() {
    assert_eq!(
        read_cmd(0x00, ReadWriteBitWidth::B8, 16).read_request(),
        Ok(RegionRead { region: AvrMemoryRegion::Eeprom, offset: 0, length: 16 })
    );
    assert_eq!(
        read_cmd(0x20, ReadWriteBitWidth::B64, 3).read_request(),
        Ok(RegionRead { region: AvrMemoryRegion::Eeprom, offset: 0x20, length: 24 })
    );
    assert_eq!(
        read_cmd(0x1_0000_0000, ReadWriteBitWidth::B8, 1).read_request(),
        Err(ReadRequestError::OffsetExceeds32Bit)
    );
    assert_eq!(
        read_cmd(0, ReadWriteBitWidth::B32, 0x4000_0000).read_request(),
        Err(ReadRequestError::LengthExceeds32Bit)
    );
}
