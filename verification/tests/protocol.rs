use probe_rs_avr::edbg_avr::{
    get_info_command, get_info_response, get_param_command, get_param_response,
    parse_ice_firmware_version, parse_u16_param, partial_family_id_from_response,
    read_memory_command, read_memory_response, set_param_command, Context, EdbgAvrError,
    IceFirmwareVersion, ResponseDetails,
};
use probe_rs_avr::text::{trim_ascii_nul, trim_probe_string};

#[test]
fn parameter_commands() {
    assert_eq!(get_param_command(0x12, 1, 0x31, 2), vec![0x12, 0x02, 0x00, 0x01, 0x31, 0x02]);
    assert_eq!(
        set_param_command(0x12, 0, 0, &[5]),
        Ok(vec![0x12, 0x01, 0x00, 0x00, 0x00, 0x01, 0x05])
    );
    assert_eq!(
        set_param_command(0x12, 0, 0, &[0u8; 256]),
        Err(EdbgAvrError::UnexpectedResponse {
            context: Context::SetParameter,
            details: ResponseDetails::ValueTooLarge(256),
        })
    );
    assert!(set_param_command(0x12, 0, 0, &[0u8; 255]).is_ok());
    assert_eq!(get_info_command(0x81), vec![0x00, 0x00, 0x00, 0x81]);
    assert_eq!(
        read_memory_command(0xd3, 0x1234_5678, 32),
        vec![0x12, 0x21, 0x00, 0xd3, 0x78, 0x56, 0x34, 0x12, 0x20, 0x00, 0x00, 0x00]
    );
}

#[test]
fn parameter_responses() {
    assert_eq!(get_param_response(&[0x01, 0x84, 0x00, 1, 2, 3], 2), Ok(vec![1, 2]));
    assert_eq!(get_param_response(&[0x01, 0x84, 0x00, 1], 2), Ok(vec![1]));
    assert_eq!(
        get_param_response(&[0x01, 0x84], 2),
        Err(EdbgAvrError::UnexpectedResponse {
            context: Context::GetParameter,
            details: ResponseDetails::UnexpectedResponse(vec![0x01, 0x84]),
        })
    );
    assert_eq!(parse_u16_param(&[0xe4, 0x0c]), Ok(3300));
    assert_eq!(
        parse_u16_param(&[0xe4]),
        Err(EdbgAvrError::UnexpectedResponse {
            context: Context::Get16BitParameter,
            details: ResponseDetails::ExpectedBytes { expected: 2, got: 1 },
        })
    );
    assert_eq!(
        parse_ice_firmware_version(&[7, 1, 2, 0x34, 0x12]),
        Ok(IceFirmwareVersion { hardware: 7, major: 1, minor: 2, release: 0x1234 })
    );
    assert_eq!(read_memory_response(&[0x12, 0x84, 0x00, 9, 8, 7], 2), Ok(vec![9, 8]));
    assert_eq!(
        read_memory_response(&[0x12, 0x80, 0x00, 9], 2),
        Err(EdbgAvrError::UnexpectedResponse {
            context: Context::ReadMemory,
            details: ResponseDetails::UnexpectedResponse(vec![0x12, 0x80, 0x00, 9]),
        })
    );
}

#[test]
fn info_strings() {
    assert_eq!(
        get_info_response(&[0x00, 0x81, 0x00, b'A', b'B', 0, 0]),
        Ok(Some("AB".to_string()))
    );
    assert_eq!(get_info_response(&[0x00, 0x81, 0x00, 0, 0]), Ok(None));
    // invalid UTF-8 is replaced, not refused
    assert_eq!(
        get_info_response(&[0x00, 0x81, 0x00, 0xff, b'x']),
        Ok(Some("\u{fffd}x".to_string()))
    );
}

#[test]
fn probe_strings_are_trimmed() {
    assert_eq!(trim_probe_string(Some("CMSIS\0\0".to_string())), Some("CMSIS".to_string()));
    assert_eq!(trim_probe_string(Some("\0\0".to_string())), None);
    assert_eq!(trim_probe_string(Some(String::new())), None);
    assert_eq!(trim_probe_string(Some("a\0b".to_string())), Some("a\0b".to_string()));
    assert_eq!(trim_probe_string(None), None);
}

#[test]
fn nul_padded_fields_are_trimmed() {
    assert_eq!(trim_ascii_nul(b"megaAVR P:0D  \0\0".to_vec()), "megaAVR P:0D");
    assert_eq!(trim_ascii_nul(vec![0, 0]), "");
    assert_eq!(trim_ascii_nul(vec![b' ', b'a', b'\t', 0]), " a");
    assert_eq!(trim_ascii_nul(vec![0xc3, 0xa9, 0]), "\u{e9}");
    assert_eq!(trim_ascii_nul(vec![b'a', 0xc2, 0xa0, b'\n', 0xe3, 0x80, 0x80, 0]), "a");
    assert_eq!(trim_ascii_nul(vec![b'a', 0xc2, 0xa0, b'b', 0]), "a\u{a0}b");
}

#[test]
fn family_ids() {
    assert_eq!(
        partial_family_id_from_response(&[0x12, 0x84, 0x00, b't', b'i', b'n', b'y']),
        Some("tiny".to_string())
    );
    assert_eq!(
        partial_family_id_from_response(&[0x12, 0x84, 0x00, b'A', b'V', 0, 0, 0xff]),
        Some("AV".to_string())
    );
    assert_eq!(partial_family_id_from_response(&[0x12, 0x84, 0x00, 0, 0, 0, 0]), None);
    assert_eq!(partial_family_id_from_response(&[0x12, 0x80, 0x00, b'a', b'b', b'c', b'd']), None);
    assert_eq!(partial_family_id_from_response(&[0x12, 0x84, 0x00, b'a', b'b', b'c']), None);
}
