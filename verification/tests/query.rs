use probe_rs_avr::edbg_avr::{
    check_supported_probe, Context, DebugProbeSelector, EdbgAvrError, IceFirmwareVersion,
    PkobnUpdiM4809Info, ResponseDetails,
};
use probe_rs_avr::edbg_link::{DeviceFraming, EdbgAvrTransport, Teardown};
use probe_rs_avr::query::QueryStep;

fn selector() -> DebugProbeSelector {
    DebugProbeSelector { vendor_id: 0x03eb, product_id: 0x2175, serial_number: Some("MCHP3290".to_string()) }
}

fn initial() -> PkobnUpdiM4809Info {
    PkobnUpdiM4809Info::initial(
        selector(),
        Some("Microchip".to_string()),
        Some("nEDBG CMSIS-DAP".to_string()),
        Some("MCHP3290".to_string()),
        Some("1.10.22".to_string()),
        64,
    )
}

fn response(step: QueryStep) -> Vec<u8> {
    match step {
        QueryStep::GeneralSignOn => vec![0x01, 0x80, 0x00],
        QueryStep::ReadIceFirmwareVersion => vec![0x01, 0x84, 0x00, 0x01, 0x01, 0x0a, 0x16, 0x00, 0xff],
        QueryStep::ReadIceSerial => {
            let mut r = vec![0x00, 0x81, 0x00];
            r.extend_from_slice(b"MCHP3290021800000000\0\0");
            r
        }
        QueryStep::ReadTargetVoltage => vec![0x01, 0x84, 0x00, 0xe4, 0x0c],
        QueryStep::ReadUpdiClock => vec![0x12, 0x84, 0x00, 0xe8, 0x03],
        QueryStep::AvrSignOn => vec![0x12, 0x84, 0x00, b'm', b'e', b'g', b'a', 0x00],
        QueryStep::ReadSib => {
            let mut r = vec![0x12, 0x84, 0x00];
            let mut sib = b"megaAVR P:0D:1-3M2 (01.59B20.0) ".to_vec();
            sib.resize(32, 0);
            r.extend_from_slice(&sib);
            r
        }
        QueryStep::ReadChipRevision => vec![0x12, 0x84, 0x00, 0x13],
        QueryStep::ReadSignature => vec![0x12, 0x84, 0x00, 0x1e, 0x96, 0x51],
        _ => vec![0x12, 0x80, 0x00],
    }
}

#[test]
fn unsupported_probe_is_refused() {
    let other = DebugProbeSelector { vendor_id: 0x0d28, product_id: 0x0204, serial_number: None };
    assert_eq!(
        check_supported_probe(other.clone()),
        Err(EdbgAvrError::UnsupportedProbe { selector: other })
    );
    assert_eq!(check_supported_probe(selector()), Ok(selector()));
}

#[test]
fn step_commands() {
    assert_eq!(QueryStep::GeneralSignOn.command(), (vec![0x01, 0x10, 0x00], Context::GeneralSignOn));
    assert_eq!(
        QueryStep::ReadIceFirmwareVersion.command(),
        (vec![0x01, 0x02, 0x00, 0x00, 0x00, 0x05], Context::GetParameter)
    );
    assert_eq!(QueryStep::ReadIceSerial.command(), (vec![0x00, 0x00, 0x00, 0x81], Context::GetInfoString));
    assert_eq!(
        QueryStep::SetConnection.command(),
        (vec![0x12, 0x01, 0x00, 0x01, 0x00, 0x01, 0x08], Context::SetParameter)
    );
    let (desc, _) = QueryStep::SetDeviceDescriptor.command();
    assert_eq!(desc.len(), 6 + 48);
    assert_eq!(&desc[..6], &[0x12, 0x01, 0x00, 0x02, 0x00, 48]);
    assert_eq!(QueryStep::AvrSignOn.command(), (vec![0x12, 0x10, 0x00, 0x00], Context::AvrSignOn));
    assert_eq!(
        QueryStep::ReadSib.command(),
        (vec![0x12, 0x21, 0x00, 0xd3, 0, 0, 0, 0, 32, 0, 0, 0], Context::ReadMemory)
    );
    assert_eq!(
        QueryStep::ReadChipRevision.command(),
        (vec![0x12, 0x21, 0x00, 0x20, 0x01, 0x0f, 0, 0, 1, 0, 0, 0], Context::ReadMemory)
    );
    assert_eq!(
        QueryStep::ReadSignature.command(),
        (vec![0x12, 0x21, 0x00, 0xc6, 0x00, 0x11, 0, 0, 3, 0, 0, 0], Context::ReadMemory)
    );
    assert_eq!(QueryStep::EnterProgmode.context(), Context::EnterProgmode);
}

#[test]
fn full_query_fills_the_information_block() {
    let mut t = EdbgAvrTransport::new(DeviceFraming::V2 { max_packet_size: 64 });
    t.mark_prepared();
    let mut info = initial();
    let mut step = Some(QueryStep::first());
    let mut count = 0;
    while let Some(s) = step {
        info = t.finish_query_step(s, response(s), info).unwrap();
        step = s.next();
        count += 1;
    }
    assert_eq!(count, 14);
    assert_eq!(
        info.ice_firmware_version,
        IceFirmwareVersion { hardware: 1, major: 1, minor: 10, release: 22 }
    );
    assert_eq!(info.ice_serial.as_deref(), Some("MCHP3290021800000000"));
    assert_eq!(info.target_voltage_mv, 3300);
    assert_eq!(info.updi_clock_khz, 1000);
    assert_eq!(info.partial_family_id.as_deref(), Some("mega"));
    assert_eq!(info.sib_string, "megaAVR P:0D:1-3M2 (01.59B20.0)");
    assert_eq!(info.chip_revision, 0x13);
    assert_eq!(info.signature, [0x1e, 0x96, 0x51]);
    assert_eq!(info.lock_byte, 0);
    assert!(info.fuses.is_empty() && info.userrow.is_empty() && info.prodsig.is_empty());
    assert_eq!(info.detected_part, Some("ATmega4809"));
    assert_eq!(info.cmsis_dap_vendor.as_deref(), Some("Microchip"));
    assert_eq!(
        t.teardown_steps(),
        vec![Teardown::LeaveProgmode, Teardown::AvrSignOff, Teardown::GeneralSignOff, Teardown::FinishPrepare]
    );
}

#[test]
fn other_signature_is_not_detected() {
    let mut t = EdbgAvrTransport::new(DeviceFraming::V2 { max_packet_size: 64 });
    let info = t
        .finish_query_step(QueryStep::ReadSignature, vec![0x12, 0x84, 0x00, 0x1e, 0x96, 0x52], initial())
        .unwrap();
    assert_eq!(info.signature, [0x1e, 0x96, 0x52]);
    assert_eq!(info.detected_part, None);
}

#[test]
fn step_faults_are_reported() {
    let mut t = EdbgAvrTransport::new(DeviceFraming::V2 { max_packet_size: 64 });
    assert_eq!(
        t.finish_query_step(QueryStep::GeneralSignOn, vec![0x01, 0xa0, 0x00, 0x10], initial()),
        Err(EdbgAvrError::CommandFailed { context: Context::GeneralSignOn, code: 0x10 })
    );
    assert!(t.teardown_steps().is_empty());
    assert_eq!(
        t.finish_query_step(QueryStep::ReadIceFirmwareVersion, vec![0x01, 0x80, 0x00], initial()),
        Err(EdbgAvrError::UnexpectedResponse {
            context: Context::GetParameter,
            details: ResponseDetails::UnexpectedResponse(vec![0x01, 0x80, 0x00]),
        })
    );
    assert_eq!(
        t.finish_query_step(QueryStep::ReadIceFirmwareVersion, vec![0x01, 0x84, 0x00, 1, 2], initial()),
        Err(EdbgAvrError::UnexpectedResponse {
            context: Context::IceFirmwareVersion,
            details: ResponseDetails::ExpectedBytes { expected: 5, got: 2 },
        })
    );
    assert_eq!(
        t.finish_query_step(QueryStep::ReadTargetVoltage, vec![0x01, 0x84, 0x00, 1], initial()),
        Err(EdbgAvrError::UnexpectedResponse {
            context: Context::Get16BitParameter,
            details: ResponseDetails::ExpectedBytes { expected: 2, got: 1 },
        })
    );
    assert_eq!(
        t.finish_query_step(QueryStep::ReadIceSerial, vec![0x00, 0x84, 0x00], initial()),
        Err(EdbgAvrError::UnexpectedResponse {
            context: Context::GetInfoString,
            details: ResponseDetails::UnexpectedResponse(vec![0x00, 0x84, 0x00]),
        })
    );
    assert_eq!(
        t.finish_query_step(QueryStep::ReadChipRevision, vec![0x12, 0x84, 0x00], initial()),
        Err(EdbgAvrError::UnexpectedResponse {
            context: Context::ChipRevision,
            details: ResponseDetails::ExpectedBytes { expected: 1, got: 0 },
        })
    );
    assert_eq!(
        t.finish_query_step(QueryStep::ReadSignature, vec![0x12, 0x84, 0x00, 0x1e], initial()),
        Err(EdbgAvrError::UnexpectedResponse {
            context: Context::SignatureRead,
            details: ResponseDetails::ExpectedBytes { expected: 3, got: 1 },
        })
    );
    assert_eq!(
        t.finish_query_step(QueryStep::ReadSib, vec![0x12], initial()),
        Err(EdbgAvrError::UnexpectedResponse {
            context: Context::ReadMemory,
            details: ResponseDetails::ResponseTooShort(vec![0x12]),
        })
    );
}

#[test]
fn sign_on_without_family_id() {
    let mut t = EdbgAvrTransport::new(DeviceFraming::V2 { max_packet_size: 64 });
    let info = t.finish_query_step(QueryStep::AvrSignOn, vec![0x12, 0x80, 0x00], initial()).unwrap();
    assert_eq!(info.partial_family_id, None);
    assert_eq!(t.teardown_steps(), vec![Teardown::AvrSignOff]);
}
