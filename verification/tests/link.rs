use probe_rs_avr::edbg_avr::{Context, DapStatus, EdbgAvrError, ResponseDetails};
use probe_rs_avr::edbg_link::{
    check_command_response, check_connect_response, check_disconnect_status, cleanup_outcome,
    keep_first_error, ConnectResponse, DeviceFraming, EdbgAvrTransport, ReceiveState, Teardown,
};

fn transport(packet_size: usize) -> EdbgAvrTransport {
    EdbgAvrTransport::new(DeviceFraming::V2 { max_packet_size: packet_size })
}

#[test]
fn short_payload_fits_one_fragment() {
    let t = transport(64);
    let packets = t.send_packets(&[0x01, 0x10, 0x00]).unwrap();
    assert_eq!(packets.len(), 1);
    assert_eq!(
        packets[0],
        vec![0x80, 0x11, 0x00, 0x07, 0x0e, 0x00, 0x00, 0x00, 0x01, 0x10, 0x00]
    );
}

#[test]
fn long_payload_is_fragmented_in_order() {
    let t = transport(12);
    let payload: Vec<u8> = (1..=13).collect();
    let packets = t.send_packets(&payload).unwrap();
    // first fragment carries 4 payload bytes, the others up to 8
    assert_eq!(packets.len(), 3);
    assert_eq!(packets[0], vec![0x80, 0x13, 0x00, 0x08, 0x0e, 0x00, 0x00, 0x00, 1, 2, 3, 4]);
    assert_eq!(packets[1], vec![0x80, 0x23, 0x00, 0x08, 5, 6, 7, 8, 9, 10, 11, 12]);
    assert_eq!(packets[2], vec![0x80, 0x33, 0x00, 0x01, 13]);
    let mut carried = Vec::new();
    carried.extend_from_slice(&packets[0][8..]);
    for p in &packets[1..] {
        carried.extend_from_slice(&p[4..]);
    }
    assert_eq!(carried, payload);
    for p in &packets {
        assert!(p.len() <= 12);
    }
}

#[test]
fn empty_payload_is_one_header_only_fragment() {
    let t = transport(8);
    let packets = t.send_packets(&[]).unwrap();
    assert_eq!(packets, vec![vec![0x80, 0x11, 0x00, 0x04, 0x0e, 0x00, 0x00, 0x00]]);
}

#[test]
fn packet_size_below_header_is_refused() {
    let t = transport(7);
    assert_eq!(
        t.send_packets(&[1]),
        Err(EdbgAvrError::UnexpectedResponse {
            context: Context::EdbgSend,
            details: ResponseDetails::PacketSizeTooSmall(7),
        })
    );
}

#[test]
fn too_many_fragments_is_refused() {
    let t = transport(8);
    // 4 bytes per continuation fragment: 1 + 256 fragments needed
    let payload = vec![0u8; 4 * 256];
    assert_eq!(
        t.send_packets(&payload),
        Err(EdbgAvrError::UnexpectedResponse {
            context: Context::EdbgSend,
            details: ResponseDetails::TooManyFragments(257),
        })
    );
}

#[test]
fn oversized_fragment_is_refused() {
    let t = transport(0x20000);
    let payload = vec![0u8; 0x10000];
    assert_eq!(
        t.send_packets(&payload),
        Err(EdbgAvrError::UnexpectedResponse {
            context: Context::EdbgSend,
            details: ResponseDetails::FragmentTooLarge(0x10004),
        })
    );
}

#[test]
fn acks_are_checked() {
    let t = transport(64);
    assert_eq!(t.check_send_ack(&[0x80, 0x01], true), Ok(()));
    assert_eq!(t.check_send_ack(&[0x80], false), Ok(()));
    assert_eq!(
        t.check_send_ack(&[0x81, 0x01], false),
        Err(EdbgAvrError::UnexpectedResponse {
            context: Context::EdbgSendAck,
            details: ResponseDetails::UnexpectedAck(vec![0x81, 0x01]),
        })
    );
    assert_eq!(
        t.check_send_ack(&[], false),
        Err(EdbgAvrError::UnexpectedResponse {
            context: Context::EdbgSendAck,
            details: ResponseDetails::UnexpectedAck(vec![]),
        })
    );
    assert_eq!(
        t.check_send_ack(&[0x80, 0x00], true),
        Err(EdbgAvrError::UnexpectedResponse {
            context: Context::EdbgSendAck,
            details: ResponseDetails::LastFragmentCompletionMissing(vec![0x80, 0x00]),
        })
    );
}

#[test]
fn fragments_are_reassembled() {
    let mut s = ReceiveState::new();
    assert_eq!(s.accept_fragment(&[0x81, 0x12, 0x00, 0x03, 0x0e, 0x00, 0x00]), Ok(false));
    // claimed length longer than what arrived is clamped
    assert_eq!(s.accept_fragment(&[0x81, 0x22, 0x00, 0x09, 0x12, 0x80]), Ok(true));
    assert_eq!(s.collected(), &vec![0x0e, 0x00, 0x00, 0x12, 0x80]);
}

#[test]
fn claimed_length_shorter_than_report_cuts_padding() {
    let mut s = ReceiveState::new();
    assert_eq!(s.accept_fragment(&[0x81, 0x11, 0x00, 0x02, 0xaa, 0xbb, 0x00, 0x00]), Ok(true));
    assert_eq!(s.collected(), &vec![0xaa, 0xbb]);
}

#[test]
fn fragment_faults_are_reported() {
    let mut s = ReceiveState::new();
    assert_eq!(
        s.accept_fragment(&[0x80, 0x11, 0, 0]),
        Err(EdbgAvrError::UnexpectedResponse {
            context: Context::EdbgReceive,
            details: ResponseDetails::UnexpectedPrefix(vec![0x80, 0x11, 0, 0]),
        })
    );
    assert_eq!(
        s.accept_fragment(&[0x81, 0x00]),
        Err(EdbgAvrError::UnexpectedResponse {
            context: Context::EdbgReceive,
            details: ResponseDetails::NoResponseData,
        })
    );
    assert_eq!(
        s.accept_fragment(&[0x81, 0x22, 0, 0]),
        Err(EdbgAvrError::UnexpectedResponse {
            context: Context::EdbgReceive,
            details: ResponseDetails::UnexpectedFragment { expected: 1, received: 2 },
        })
    );
    assert_eq!(s.accept_fragment(&[0x81, 0x13, 0, 1, 0x0e]), Ok(false));
    assert_eq!(
        s.accept_fragment(&[0x81, 0x22, 0, 0]),
        Err(EdbgAvrError::UnexpectedResponse {
            context: Context::EdbgReceive,
            details: ResponseDetails::InconsistentFragmentCount(vec![0x81, 0x22, 0, 0]),
        })
    );
}

#[test]
fn truncated_fragments_are_detected() {
    let s = ReceiveState::new();
    assert!(s.overruns(&[0x81]));
    assert!(s.overruns(&[0x81, 0x11, 0x00]));
    assert!(!s.overruns(&[0x81, 0x21, 0x00]));
    assert!(!s.overruns(&[0x81, 0x11, 0x00, 0x00]));
    assert!(!s.overruns(&[0x80]));
    assert!(!s.overruns(&[0x81, 0x00]));
}

#[test]
fn replies_advance_the_sequence() {
    let mut t = transport(64);
    assert_eq!(t.command_sequence(), 0);
    assert_eq!(t.accept_reply(&[0x0e, 0x05, 0x00, 0x12, 0x80]), Ok(None));
    assert_eq!(t.command_sequence(), 0);
    assert_eq!(t.accept_reply(&[0x0e, 0x00, 0x00, 0x12, 0x80]), Ok(Some(vec![0x12, 0x80])));
    assert_eq!(t.command_sequence(), 1);
    assert_eq!(
        t.accept_reply(&[0x0f, 0x01, 0x00, 0x00]),
        Err(EdbgAvrError::UnexpectedResponse {
            context: Context::EdbgReceive,
            details: ResponseDetails::MalformedResponse(vec![0x0f, 0x01, 0x00, 0x00]),
        })
    );
    assert_eq!(
        t.accept_reply(&[0x0e, 0x01, 0x00]),
        Err(EdbgAvrError::UnexpectedResponse {
            context: Context::EdbgReceive,
            details: ResponseDetails::MalformedResponse(vec![0x0e, 0x01, 0x00]),
        })
    );
}

#[test]
fn sequence_wraps_before_reserved_value() {
    let mut t = transport(64);
    for _ in 0..0xfffe {
        let s = t.command_sequence().to_le_bytes();
        assert!(t.accept_reply(&[0x0e, s[0], s[1], 0x12]).unwrap().is_some());
    }
    assert_eq!(t.command_sequence(), 0xfffe);
    assert_eq!(t.accept_reply(&[0x0e, 0xfe, 0xff, 0x12]), Ok(Some(vec![0x12])));
    assert_eq!(t.command_sequence(), 0);
}

#[test]
fn transfer_frames_follow_the_device_kind() {
    let v1 = EdbgAvrTransport::new(DeviceFraming::V1 { report_size: 8 });
    assert_eq!(v1.transfer_frame(&[0x81]), vec![0, 0x81, 0, 0, 0, 0, 0, 0, 0]);
    assert_eq!(v1.receive_buffer_len(), 9);
    let v2 = transport(8);
    assert_eq!(v2.transfer_frame(&[0x80, 0x11]), vec![0, 0x80, 0x11]);
    assert_eq!(v2.packet_size(), 8);
}

#[test]
fn command_status_is_checked() {
    assert_eq!(
        check_command_response(vec![0x12, 0x80], Context::EnterProgmode),
        Ok(vec![0x12, 0x80])
    );
    assert_eq!(
        check_command_response(vec![0x12], Context::EnterProgmode),
        Err(EdbgAvrError::UnexpectedResponse {
            context: Context::EnterProgmode,
            details: ResponseDetails::ResponseTooShort(vec![0x12]),
        })
    );
    assert_eq!(
        check_command_response(vec![0x12, 0xa0, 0x00, 0x33], Context::AvrSignOn),
        Err(EdbgAvrError::CommandFailed { context: Context::AvrSignOn, code: 0x33 })
    );
    assert_eq!(
        check_command_response(vec![0x12, 0xa0, 0x00], Context::AvrSignOn),
        Err(EdbgAvrError::CommandFailed { context: Context::AvrSignOn, code: 0 })
    );
}

#[test]
fn cmsis_dap_connect_and_disconnect_are_checked() {
    assert_eq!(check_connect_response(ConnectResponse::SuccessfulInitForSWD), Ok(()));
    assert_eq!(
        check_connect_response(ConnectResponse::SuccessfulInitForJTAG),
        Err(EdbgAvrError::UnexpectedResponse {
            context: Context::CmsisDapConnect,
            details: ResponseDetails::ProbeNotInSwdMode,
        })
    );
    assert!(check_connect_response(ConnectResponse::InitFailed).is_err());
    assert_eq!(check_disconnect_status(DapStatus::DapOk), Ok(()));
    assert_eq!(
        check_disconnect_status(DapStatus::DapError),
        Err(EdbgAvrError::UnexpectedResponse {
            context: Context::CmsisDapDisconnect,
            details: ResponseDetails::DisconnectStatus(DapStatus::DapError),
        })
    );
}

#[test]
fn teardown_undoes_session_in_reverse_order() {
    let mut t = transport(64);
    assert!(t.teardown_steps().is_empty());
    t.mark_prepared();
    t.mark_general_signed_on();
    t.mark_avr_signed_on();
    t.mark_programming_enabled();
    let steps = t.teardown_steps();
    assert_eq!(
        steps,
        vec![
            Teardown::LeaveProgmode,
            Teardown::AvrSignOff,
            Teardown::GeneralSignOff,
            Teardown::FinishPrepare
        ]
    );
    let mut first = None;
    for step in steps {
        first = t.finish_teardown(step, Ok(()), first);
    }
    assert!(first.is_none());
    assert!(t.teardown_steps().is_empty());
    assert_eq!(cleanup_outcome(first), Ok(()));
}

#[test]
fn failed_teardown_keeps_step_and_first_error() {
    let mut t = transport(64);
    t.mark_prepared();
    t.mark_general_signed_on();
    let e1 = EdbgAvrError::CommandFailed { context: Context::GeneralSignOff, code: 1 };
    let e2 = EdbgAvrError::Transport("gone".to_string());
    let first = t.finish_teardown(Teardown::GeneralSignOff, Err(e1.clone()), None);
    let first = t.finish_teardown(Teardown::FinishPrepare, Err(e2.clone()), first);
    assert_eq!(first, Some(e1.clone()));
    assert_eq!(t.teardown_steps(), vec![Teardown::GeneralSignOff, Teardown::FinishPrepare]);
    assert_eq!(keep_first_error(None, Err(e2.clone())), Some(e2));
    assert_eq!(cleanup_outcome(first), Err(e1));
}

#[test]
fn teardown_commands() {
    assert_eq!(
        Teardown::LeaveProgmode.command(),
        Some((vec![0x12, 0x16, 0x00], Context::LeaveProgmode))
    );
    assert_eq!(Teardown::AvrSignOff.command(), Some((vec![0x12, 0x11, 0x00], Context::AvrSignOff)));
    assert_eq!(
        Teardown::GeneralSignOff.command(),
        Some((vec![0x01, 0x11, 0x00, 0x00], Context::GeneralSignOff))
    );
    assert_eq!(Teardown::FinishPrepare.command(), None);
}
