use tdisp::command::TdispCommandRequestGetTdiReport;
use tdisp::command::TdispCommandRequestUnbind;
use tdisp::command::TdispGuestInterfaceInfo;
use tdisp::serialize::deserialize_command_payload;
use tdisp::serialize::deserialize_payload;
use tdisp::serialize::deserialize_response_prefix;
use tdisp::serialize::response_packet_length;
use tdisp::serialize::serialize_command_payload;
use tdisp::serialize::serialize_payload;
use tdisp::serialize::DecodeError;
use tdisp::serialize::GuestToHostCommandSerializedHeader;
use tdisp::serialize::GuestToHostResponseSerializedHeader;
use tdisp::serialize::SerializePacket;
use tdisp::serialize::COMMAND_HEADER_LEN;
use tdisp::serialize::INTERFACE_INFO_LEN;
use tdisp::serialize::REPORT_PREFIX_LEN;
use tdisp::serialize::RESPONSE_HEADER_LEN;
use tdisp::serialize::TDISP_MAX_REPORT_LEN;
use tdisp::serialize::TDISP_RESPONSE_PAGE_SIZE;
use tdisp::GuestToHostCommand;
use tdisp::GuestToHostResponse;
use tdisp::TdispCommandId;
use tdisp::TdispCommandRequestPayload;
use tdisp::TdispCommandResponseGetTdiReport;
use tdisp::TdispCommandResponsePayload;
use tdisp::TdispDeviceInterfaceInfo;
use tdisp::TdispGuestOperationError;
use tdisp::TdispTdiState;

fn command(command_id: TdispCommandId, payload: TdispCommandRequestPayload) -> GuestToHostCommand {
    GuestToHostCommand {
        response_gpa: 0x0000_0001_2345_6000,
        device_id: 0x0102_0304_0506_0708,
        command_id,
        payload,
    }
}

fn response(
    command_id: TdispCommandId,
    result: TdispGuestOperationError,
    payload: TdispCommandResponsePayload,
) -> GuestToHostResponse {
    GuestToHostResponse {
        command_id,
        result,
        tdi_state_before: TdispTdiState::Unlocked,
        tdi_state_after: TdispTdiState::Locked,
        payload,
    }
}

fn info() -> TdispDeviceInterfaceInfo {
    TdispDeviceInterfaceInfo {
        interface_version_major: 1,
        interface_version_minor: 0x0A0B_0C0D,
        supported_features: 0x1122_3344_5566_7788,
        tdisp_device_id: 9,
    }
}

fn report(len: usize) -> TdispCommandResponsePayload {
    let mut bytes = Vec::new();
    for index in 0..len {
        bytes.push((index % 251) as u8);
    }
    TdispCommandResponsePayload::GetTdiReport(TdispCommandResponseGetTdiReport {
        report_type: 2,
        report_buffer: bytes,
    })
}

#[test]
fn layout_constants() {
    assert_eq!(COMMAND_HEADER_LEN, 24);
    assert_eq!(RESPONSE_HEADER_LEN, 32);
    assert_eq!(INTERFACE_INFO_LEN, 24);
    assert_eq!(REPORT_PREFIX_LEN, 12);
    assert_eq!(TDISP_RESPONSE_PAGE_SIZE, 4096);
    assert_eq!(
        TDISP_MAX_REPORT_LEN,
        TDISP_RESPONSE_PAGE_SIZE - RESPONSE_HEADER_LEN - REPORT_PREFIX_LEN
    );
}

#[test]
fn bind_command_has_the_documented_bytes() {
    let bytes = command(TdispCommandId::Bind, TdispCommandRequestPayload::Empty).serialize_to_bytes();
    assert_eq!(
        bytes,
        vec![
            0x00, 0x60, 0x45, 0x23, 0x01, 0x00, 0x00, 0x00, // response_gpa
            0x08, 0x07, 0x06, 0x05, 0x04, 0x03, 0x02, 0x01, // device_id
            0x02, 0x00, 0x00, 0x00, 0x00, 0x00, 0x00, 0x00, // command_id
        ]
    );
}

#[test]
fn unbind_command_has_the_documented_bytes() {
    let bytes = command(
        TdispCommandId::Unbind,
        TdispCommandRequestPayload::Unbind(TdispCommandRequestUnbind { unbind_reason: 1 }),
    )
    .serialize_to_bytes();
    assert_eq!(bytes.len(), 32);
    assert_eq!(&bytes[16..24], &[5, 0, 0, 0, 0, 0, 0, 0][..]);
    assert_eq!(&bytes[24..32], &[1, 0, 0, 0, 0, 0, 0, 0][..]);
}

#[test]
fn report_command_has_the_documented_bytes() {
    let bytes = command(
        TdispCommandId::GetTdiReport,
        TdispCommandRequestPayload::GetTdiReport(TdispCommandRequestGetTdiReport {
            report_type: 0x0403_0201,
        }),
    )
    .serialize_to_bytes();
    assert_eq!(bytes.len(), 28);
    assert_eq!(&bytes[16..24], &[3, 0, 0, 0, 0, 0, 0, 0][..]);
    assert_eq!(&bytes[24..28], &[1, 2, 3, 4][..]);
}

#[test]
fn commands_round_trip() {
    let commands = [
        command(TdispCommandId::Unknown, TdispCommandRequestPayload::Empty),
        command(TdispCommandId::GetDeviceInterfaceInfo, TdispCommandRequestPayload::Empty),
        command(TdispCommandId::Bind, TdispCommandRequestPayload::Empty),
        command(TdispCommandId::StartTdi, TdispCommandRequestPayload::Empty),
        command(
            TdispCommandId::Unbind,
            TdispCommandRequestPayload::Unbind(TdispCommandRequestUnbind { unbind_reason: 1 }),
        ),
        command(
            TdispCommandId::Unbind,
            TdispCommandRequestPayload::Unbind(TdispCommandRequestUnbind {
                unbind_reason: u64::MAX,
            }),
        ),
        command(
            TdispCommandId::GetTdiReport,
            TdispCommandRequestPayload::GetTdiReport(TdispCommandRequestGetTdiReport {
                report_type: 5,
            }),
        ),
    ];
    for sent in commands {
        assert!(sent.has_matching_payload());
        let bytes = sent.serialize_to_bytes();
        assert_eq!(GuestToHostCommand::deserialize_from_bytes(&bytes), Ok(sent));
    }
}

#[test]
fn command_shorter_than_header_is_truncated() {
    let bytes = command(TdispCommandId::Bind, TdispCommandRequestPayload::Empty).serialize_to_bytes();
    for len in 0..COMMAND_HEADER_LEN {
        assert_eq!(
            GuestToHostCommand::deserialize_from_bytes(&bytes[..len]),
            Err(DecodeError::Truncated)
        );
    }
}

#[test]
fn command_with_unknown_id_decodes() {
    let unknown = command(TdispCommandId::Unknown, TdispCommandRequestPayload::Empty);
    assert_eq!(
        GuestToHostCommand::deserialize_from_bytes(&unknown.serialize_to_bytes()),
        Ok(unknown)
    );
    // A header with device 1 and a number that names no command.
    let mut bytes = Vec::new();
    GuestToHostCommandSerializedHeader { response_gpa: 0, device_id: 1, command_id: 99 }
        .write_to(&mut bytes);
    assert_eq!(
        GuestToHostCommand::deserialize_from_bytes(&bytes),
        Ok(GuestToHostCommand {
            response_gpa: 0,
            device_id: 1,
            command_id: TdispCommandId::Unknown,
            payload: TdispCommandRequestPayload::Empty,
        })
    );
    // Numbers next to the known ones, and a large one.
    let mut bytes = command(TdispCommandId::Bind, TdispCommandRequestPayload::Empty).serialize_to_bytes();
    bytes[16] = 6;
    assert_eq!(
        GuestToHostCommand::deserialize_from_bytes(&bytes),
        Ok(unknown)
    );
    bytes[16] = 2;
    bytes[23] = 1;
    assert_eq!(
        GuestToHostCommand::deserialize_from_bytes(&bytes),
        Ok(unknown)
    );
}

#[test]
fn command_with_unknown_id_carries_no_payload() {
    let mut bytes = command(TdispCommandId::Unknown, TdispCommandRequestPayload::Empty).serialize_to_bytes();
    bytes.push(0);
    assert_eq!(
        GuestToHostCommand::deserialize_from_bytes(&bytes),
        Err(DecodeError::PayloadMismatch)
    );
    let stray = command(
        TdispCommandId::Unknown,
        TdispCommandRequestPayload::Unbind(TdispCommandRequestUnbind { unbind_reason: 1 }),
    );
    assert!(!stray.has_matching_payload());
    assert_eq!(
        GuestToHostCommand::deserialize_from_bytes(&stray.serialize_to_bytes()),
        Err(DecodeError::PayloadMismatch)
    );
}

#[test]
fn command_with_wrong_payload_is_a_mismatch() {
    // A payload where none belongs.
    let stray = command(
        TdispCommandId::Bind,
        TdispCommandRequestPayload::Unbind(TdispCommandRequestUnbind { unbind_reason: 1 }),
    );
    assert!(!stray.has_matching_payload());
    assert_eq!(
        GuestToHostCommand::deserialize_from_bytes(&stray.serialize_to_bytes()),
        Err(DecodeError::PayloadMismatch)
    );
    // No payload where one belongs.
    let bare = command(TdispCommandId::Unbind, TdispCommandRequestPayload::Empty);
    assert!(!bare.has_matching_payload());
    assert_eq!(
        GuestToHostCommand::deserialize_from_bytes(&bare.serialize_to_bytes()),
        Err(DecodeError::PayloadMismatch)
    );
    // The payload of another command.
    let other = command(
        TdispCommandId::GetTdiReport,
        TdispCommandRequestPayload::Unbind(TdispCommandRequestUnbind { unbind_reason: 1 }),
    );
    assert_eq!(
        GuestToHostCommand::deserialize_from_bytes(&other.serialize_to_bytes()),
        Err(DecodeError::PayloadMismatch)
    );
    // One byte too many.
    let mut bytes = command(TdispCommandId::StartTdi, TdispCommandRequestPayload::Empty).serialize_to_bytes();
    bytes.push(0);
    assert_eq!(
        GuestToHostCommand::deserialize_from_bytes(&bytes),
        Err(DecodeError::PayloadMismatch)
    );
}

#[test]
fn command_payloads_alone() {
    let mut target = vec![0xEE];
    serialize_command_payload(
        &TdispCommandRequestPayload::Unbind(TdispCommandRequestUnbind {
            unbind_reason: 0x0807_0605_0403_0201,
        }),
        &mut target,
    );
    assert_eq!(target, vec![0xEE, 1, 2, 3, 4, 5, 6, 7, 8]);
    assert_eq!(
        deserialize_command_payload(TdispCommandId::Unbind, &target[1..]),
        Ok(TdispCommandRequestPayload::Unbind(TdispCommandRequestUnbind {
            unbind_reason: 0x0807_0605_0403_0201
        }))
    );
    assert_eq!(
        deserialize_command_payload(TdispCommandId::Unbind, &target[2..]),
        Err(DecodeError::PayloadMismatch)
    );
    assert_eq!(
        deserialize_command_payload(TdispCommandId::GetTdiReport, &[6, 0, 0, 0]),
        Ok(TdispCommandRequestPayload::GetTdiReport(
            TdispCommandRequestGetTdiReport { report_type: 6 }
        ))
    );
    assert_eq!(
        deserialize_command_payload(TdispCommandId::Bind, &[]),
        Ok(TdispCommandRequestPayload::Empty)
    );
    assert_eq!(
        deserialize_command_payload(TdispCommandId::Unknown, &[]),
        Ok(TdispCommandRequestPayload::Empty)
    );
    assert_eq!(
        deserialize_command_payload(TdispCommandId::Unknown, &[0]),
        Err(DecodeError::PayloadMismatch)
    );
}

#[test]
fn command_header_conversions() {
    let sent = command(
        TdispCommandId::Unbind,
        TdispCommandRequestPayload::Unbind(TdispCommandRequestUnbind { unbind_reason: 1 }),
    );
    let header = GuestToHostCommandSerializedHeader::from(sent);
    assert_eq!(
        header,
        GuestToHostCommandSerializedHeader {
            response_gpa: 0x0000_0001_2345_6000,
            device_id: 0x0102_0304_0506_0708,
            command_id: 5,
        }
    );
    let back = GuestToHostCommand::from(header);
    assert_eq!(back.command_id, TdispCommandId::Unbind);
    assert_eq!(back.device_id, sent.device_id);
    assert_eq!(back.response_gpa, sent.response_gpa);
    assert_eq!(back.payload, TdispCommandRequestPayload::Empty);

    let mut bytes = Vec::new();
    header.write_to(&mut bytes);
    assert_eq!(bytes.len(), 24);
    assert_eq!(GuestToHostCommandSerializedHeader::read_from(&bytes), Some(header));
    assert_eq!(GuestToHostCommandSerializedHeader::read_from(&bytes[..23]), None);
}

#[test]
fn response_header_conversions() {
    let sent = response(
        TdispCommandId::StartTdi,
        TdispGuestOperationError::InvalidDeviceState,
        TdispCommandResponsePayload::Empty,
    );
    let header = GuestToHostResponseSerializedHeader::from(&sent);
    assert_eq!(
        header,
        GuestToHostResponseSerializedHeader {
            command_id: 4,
            result: 1,
            tdi_state_before: 1,
            tdi_state_after: 2,
        }
    );
    let mut bytes = vec![7u8];
    header.write_to(&mut bytes);
    assert_eq!(bytes.len(), 33);
    assert_eq!(GuestToHostResponseSerializedHeader::read_from(&bytes[1..]), Some(header));
    assert_eq!(GuestToHostResponseSerializedHeader::read_from(&bytes[2..]), None);
}

#[test]
fn failed_response_has_the_documented_bytes() {
    let bytes = response(
        TdispCommandId::Bind,
        TdispGuestOperationError::InvalidDeviceState,
        TdispCommandResponsePayload::Empty,
    )
    .serialize_to_bytes();
    assert_eq!(
        bytes,
        vec![
            2, 0, 0, 0, 0, 0, 0, 0, // command_id
            1, 0, 0, 0, 0, 0, 0, 0, // result
            1, 0, 0, 0, 0, 0, 0, 0, // tdi_state_before
            2, 0, 0, 0, 0, 0, 0, 0, // tdi_state_after
        ]
    );
}

#[test]
fn interface_info_response_has_the_documented_bytes() {
    let bytes = response(
        TdispCommandId::GetDeviceInterfaceInfo,
        TdispGuestOperationError::Success,
        TdispCommandResponsePayload::GetDeviceInterfaceInfo(info()),
    )
    .serialize_to_bytes();
    assert_eq!(bytes.len(), 56);
    assert_eq!(
        &bytes[32..],
        &[
            1, 0, 0, 0, // major
            0x0D, 0x0C, 0x0B, 0x0A, // minor
            0x88, 0x77, 0x66, 0x55, 0x44, 0x33, 0x22, 0x11, // features
            9, 0, 0, 0, 0, 0, 0, 0, // device id
        ][..]
    );
}

#[test]
fn report_response_has_the_documented_bytes() {
    let bytes = response(
        TdispCommandId::GetTdiReport,
        TdispGuestOperationError::Success,
        report(3),
    )
    .serialize_to_bytes();
    assert_eq!(bytes.len(), 47);
    assert_eq!(
        &bytes[32..],
        &[
            2, 0, 0, 0, // report type
            3, 0, 0, 0, 0, 0, 0, 0, // report length
            0, 1, 2, // report
        ][..]
    );
}

#[test]
fn responses_round_trip() {
    let responses = [
        response(
            TdispCommandId::Unknown,
            TdispGuestOperationError::InvalidGuestCommandId,
            TdispCommandResponsePayload::Empty,
        ),
        response(
            TdispCommandId::GetDeviceInterfaceInfo,
            TdispGuestOperationError::Success,
            TdispCommandResponsePayload::GetDeviceInterfaceInfo(info()),
        ),
        response(
            TdispCommandId::GetDeviceInterfaceInfo,
            TdispGuestOperationError::NotImplemented,
            TdispCommandResponsePayload::Empty,
        ),
        response(
            TdispCommandId::Bind,
            TdispGuestOperationError::Success,
            TdispCommandResponsePayload::Empty,
        ),
        response(
            TdispCommandId::Bind,
            TdispGuestOperationError::HostFailedToProcessCommand,
            TdispCommandResponsePayload::Empty,
        ),
        response(
            TdispCommandId::StartTdi,
            TdispGuestOperationError::Success,
            TdispCommandResponsePayload::Empty,
        ),
        response(
            TdispCommandId::Unbind,
            TdispGuestOperationError::Success,
            TdispCommandResponsePayload::Empty,
        ),
        // A failed response that carries the payload of its command.
        response(
            TdispCommandId::GetDeviceInterfaceInfo,
            TdispGuestOperationError::NotImplemented,
            TdispCommandResponsePayload::GetDeviceInterfaceInfo(info()),
        ),
        response(
            TdispCommandId::GetTdiReport,
            TdispGuestOperationError::HostFailedToProcessCommand,
            report(64),
        ),
        response(
            TdispCommandId::GetTdiReport,
            TdispGuestOperationError::InvalidGuestAttestationReportState,
            report(0),
        ),
        response(TdispCommandId::GetTdiReport, TdispGuestOperationError::Success, report(0)),
        response(TdispCommandId::GetTdiReport, TdispGuestOperationError::Success, report(777)),
        response(
            TdispCommandId::GetTdiReport,
            TdispGuestOperationError::Success,
            report(TDISP_MAX_REPORT_LEN),
        ),
        response(
            TdispCommandId::GetTdiReport,
            TdispGuestOperationError::InvalidGuestAttestationReportType,
            TdispCommandResponsePayload::Empty,
        ),
    ];
    for sent in responses {
        let bytes = sent.serialize_to_bytes();
        assert!(bytes.len() <= TDISP_RESPONSE_PAGE_SIZE);
        assert_eq!(GuestToHostResponse::deserialize_from_bytes(&bytes), Ok(sent.clone()));
        // The same response at the start of a page. There a failed response
        // ends with its header.
        let mut page = bytes.clone();
        page.resize(TDISP_RESPONSE_PAGE_SIZE, 0x5A);
        if sent.result == TdispGuestOperationError::Success {
            assert_eq!(response_packet_length(&bytes), Ok(bytes.len()));
            assert_eq!(deserialize_response_prefix(&page), Ok(sent));
        } else {
            assert_eq!(response_packet_length(&bytes), Ok(RESPONSE_HEADER_LEN));
            let header_only = GuestToHostResponse {
                payload: TdispCommandResponsePayload::Empty,
                ..sent
            };
            assert_eq!(deserialize_response_prefix(&page), Ok(header_only));
        }
    }
}

#[test]
fn every_state_round_trips_in_a_response() {
    let states = [
        TdispTdiState::Uninitialized,
        TdispTdiState::Unlocked,
        TdispTdiState::Locked,
        TdispTdiState::Run,
        TdispTdiState::Error,
    ];
    for before in states {
        for after in states {
            let sent = GuestToHostResponse {
                command_id: TdispCommandId::Unbind,
                result: TdispGuestOperationError::Success,
                tdi_state_before: before,
                tdi_state_after: after,
                payload: TdispCommandResponsePayload::Empty,
            };
            assert_eq!(sent.state_changed(), before != after);
            assert_eq!(
                GuestToHostResponse::deserialize_from_bytes(&sent.serialize_to_bytes()),
                Ok(sent)
            );
        }
    }
}

#[test]
fn response_shorter_than_header_is_truncated() {
    let bytes = response(
        TdispCommandId::Bind,
        TdispGuestOperationError::Success,
        TdispCommandResponsePayload::Empty,
    )
    .serialize_to_bytes();
    for len in 0..RESPONSE_HEADER_LEN {
        assert_eq!(
            GuestToHostResponse::deserialize_from_bytes(&bytes[..len]),
            Err(DecodeError::Truncated)
        );
        assert_eq!(deserialize_response_prefix(&bytes[..len]), Err(DecodeError::Truncated));
    }
}

#[test]
fn response_with_unknown_id_decodes() {
    let sent = response(
        TdispCommandId::Unknown,
        TdispGuestOperationError::InvalidGuestCommandId,
        TdispCommandResponsePayload::Empty,
    );
    let mut bytes = sent.serialize_to_bytes();
    assert_eq!(GuestToHostResponse::deserialize_from_bytes(&bytes), Ok(sent.clone()));
    assert_eq!(response_packet_length(&bytes), Ok(32));
    // A number that names no command reads as `Unknown`.
    bytes[0] = 200;
    assert_eq!(GuestToHostResponse::deserialize_from_bytes(&bytes), Ok(sent.clone()));
    // A payload does not belong to it, whatever the result.
    bytes.push(1);
    assert_eq!(
        GuestToHostResponse::deserialize_from_bytes(&bytes),
        Err(DecodeError::PayloadMismatch)
    );
    assert_eq!(deserialize_response_prefix(&bytes), Ok(sent));
}

#[test]
fn response_with_unknown_result_is_malformed() {
    let mut bytes = response(
        TdispCommandId::Bind,
        TdispGuestOperationError::Success,
        TdispCommandResponsePayload::Empty,
    )
    .serialize_to_bytes();
    bytes[8] = 8;
    assert_eq!(
        GuestToHostResponse::deserialize_from_bytes(&bytes),
        Err(DecodeError::MalformedHeader)
    );
    assert_eq!(response_packet_length(&bytes), Err(DecodeError::MalformedHeader));
}

#[test]
fn response_with_unknown_state_reads_as_uninitialized() {
    let mut bytes = response(
        TdispCommandId::Bind,
        TdispGuestOperationError::Success,
        TdispCommandResponsePayload::Empty,
    )
    .serialize_to_bytes();
    bytes[24] = 9;
    let read = GuestToHostResponse::deserialize_from_bytes(&bytes).unwrap();
    assert_eq!(read.tdi_state_before, TdispTdiState::Unlocked);
    assert_eq!(read.tdi_state_after, TdispTdiState::Uninitialized);
}

#[test]
fn response_with_wrong_payload_is_a_mismatch() {
    let cases = [
        // The payload of another command on a failed response.
        response(
            TdispCommandId::GetTdiReport,
            TdispGuestOperationError::NotImplemented,
            TdispCommandResponsePayload::GetDeviceInterfaceInfo(info()),
        ),
        response(
            TdispCommandId::Bind,
            TdispGuestOperationError::InvalidDeviceState,
            TdispCommandResponsePayload::GetDeviceInterfaceInfo(info()),
        ),
        // No payload on a successful response that needs one.
        response(
            TdispCommandId::GetDeviceInterfaceInfo,
            TdispGuestOperationError::Success,
            TdispCommandResponsePayload::Empty,
        ),
        response(
            TdispCommandId::GetTdiReport,
            TdispGuestOperationError::Success,
            TdispCommandResponsePayload::Empty,
        ),
        // A payload where none belongs.
        response(
            TdispCommandId::Bind,
            TdispGuestOperationError::Success,
            TdispCommandResponsePayload::GetDeviceInterfaceInfo(info()),
        ),
        response(TdispCommandId::Unbind, TdispGuestOperationError::Success, report(4)),
        // A report that is too long for the response page.
        response(
            TdispCommandId::GetTdiReport,
            TdispGuestOperationError::Success,
            report(TDISP_MAX_REPORT_LEN + 1),
        ),
    ];
    for sent in cases {
        assert_eq!(
            GuestToHostResponse::deserialize_from_bytes(&sent.serialize_to_bytes()),
            Err(DecodeError::PayloadMismatch)
        );
    }
}

#[test]
fn report_whose_length_field_lies_is_a_mismatch() {
    let mut bytes = response(
        TdispCommandId::GetTdiReport,
        TdispGuestOperationError::Success,
        report(16),
    )
    .serialize_to_bytes();
    bytes[36] = 15;
    assert_eq!(
        GuestToHostResponse::deserialize_from_bytes(&bytes),
        Err(DecodeError::PayloadMismatch)
    );
    bytes[36] = 17;
    assert_eq!(
        GuestToHostResponse::deserialize_from_bytes(&bytes),
        Err(DecodeError::PayloadMismatch)
    );
    // Read as a prefix, the packet ends before its report does.
    assert_eq!(deserialize_response_prefix(&bytes), Err(DecodeError::Truncated));
    bytes[36] = 16;
    bytes[38] = 1;
    assert_eq!(deserialize_response_prefix(&bytes), Err(DecodeError::PayloadMismatch));
}

#[test]
fn zeroed_page_reads_as_unknown_and_uninitialized() {
    let zeroed = GuestToHostResponse {
        command_id: TdispCommandId::Unknown,
        result: TdispGuestOperationError::Success,
        tdi_state_before: TdispTdiState::Uninitialized,
        tdi_state_after: TdispTdiState::Uninitialized,
        payload: TdispCommandResponsePayload::Empty,
    };
    let page = vec![0u8; TDISP_RESPONSE_PAGE_SIZE];
    assert_eq!(deserialize_response_prefix(&page), Ok(zeroed.clone()));
    assert_eq!(GuestToHostResponse::deserialize_from_bytes(&page[..32]), Ok(zeroed));
    // Read as one packet, the page is too long for a response without payload.
    assert_eq!(
        GuestToHostResponse::deserialize_from_bytes(&page),
        Err(DecodeError::PayloadMismatch)
    );
}

#[test]
fn packet_length_follows_header() {
    let bare = response(
        TdispCommandId::Bind,
        TdispGuestOperationError::Success,
        TdispCommandResponsePayload::Empty,
    )
    .serialize_to_bytes();
    let mut page = bare.clone();
    page.resize(100, 0xFF);
    assert_eq!(response_packet_length(&page), Ok(32));

    let with_info = response(
        TdispCommandId::GetDeviceInterfaceInfo,
        TdispGuestOperationError::Success,
        TdispCommandResponsePayload::GetDeviceInterfaceInfo(info()),
    )
    .serialize_to_bytes();
    assert_eq!(response_packet_length(&with_info), Ok(56));
    // The length is what the header asks for, also where the bytes end early.
    assert_eq!(response_packet_length(&with_info[..40]), Ok(56));
    assert_eq!(deserialize_response_prefix(&with_info[..40]), Err(DecodeError::Truncated));

    let with_report = response(
        TdispCommandId::GetTdiReport,
        TdispGuestOperationError::Success,
        report(100),
    )
    .serialize_to_bytes();
    assert_eq!(response_packet_length(&with_report), Ok(144));
    assert_eq!(response_packet_length(&with_report[..43]), Err(DecodeError::Truncated));
}

#[test]
fn response_payloads_alone() {
    let mut target = Vec::new();
    serialize_payload(&TdispCommandResponsePayload::Empty, &mut target);
    assert!(target.is_empty());
    serialize_payload(&TdispCommandResponsePayload::GetDeviceInterfaceInfo(info()), &mut target);
    assert_eq!(target.len(), 24);
    assert_eq!(
        deserialize_payload(
            TdispCommandId::GetDeviceInterfaceInfo,
            TdispGuestOperationError::Success,
            &target
        ),
        Ok(TdispCommandResponsePayload::GetDeviceInterfaceInfo(info()))
    );
    assert_eq!(
        deserialize_payload(
            TdispCommandId::GetDeviceInterfaceInfo,
            TdispGuestOperationError::Success,
            &target[..23]
        ),
        Err(DecodeError::PayloadMismatch)
    );
    assert_eq!(
        deserialize_payload(TdispCommandId::Unknown, TdispGuestOperationError::Success, &[]),
        Ok(TdispCommandResponsePayload::Empty)
    );
    assert_eq!(
        deserialize_payload(
            TdispCommandId::Unknown,
            TdispGuestOperationError::InvalidGuestCommandId,
            &[0]
        ),
        Err(DecodeError::PayloadMismatch)
    );
    assert_eq!(
        deserialize_payload(TdispCommandId::Bind, TdispGuestOperationError::Success, &[]),
        Ok(TdispCommandResponsePayload::Empty)
    );
}

#[test]
fn guest_interface_info_holds_a_version() {
    let guest = TdispGuestInterfaceInfo { interface_version_major: 1, interface_version_minor: 0 };
    assert_eq!(guest.interface_version_major, tdisp::TDISP_INTERFACE_VERSION_MAJOR);
    assert_eq!(guest.interface_version_minor, tdisp::TDISP_INTERFACE_VERSION_MINOR);
}

#[test]
fn failed_response_may_carry_the_payload_of_its_command() {
    let with_info = response(
        TdispCommandId::GetDeviceInterfaceInfo,
        TdispGuestOperationError::HostFailedToProcessCommand,
        TdispCommandResponsePayload::GetDeviceInterfaceInfo(info()),
    );
    let bytes = with_info.serialize_to_bytes();
    assert_eq!(bytes.len(), 56);
    assert_eq!(GuestToHostResponse::deserialize_from_bytes(&bytes), Ok(with_info));
    assert_eq!(
        deserialize_payload(
            TdispCommandId::GetDeviceInterfaceInfo,
            TdispGuestOperationError::HostFailedToProcessCommand,
            &bytes[32..]
        ),
        Ok(TdispCommandResponsePayload::GetDeviceInterfaceInfo(info()))
    );
    // Without a payload it is read as well; a successful one is not.
    assert_eq!(
        deserialize_payload(
            TdispCommandId::GetDeviceInterfaceInfo,
            TdispGuestOperationError::HostFailedToProcessCommand,
            &[]
        ),
        Ok(TdispCommandResponsePayload::Empty)
    );
    assert_eq!(
        deserialize_payload(
            TdispCommandId::GetDeviceInterfaceInfo,
            TdispGuestOperationError::Success,
            &[]
        ),
        Err(DecodeError::PayloadMismatch)
    );
    assert_eq!(
        deserialize_payload(
            TdispCommandId::GetTdiReport,
            TdispGuestOperationError::InvalidGuestAttestationReportType,
            &[]
        ),
        Ok(TdispCommandResponsePayload::Empty)
    );
    assert_eq!(
        deserialize_payload(TdispCommandId::GetTdiReport, TdispGuestOperationError::Success, &[]),
        Err(DecodeError::PayloadMismatch)
    );
    assert_eq!(
        deserialize_payload(
            TdispCommandId::GetTdiReport,
            TdispGuestOperationError::InvalidGuestAttestationReportType,
            &[1, 0, 0, 0, 2, 0, 0, 0, 0, 0, 0, 0, 7, 8]
        ),
        Ok(TdispCommandResponsePayload::GetTdiReport(TdispCommandResponseGetTdiReport {
            report_type: 1,
            report_buffer: vec![7, 8],
        }))
    );
}
