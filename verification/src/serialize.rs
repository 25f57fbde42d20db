//! The binary codec of commands and responses.
//!
//! A packet is a header of fixed size, directly followed by a payload whose
//! shape the header decides. Every integer is little-endian and nothing is
//! padded: a packet has exactly the length that its header asks for.
//!
//! | command header | bytes |
//! |---|---|
//! | `response_gpa` | 8 |
//! | `device_id` | 8 |
//! | `command_id` | 8 |
//!
//! | response header | bytes |
//! |---|---|
//! | `command_id` | 8 |
//! | `result` | 8 |
//! | `tdi_state_before` | 8 |
//! | `tdi_state_after` | 8 |
//!
//! An `Unbind` command carries its reason in 8 bytes and a `GetTdiReport`
//! command its report type in 4; every other command carries nothing. A
//! `GetDeviceInterfaceInfo` response carries the interface information in 24
//! bytes; a `GetTdiReport` response carries the report type in 4 bytes, the
//! length of the report in 8, and then the report. A failed response to one
//! of these two may also carry nothing. Every other response carries
//! nothing.
use crate::command::GuestToHostCommand;
use crate::command::GuestToHostResponse;
use crate::command::GuestToHostResponseView;
use crate::command::ResponsePayloadView;
use crate::command::TdispCommandId;
use crate::command::TdispCommandRequestGetTdiReport;
use crate::command::TdispCommandRequestPayload;
use crate::command::TdispCommandRequestUnbind;
use crate::command::TdispCommandResponseGetTdiReport;
use crate::command::TdispCommandResponsePayload;
use crate::command::TdispDeviceInterfaceInfo;
use crate::state::TdispGuestOperationError;
use crate::state::TdispTdiState;
use crate::wire::put_u32;
use crate::wire::put_u64;
use crate::wire::read_u32;
use crate::wire::read_u32_at;
use crate::wire::read_u64;
use crate::wire::read_u64_at;
use vstd::bytes::lemma_auto_spec_u32_to_from_le_bytes;
use vstd::bytes::lemma_auto_spec_u64_to_from_le_bytes;
use vstd::bytes::spec_u32_from_le_bytes;
use vstd::bytes::spec_u32_to_le_bytes;
use vstd::bytes::spec_u64_from_le_bytes;
use vstd::bytes::spec_u64_to_le_bytes;
use vstd::prelude::*;

verus! {

/// The number of bytes of a command header.
pub const COMMAND_HEADER_LEN: usize = 24;

/// The number of bytes of a response header.
pub const RESPONSE_HEADER_LEN: usize = 32;

/// The number of bytes of the interface information in a response.
pub const INTERFACE_INFO_LEN: usize = 24;

/// The number of bytes that stand before the report in the payload of a
/// `GetTdiReport` response: the type of the report and its length.
pub const REPORT_PREFIX_LEN: usize = 12;

/// The size of the page that a response is handed over in. No response is
/// longer than this.
pub const TDISP_RESPONSE_PAGE_SIZE: usize = 4096;

/// The largest report that a response can carry: what is left of the response
/// page after the response header and the prefix of the report.
pub const TDISP_MAX_REPORT_LEN: usize = 4052;

/// Why bytes could not be decoded.
#[derive(Debug, Copy, Clone, PartialEq, Eq, Structural)]
pub enum DecodeError {
    /// There are fewer bytes than the fixed header has.
    Truncated,
    /// The bytes after the header do not have the shape that the header asks
    /// for.
    PayloadMismatch,
    /// The command id of the header is one to which no payload shape belongs.
    /// Every command id of this revision has its shape, `Unknown` too, so no
    /// bytes give this error: see `law_every_command_id_is_supported`.
    UnsupportedCommand,
    /// The result code of a response header names no result.
    MalformedHeader,
}

/// Serialized form of the header of a `GuestToHostCommand` packet.
#[derive(Debug, Copy, Clone, PartialEq, Eq, Structural)]
pub struct GuestToHostCommandSerializedHeader {
    /// The guest physical address of the response page.
    pub response_gpa: u64,
    /// Device id of the target device.
    pub device_id: u64,
    /// The number of the command id.
    pub command_id: u64,
}

/// Serialized form of the header of a `GuestToHostResponse` packet.
#[derive(Debug, Copy, Clone, PartialEq, Eq, Structural)]
pub struct GuestToHostResponseSerializedHeader {
    /// The number of the command id.
    pub command_id: u64,
    /// The number of the result.
    pub result: u64,
    /// The number of the state before the command.
    pub tdi_state_before: u64,
    /// The number of the state after the command.
    pub tdi_state_after: u64,
}

impl GuestToHostCommandSerializedHeader {
    /// The header of a command.
    pub open spec fn of_command(command: GuestToHostCommand) -> Self {
        GuestToHostCommandSerializedHeader {
            response_gpa: command.response_gpa,
            device_id: command.device_id,
            command_id: command.command_id.code(),
        }
    }

    /// The command that a header stands for, without a payload.
    pub open spec fn command(self) -> GuestToHostCommand {
        GuestToHostCommand {
            response_gpa: self.response_gpa,
            device_id: self.device_id,
            command_id: TdispCommandId::of_code(self.command_id),
            payload: TdispCommandRequestPayload::Empty,
        }
    }

    /// The 24 bytes of the header.
    pub open spec fn bytes(self) -> Seq<u8> {
        spec_u64_to_le_bytes(self.response_gpa) + spec_u64_to_le_bytes(self.device_id)
            + spec_u64_to_le_bytes(self.command_id)
    }

    /// The header that stands at the start of `bytes`, which are at least 24.
    pub open spec fn parse(bytes: Seq<u8>) -> Self {
        GuestToHostCommandSerializedHeader {
            response_gpa: spec_u64_from_le_bytes(bytes.subrange(0, 8)),
            device_id: spec_u64_from_le_bytes(bytes.subrange(8, 16)),
            command_id: spec_u64_from_le_bytes(bytes.subrange(16, 24)),
        }
    }

    /// Appends the 24 bytes of the header to a buffer.
    pub fn write_to(&self, buffer: &mut Vec<u8>)
        ensures
            final(buffer)@ == old(buffer)@ + self.bytes(),
    {
        put_u64(buffer, self.response_gpa);
        put_u64(buffer, self.device_id);
        put_u64(buffer, self.command_id);
        assert(buffer@ =~= old(buffer)@ + self.bytes());
    }

    /// Reads the header that stands at the start of `bytes`, if there are
    /// bytes enough for one.
    pub fn read_from(bytes: &[u8]) -> (header: Option<Self>)
        ensures
            header == if bytes@.len() < COMMAND_HEADER_LEN {
                None
            } else {
                Some(Self::parse(bytes@))
            },
    {
        if bytes.len() < COMMAND_HEADER_LEN {
            return None;
        }
        Some(
            GuestToHostCommandSerializedHeader {
                response_gpa: read_u64_at(bytes, 0),
                device_id: read_u64_at(bytes, 8),
                command_id: read_u64_at(bytes, 16),
            },
        )
    }
}

impl GuestToHostResponseSerializedHeader {
    /// The header of a response.
    pub open spec fn of_response(response: GuestToHostResponseView) -> Self {
        GuestToHostResponseSerializedHeader {
            command_id: response.command_id.code(),
            result: response.result.code(),
            tdi_state_before: response.tdi_state_before.code(),
            tdi_state_after: response.tdi_state_after.code(),
        }
    }

    /// The 32 bytes of the header.
    pub open spec fn bytes(self) -> Seq<u8> {
        spec_u64_to_le_bytes(self.command_id) + spec_u64_to_le_bytes(self.result)
            + spec_u64_to_le_bytes(self.tdi_state_before) + spec_u64_to_le_bytes(
            self.tdi_state_after,
        )
    }

    /// The header that stands at the start of `bytes`, which are at least 32.
    pub open spec fn parse(bytes: Seq<u8>) -> Self {
        GuestToHostResponseSerializedHeader {
            command_id: spec_u64_from_le_bytes(bytes.subrange(0, 8)),
            result: spec_u64_from_le_bytes(bytes.subrange(8, 16)),
            tdi_state_before: spec_u64_from_le_bytes(bytes.subrange(16, 24)),
            tdi_state_after: spec_u64_from_le_bytes(bytes.subrange(24, 32)),
        }
    }

    /// Appends the 32 bytes of the header to a buffer.
    pub fn write_to(&self, buffer: &mut Vec<u8>)
        ensures
            final(buffer)@ == old(buffer)@ + self.bytes(),
    {
        put_u64(buffer, self.command_id);
        put_u64(buffer, self.result);
        put_u64(buffer, self.tdi_state_before);
        put_u64(buffer, self.tdi_state_after);
        assert(buffer@ =~= old(buffer)@ + self.bytes());
    }

    /// Reads the header that stands at the start of `bytes`, if there are
    /// bytes enough for one.
    pub fn read_from(bytes: &[u8]) -> (header: Option<Self>)
        ensures
            header == if bytes@.len() < RESPONSE_HEADER_LEN {
                None
            } else {
                Some(Self::parse(bytes@))
            },
    {
        if bytes.len() < RESPONSE_HEADER_LEN {
            return None;
        }
        Some(
            GuestToHostResponseSerializedHeader {
                command_id: read_u64_at(bytes, 0),
                result: read_u64_at(bytes, 8),
                tdi_state_before: read_u64_at(bytes, 16),
                tdi_state_after: read_u64_at(bytes, 24),
            },
        )
    }
}

impl vstd::std_specs::convert::FromSpecImpl<GuestToHostCommand> for GuestToHostCommandSerializedHeader {
    open spec fn obeys_from_spec() -> bool {
        true
    }

    open spec fn from_spec(value: GuestToHostCommand) -> Self {
        GuestToHostCommandSerializedHeader::of_command(value)
    }
}

impl From<GuestToHostCommand> for GuestToHostCommandSerializedHeader {
    fn from(value: GuestToHostCommand) -> (header: Self)
        ensures
            header == GuestToHostCommandSerializedHeader::of_command(value),
    {
        GuestToHostCommandSerializedHeader {
            response_gpa: value.response_gpa,
            device_id: value.device_id,
            command_id: u64::from(value.command_id),
        }
    }
}

impl vstd::std_specs::convert::FromSpecImpl<GuestToHostCommandSerializedHeader> for GuestToHostCommand {
    open spec fn obeys_from_spec() -> bool {
        true
    }

    open spec fn from_spec(value: GuestToHostCommandSerializedHeader) -> Self {
        value.command()
    }
}

impl From<GuestToHostCommandSerializedHeader> for GuestToHostCommand {
    fn from(value: GuestToHostCommandSerializedHeader) -> (command: Self)
        ensures
            command == value.command(),
    {
        GuestToHostCommand {
            response_gpa: value.response_gpa,
            device_id: value.device_id,
            command_id: TdispCommandId::from(value.command_id),
            payload: TdispCommandRequestPayload::Empty,
        }
    }
}

impl vstd::std_specs::convert::FromSpecImpl<&GuestToHostResponse> for GuestToHostResponseSerializedHeader {
    open spec fn obeys_from_spec() -> bool {
        true
    }

    open spec fn from_spec(value: &GuestToHostResponse) -> Self {
        GuestToHostResponseSerializedHeader::of_response(value@)
    }
}

impl From<&GuestToHostResponse> for GuestToHostResponseSerializedHeader {
    fn from(value: &GuestToHostResponse) -> (header: Self)
        ensures
            header == GuestToHostResponseSerializedHeader::of_response(value@),
    {
        GuestToHostResponseSerializedHeader {
            command_id: u64::from(value.command_id),
            result: u64::from(value.result),
            tdi_state_before: u64::from(value.tdi_state_before),
            tdi_state_after: u64::from(value.tdi_state_after),
        }
    }
}

/// The bytes of the payload of a command.
pub open spec fn command_payload_bytes(payload: TdispCommandRequestPayload) -> Seq<u8> {
    match payload {
        TdispCommandRequestPayload::Empty => Seq::empty(),
        TdispCommandRequestPayload::Unbind(unbind) => spec_u64_to_le_bytes(unbind.unbind_reason),
        TdispCommandRequestPayload::GetTdiReport(report) => spec_u32_to_le_bytes(
            report.report_type,
        ),
    }
}

/// The payload that the bytes after a command header stand for. The command
/// id decides the shape, and the bytes must have exactly its length. A
/// command with the id `Unknown` carries nothing, as `Bind` does.
pub open spec fn parse_command_payload(command_id: TdispCommandId, payload: Seq<u8>) -> Result<
    TdispCommandRequestPayload,
    DecodeError,
> {
    match command_id {
        TdispCommandId::Unbind => if payload.len() == 8 {
            Ok(
                TdispCommandRequestPayload::Unbind(
                    TdispCommandRequestUnbind { unbind_reason: spec_u64_from_le_bytes(payload) },
                ),
            )
        } else {
            Err(DecodeError::PayloadMismatch)
        },
        TdispCommandId::GetTdiReport => if payload.len() == 4 {
            Ok(
                TdispCommandRequestPayload::GetTdiReport(
                    TdispCommandRequestGetTdiReport { report_type: spec_u32_from_le_bytes(payload) },
                ),
            )
        } else {
            Err(DecodeError::PayloadMismatch)
        },
        _ => if payload.len() == 0 {
            Ok(TdispCommandRequestPayload::Empty)
        } else {
            Err(DecodeError::PayloadMismatch)
        },
    }
}

/// The bytes of a command: its header, then its payload.
pub open spec fn command_bytes(command: GuestToHostCommand) -> Seq<u8> {
    GuestToHostCommandSerializedHeader::of_command(command).bytes() + command_payload_bytes(
        command.payload,
    )
}

/// The command that bytes stand for, or the reason why they stand for none:
/// `Truncated` if there are fewer than 24 bytes; else `PayloadMismatch` if
/// the bytes after the header do not have the length of the payload of the
/// command. A number that names no command is read as `Unknown`, which is a
/// command like the others here: the router is the one that refuses it.
pub open spec fn parse_command(bytes: Seq<u8>) -> Result<GuestToHostCommand, DecodeError> {
    if bytes.len() < COMMAND_HEADER_LEN {
        Err(DecodeError::Truncated)
    } else {
        let packet = GuestToHostCommandSerializedHeader::parse(bytes).command();
        match parse_command_payload(
            packet.command_id,
            bytes.subrange(COMMAND_HEADER_LEN as int, bytes.len() as int),
        ) {
            Ok(payload) => Ok(GuestToHostCommand { payload, ..packet }),
            Err(error) => Err(error),
        }
    }
}

/// The 24 bytes of the interface information.
pub open spec fn interface_info_bytes(info: TdispDeviceInterfaceInfo) -> Seq<u8> {
    spec_u32_to_le_bytes(info.interface_version_major) + spec_u32_to_le_bytes(
        info.interface_version_minor,
    ) + spec_u64_to_le_bytes(info.supported_features) + spec_u64_to_le_bytes(info.tdisp_device_id)
}

/// The interface information that 24 bytes stand for.
pub open spec fn parse_interface_info(bytes: Seq<u8>) -> TdispDeviceInterfaceInfo {
    TdispDeviceInterfaceInfo {
        interface_version_major: spec_u32_from_le_bytes(bytes.subrange(0, 4)),
        interface_version_minor: spec_u32_from_le_bytes(bytes.subrange(4, 8)),
        supported_features: spec_u64_from_le_bytes(bytes.subrange(8, 16)),
        tdisp_device_id: spec_u64_from_le_bytes(bytes.subrange(16, 24)),
    }
}

/// The bytes of the payload of a response. A report is preceded by its type
/// and its length.
pub open spec fn response_payload_bytes(payload: ResponsePayloadView) -> Seq<u8> {
    match payload {
        ResponsePayloadView::Empty => Seq::empty(),
        ResponsePayloadView::GetDeviceInterfaceInfo(info) => interface_info_bytes(info),
        ResponsePayloadView::GetTdiReport { report_type, report_buffer } => spec_u32_to_le_bytes(
            report_type,
        ) + spec_u64_to_le_bytes(report_buffer.len() as u64) + report_buffer,
    }
}

/// Whether the bytes after a response header are a report with its prefix:
/// the length that the prefix gives is the length of what follows it, and
/// that is at most `TDISP_MAX_REPORT_LEN`.
pub open spec fn is_report_payload(payload: Seq<u8>) -> bool {
    &&& REPORT_PREFIX_LEN <= payload.len() <= REPORT_PREFIX_LEN + TDISP_MAX_REPORT_LEN
    &&& spec_u64_from_le_bytes(payload.subrange(4, 12)) == payload.len() - REPORT_PREFIX_LEN
}

/// The payload that the bytes after a response header stand for. The command
/// id decides the shape, whatever the result is, and the bytes must have
/// exactly its length. A failed response to `GetDeviceInterfaceInfo` or
/// `GetTdiReport` may also carry nothing; the two shapes are told apart by
/// their length.
pub open spec fn parse_response_payload(
    command_id: TdispCommandId,
    result: TdispGuestOperationError,
    payload: Seq<u8>,
) -> Result<ResponsePayloadView, DecodeError> {
    match command_id {
        TdispCommandId::GetDeviceInterfaceInfo => if payload.len() == INTERFACE_INFO_LEN {
            Ok(ResponsePayloadView::GetDeviceInterfaceInfo(parse_interface_info(payload)))
        } else if payload.len() == 0 && result != TdispGuestOperationError::Success {
            Ok(ResponsePayloadView::Empty)
        } else {
            Err(DecodeError::PayloadMismatch)
        },
        TdispCommandId::GetTdiReport => if is_report_payload(payload) {
            Ok(
                ResponsePayloadView::GetTdiReport {
                    report_type: spec_u32_from_le_bytes(payload.subrange(0, 4)),
                    report_buffer: payload.subrange(REPORT_PREFIX_LEN as int, payload.len() as int),
                },
            )
        } else if payload.len() == 0 && result != TdispGuestOperationError::Success {
            Ok(ResponsePayloadView::Empty)
        } else {
            Err(DecodeError::PayloadMismatch)
        },
        _ => if payload.len() == 0 {
            Ok(ResponsePayloadView::Empty)
        } else {
            Err(DecodeError::PayloadMismatch)
        },
    }
}

/// The bytes of a response: its header, then its payload.
pub open spec fn response_bytes(response: GuestToHostResponseView) -> Seq<u8> {
    GuestToHostResponseSerializedHeader::of_response(response).bytes() + response_payload_bytes(
        response.payload,
    )
}

/// The response that bytes stand for, or the reason why they stand for none:
/// `Truncated` if there are fewer than 32 bytes; else `MalformedHeader` if
/// the result code names no result; else `PayloadMismatch` if the bytes after
/// the header do not have the shape that the command id and the result ask
/// for. A number that names no command is read as `Unknown`.
pub open spec fn parse_response(bytes: Seq<u8>) -> Result<GuestToHostResponseView, DecodeError> {
    if bytes.len() < RESPONSE_HEADER_LEN {
        Err(DecodeError::Truncated)
    } else {
        let header = GuestToHostResponseSerializedHeader::parse(bytes);
        let command_id = TdispCommandId::of_code(header.command_id);
        match TdispGuestOperationError::of_code(header.result) {
            None => Err(DecodeError::MalformedHeader),
            Some(result) => match parse_response_payload(
                command_id,
                result,
                bytes.subrange(RESPONSE_HEADER_LEN as int, bytes.len() as int),
            ) {
                Ok(payload) => Ok(
                    GuestToHostResponseView {
                        command_id,
                        result,
                        tdi_state_before: TdispTdiState::of_code(header.tdi_state_before),
                        tdi_state_after: TdispTdiState::of_code(header.tdi_state_after),
                        payload,
                    },
                ),
                Err(error) => Err(error),
            },
        }
    }
}

/// Whether a command is one that the codec carries: its payload has the
/// shape that the command id allows.
pub open spec fn command_encodable(command: GuestToHostCommand) -> bool {
    command.payload_matches()
}

/// Whether a response is one that the codec carries: its payload has a shape
/// that the command id allows, and a report has at most
/// `TDISP_MAX_REPORT_LEN` bytes.
pub open spec fn response_encodable(response: GuestToHostResponseView) -> bool {
    &&& response.payload_matches()
    &&& response.payload matches ResponsePayloadView::GetTdiReport { report_buffer, .. }
        ==> report_buffer.len() <= TDISP_MAX_REPORT_LEN
}

/// Whether a response is one that a response page carries. In a page the
/// response is followed by whatever the page held before, so a failed
/// response is taken to end with its header: it must carry nothing.
pub open spec fn response_page_readable(response: GuestToHostResponseView) -> bool {
    &&& response_encodable(response)
    &&& response.result != TdispGuestOperationError::Success ==> response.payload is Empty
}

/// A command header is read back from its own bytes, whatever follows them.
pub proof fn lemma_command_header_round_trip(
    header: GuestToHostCommandSerializedHeader,
    rest: Seq<u8>,
)
    ensures
        header.bytes().len() == COMMAND_HEADER_LEN,
        GuestToHostCommandSerializedHeader::parse(header.bytes() + rest) == header,
        (header.bytes() + rest).subrange(
            COMMAND_HEADER_LEN as int,
            (header.bytes() + rest).len() as int,
        ) == rest,
{
    lemma_auto_spec_u64_to_from_le_bytes();
    let bytes = header.bytes() + rest;
    assert(bytes.subrange(0, 8) =~= spec_u64_to_le_bytes(header.response_gpa));
    assert(bytes.subrange(8, 16) =~= spec_u64_to_le_bytes(header.device_id));
    assert(bytes.subrange(16, 24) =~= spec_u64_to_le_bytes(header.command_id));
    assert(bytes.subrange(COMMAND_HEADER_LEN as int, bytes.len() as int) =~= rest);
}

/// A response header is read back from its own bytes, whatever follows them.
pub proof fn lemma_response_header_round_trip(
    header: GuestToHostResponseSerializedHeader,
    rest: Seq<u8>,
)
    ensures
        header.bytes().len() == RESPONSE_HEADER_LEN,
        GuestToHostResponseSerializedHeader::parse(header.bytes() + rest) == header,
        (header.bytes() + rest).subrange(
            RESPONSE_HEADER_LEN as int,
            (header.bytes() + rest).len() as int,
        ) == rest,
{
    lemma_auto_spec_u64_to_from_le_bytes();
    let bytes = header.bytes() + rest;
    assert(bytes.subrange(0, 8) =~= spec_u64_to_le_bytes(header.command_id));
    assert(bytes.subrange(8, 16) =~= spec_u64_to_le_bytes(header.result));
    assert(bytes.subrange(16, 24) =~= spec_u64_to_le_bytes(header.tdi_state_before));
    assert(bytes.subrange(24, 32) =~= spec_u64_to_le_bytes(header.tdi_state_after));
    assert(bytes.subrange(RESPONSE_HEADER_LEN as int, bytes.len() as int) =~= rest);
}

/// The payload of an encodable response is read back from its own bytes.
pub proof fn lemma_response_payload_round_trip(response: GuestToHostResponseView)
    requires
        response_encodable(response),
    ensures
        parse_response_payload(
            response.command_id,
            response.result,
            response_payload_bytes(response.payload),
        ) == Ok::<ResponsePayloadView, DecodeError>(response.payload),
{
    lemma_auto_spec_u64_to_from_le_bytes();
    lemma_auto_spec_u32_to_from_le_bytes();
    let bytes = response_payload_bytes(response.payload);
    match response.payload {
        ResponsePayloadView::Empty => {},
        ResponsePayloadView::GetDeviceInterfaceInfo(info) => {
            assert(bytes.subrange(0, 4) =~= spec_u32_to_le_bytes(info.interface_version_major));
            assert(bytes.subrange(4, 8) =~= spec_u32_to_le_bytes(info.interface_version_minor));
            assert(bytes.subrange(8, 16) =~= spec_u64_to_le_bytes(info.supported_features));
            assert(bytes.subrange(16, 24) =~= spec_u64_to_le_bytes(info.tdisp_device_id));
        },
        ResponsePayloadView::GetTdiReport { report_type, report_buffer } => {
            assert(bytes.subrange(0, 4) =~= spec_u32_to_le_bytes(report_type));
            assert(bytes.subrange(4, 12) =~= spec_u64_to_le_bytes(report_buffer.len() as u64));
            assert(bytes.subrange(REPORT_PREFIX_LEN as int, bytes.len() as int) =~= report_buffer);
        },
    }
}

/// Codec round trip for commands: every command whose payload has the shape
/// that its id allows is read back from its own bytes exactly, payload
/// included. That holds of a command with the id `Unknown` too.
pub proof fn law_command_round_trip(command: GuestToHostCommand)
    requires
        command_encodable(command),
    ensures
        parse_command(command_bytes(command)) == Ok::<GuestToHostCommand, DecodeError>(command),
{
    lemma_auto_spec_u64_to_from_le_bytes();
    lemma_auto_spec_u32_to_from_le_bytes();
    let header = GuestToHostCommandSerializedHeader::of_command(command);
    lemma_command_header_round_trip(header, command_payload_bytes(command.payload));
    command.command_id.lemma_code_round_trip();
}

/// Codec round trip for responses: every response whose payload has a shape
/// that its command id allows, and whose report, if it carries one, has at
/// most `TDISP_MAX_REPORT_LEN` bytes, is read back from its own bytes
/// exactly, payload included, whatever its result is. That holds of the
/// response to a command with the id `Unknown` too.
pub proof fn law_response_round_trip(response: GuestToHostResponseView)
    requires
        response_encodable(response),
    ensures
        parse_response(response_bytes(response)) == Ok::<GuestToHostResponseView, DecodeError>(
            response,
        ),
{
    let header = GuestToHostResponseSerializedHeader::of_response(response);
    lemma_response_header_round_trip(header, response_payload_bytes(response.payload));
    lemma_response_payload_round_trip(response);
    response.command_id.lemma_code_round_trip();
    response.result.lemma_code_round_trip();
    response.tdi_state_before.lemma_code_round_trip();
    response.tdi_state_after.lemma_code_round_trip();
}

/// No packet that decodes is longer than the response page: a response that
/// is read from bytes has at most `TDISP_RESPONSE_PAGE_SIZE` of them.
pub proof fn law_decoded_response_fits_page(bytes: Seq<u8>)
    requires
        parse_response(bytes) is Ok,
    ensures
        bytes.len() <= TDISP_RESPONSE_PAGE_SIZE,
        response_encodable(parse_response(bytes)->Ok_0),
{
}

/// Appends the bytes of the payload of a command to a buffer.
pub fn serialize_command_payload(payload: &TdispCommandRequestPayload, target: &mut Vec<u8>)
    ensures
        final(target)@ == old(target)@ + command_payload_bytes(*payload),
{
    match payload {
        TdispCommandRequestPayload::Empty => {
            assert(target@ =~= old(target)@ + command_payload_bytes(*payload));
        },
        TdispCommandRequestPayload::Unbind(unbind) => put_u64(target, unbind.unbind_reason),
        TdispCommandRequestPayload::GetTdiReport(report) => put_u32(target, report.report_type),
    }
}

/// Reads the payload of a command from the bytes after its header.
pub fn deserialize_command_payload(command_id: TdispCommandId, bytes: &[u8]) -> (res: Result<
    TdispCommandRequestPayload,
    DecodeError,
>)
    ensures
        res == parse_command_payload(command_id, bytes@),
{
    match command_id {
        TdispCommandId::Unbind => match read_u64(bytes) {
            Some(unbind_reason) => Ok(
                TdispCommandRequestPayload::Unbind(TdispCommandRequestUnbind { unbind_reason }),
            ),
            None => Err(DecodeError::PayloadMismatch),
        },
        TdispCommandId::GetTdiReport => match read_u32(bytes) {
            Some(report_type) => Ok(
                TdispCommandRequestPayload::GetTdiReport(
                    TdispCommandRequestGetTdiReport { report_type },
                ),
            ),
            None => Err(DecodeError::PayloadMismatch),
        },
        _ => if bytes.len() == 0 {
            Ok(TdispCommandRequestPayload::Empty)
        } else {
            Err(DecodeError::PayloadMismatch)
        },
    }
}

/// Appends the bytes of the payload of a response to a buffer.
pub fn serialize_payload(payload: &TdispCommandResponsePayload, target: &mut Vec<u8>)
    ensures
        final(target)@ == old(target)@ + response_payload_bytes(payload@),
{
    match payload {
        TdispCommandResponsePayload::Empty => {
            assert(target@ =~= old(target)@ + response_payload_bytes(payload@));
        },
        TdispCommandResponsePayload::GetDeviceInterfaceInfo(info) => {
            put_u32(target, info.interface_version_major);
            put_u32(target, info.interface_version_minor);
            put_u64(target, info.supported_features);
            put_u64(target, info.tdisp_device_id);
            assert(target@ =~= old(target)@ + response_payload_bytes(payload@));
        },
        TdispCommandResponsePayload::GetTdiReport(report) => {
            put_u32(target, report.report_type);
            put_u64(target, report.report_buffer.len() as u64);
            let mut index: usize = 0;
            let ghost prefix = target@;
            while index < report.report_buffer.len()
                invariant
                    index <= report.report_buffer.len(),
                    target@ == prefix + report.report_buffer@.subrange(0, index as int),
                decreases report.report_buffer.len() - index,
            {
                target.push(report.report_buffer[index]);
                index = index + 1;
                assert(target@ =~= prefix + report.report_buffer@.subrange(0, index as int));
            }
            assert(target@ =~= old(target)@ + response_payload_bytes(payload@));
        },
    }
}

/// Reads the payload of a response from the bytes after its header.
pub fn deserialize_payload(
    command_id: TdispCommandId,
    result: TdispGuestOperationError,
    bytes: &[u8],
) -> (res: Result<TdispCommandResponsePayload, DecodeError>)
    ensures
        match res {
            Ok(payload) => parse_response_payload(command_id, result, bytes@) == Ok::<
                ResponsePayloadView,
                DecodeError,
            >(payload@),
            Err(error) => parse_response_payload(command_id, result, bytes@) == Err::<
                ResponsePayloadView,
                DecodeError,
            >(error),
        },
{
    let failed = match result {
        TdispGuestOperationError::Success => false,
        _ => true,
    };
    let len = bytes.len();
    match command_id {
        TdispCommandId::GetDeviceInterfaceInfo => {
            if len == 0 && failed {
                return Ok(TdispCommandResponsePayload::Empty);
            }
            if len != INTERFACE_INFO_LEN {
                return Err(DecodeError::PayloadMismatch);
            }
            Ok(
                TdispCommandResponsePayload::GetDeviceInterfaceInfo(
                    TdispDeviceInterfaceInfo {
                        interface_version_major: read_u32_at(bytes, 0),
                        interface_version_minor: read_u32_at(bytes, 4),
                        supported_features: read_u64_at(bytes, 8),
                        tdisp_device_id: read_u64_at(bytes, 16),
                    },
                ),
            )
        },
        TdispCommandId::GetTdiReport => {
            if len == 0 && failed {
                return Ok(TdispCommandResponsePayload::Empty);
            }
            if len < REPORT_PREFIX_LEN || len - REPORT_PREFIX_LEN > TDISP_MAX_REPORT_LEN {
                return Err(DecodeError::PayloadMismatch);
            }
            let report_len = read_u64_at(bytes, 4);
            if report_len != (len - REPORT_PREFIX_LEN) as u64 {
                return Err(DecodeError::PayloadMismatch);
            }
            let report_type = read_u32_at(bytes, 0);
            let report_buffer = vstd::slice::slice_to_vec(
                vstd::slice::slice_subrange(bytes, REPORT_PREFIX_LEN, len),
            );
            Ok(
                TdispCommandResponsePayload::GetTdiReport(
                    TdispCommandResponseGetTdiReport { report_type, report_buffer },
                ),
            )
        },
        _ => if len == 0 {
            Ok(TdispCommandResponsePayload::Empty)
        } else {
            Err(DecodeError::PayloadMismatch)
        },
    }
}

/// The length of the response packet that stands at the start of `bytes`, as
/// its header and the prefix of its report give it. The bytes may go on after
/// the packet, as they do in a response page, so the length of the bytes
/// cannot tell whether a failed response carries a payload: it is taken to
/// end with its header.
pub open spec fn response_packet_len(bytes: Seq<u8>) -> Result<nat, DecodeError> {
    if bytes.len() < RESPONSE_HEADER_LEN {
        Err(DecodeError::Truncated)
    } else {
        let header = GuestToHostResponseSerializedHeader::parse(bytes);
        let command_id = TdispCommandId::of_code(header.command_id);
        let result = TdispGuestOperationError::of_code(header.result);
        if result is None {
            Err(DecodeError::MalformedHeader)
        } else if result == Some(TdispGuestOperationError::Success) && command_id
            == TdispCommandId::GetDeviceInterfaceInfo {
            Ok((RESPONSE_HEADER_LEN + INTERFACE_INFO_LEN) as nat)
        } else if result == Some(TdispGuestOperationError::Success) && command_id
            == TdispCommandId::GetTdiReport {
            if bytes.len() < RESPONSE_HEADER_LEN + REPORT_PREFIX_LEN {
                Err(DecodeError::Truncated)
            } else {
                let report_len = spec_u64_from_le_bytes(bytes.subrange(36, 44));
                if report_len > TDISP_MAX_REPORT_LEN {
                    Err(DecodeError::PayloadMismatch)
                } else {
                    Ok((RESPONSE_HEADER_LEN + REPORT_PREFIX_LEN + report_len) as nat)
                }
            }
        } else {
            Ok(RESPONSE_HEADER_LEN as nat)
        }
    }
}

/// The response that stands at the start of `bytes`, whatever follows it:
/// `Truncated` if the bytes end before the packet does.
pub open spec fn parse_response_prefix(bytes: Seq<u8>) -> Result<
    GuestToHostResponseView,
    DecodeError,
> {
    match response_packet_len(bytes) {
        Err(error) => Err(error),
        Ok(len) => if len > bytes.len() {
            Err(DecodeError::Truncated)
        } else {
            parse_response(bytes.subrange(0, len as int))
        },
    }
}

/// A response that a page carries is read back from a buffer that starts
/// with its bytes, whatever the buffer holds after them.
pub proof fn law_response_prefix_round_trip(response: GuestToHostResponseView, rest: Seq<u8>)
    requires
        response_page_readable(response),
    ensures
        parse_response_prefix(response_bytes(response) + rest) == Ok::<
            GuestToHostResponseView,
            DecodeError,
        >(response),
{
    lemma_auto_spec_u64_to_from_le_bytes();
    lemma_auto_spec_u32_to_from_le_bytes();
    let header = GuestToHostResponseSerializedHeader::of_response(response);
    let payload = response_payload_bytes(response.payload);
    let packet = response_bytes(response);
    let bytes = packet + rest;
    lemma_response_header_round_trip(header, payload);
    lemma_response_header_round_trip(header, payload + rest);
    assert(bytes =~= header.bytes() + (payload + rest));
    response.command_id.lemma_code_round_trip();
    response.result.lemma_code_round_trip();
    match response.payload {
        ResponsePayloadView::Empty => {},
        ResponsePayloadView::GetDeviceInterfaceInfo(info) => {},
        ResponsePayloadView::GetTdiReport { report_type, report_buffer } => {
            assert(bytes.subrange(36, 44) =~= spec_u64_to_le_bytes(report_buffer.len() as u64));
        },
    }
    assert(bytes.subrange(0, packet.len() as int) =~= packet);
    law_response_round_trip(response);
}

/// Eight zero bytes stand for the number zero.
pub proof fn lemma_zero_bytes_are_zero(bytes: Seq<u8>)
    requires
        bytes.len() == 8,
        forall|i: int| 0 <= i < 8 ==> bytes[i] == 0,
    ensures
        spec_u64_from_le_bytes(bytes) == 0,
{
    lemma_auto_spec_u64_to_from_le_bytes();
    vstd::bytes::spec_u64_to_le_bytes_to_open(0);
    assert(0u64 & 0xff == 0) by (bit_vector);
    assert((0u64 >> 8) & 0xff == 0) by (bit_vector);
    assert((0u64 >> 16) & 0xff == 0) by (bit_vector);
    assert((0u64 >> 24) & 0xff == 0) by (bit_vector);
    assert((0u64 >> 32) & 0xff == 0) by (bit_vector);
    assert((0u64 >> 40) & 0xff == 0) by (bit_vector);
    assert((0u64 >> 48) & 0xff == 0) by (bit_vector);
    assert((0u64 >> 56) & 0xff == 0) by (bit_vector);
    assert(bytes =~= spec_u64_to_le_bytes(0));
}

/// The response that a zeroed buffer stands for: it names the command
/// `Unknown`, and both of its states are `Uninitialized`.
pub open spec fn zeroed_response() -> GuestToHostResponseView {
    GuestToHostResponseView {
        command_id: TdispCommandId::Unknown,
        result: TdispGuestOperationError::Success,
        tdi_state_before: TdispTdiState::Uninitialized,
        tdi_state_after: TdispTdiState::Uninitialized,
        payload: ResponsePayloadView::Empty,
    }
}

/// A buffer that starts with zeros, as a response page does before its first
/// use, reads as `zeroed_response`. That response names the command
/// `Unknown`, so it answers no command that has another id, and it names the
/// state `Uninitialized`, which no device is ever in.
pub proof fn law_zeroed_buffer_reads_as_unknown(bytes: Seq<u8>)
    requires
        bytes.len() >= RESPONSE_HEADER_LEN,
        forall|i: int| 0 <= i < RESPONSE_HEADER_LEN ==> bytes[i] == 0,
    ensures
        parse_response_prefix(bytes) == Ok::<GuestToHostResponseView, DecodeError>(
            zeroed_response(),
        ),
        bytes.len() == RESPONSE_HEADER_LEN ==> parse_response(bytes) == Ok::<
            GuestToHostResponseView,
            DecodeError,
        >(zeroed_response()),
{
    lemma_zero_bytes_are_zero(bytes.subrange(0, 8));
    lemma_zero_bytes_are_zero(bytes.subrange(8, 16));
    lemma_zero_bytes_are_zero(bytes.subrange(16, 24));
    lemma_zero_bytes_are_zero(bytes.subrange(24, 32));
    let packet = bytes.subrange(0, RESPONSE_HEADER_LEN as int);
    assert(packet.subrange(0, 8) =~= bytes.subrange(0, 8));
    assert(packet.subrange(8, 16) =~= bytes.subrange(8, 16));
    assert(packet.subrange(16, 24) =~= bytes.subrange(16, 24));
    assert(packet.subrange(24, 32) =~= bytes.subrange(24, 32));
    if bytes.len() == RESPONSE_HEADER_LEN {
        assert(packet =~= bytes);
    }
}

/// No bytes are refused for their command id: `UnsupportedCommand` is not an
/// error of this revision of the codec. A command id that the router does
/// not know is refused by the router, with `InvalidGuestCommandId`.
pub proof fn law_every_command_id_is_supported(bytes: Seq<u8>)
    ensures
        parse_command(bytes) != Err::<GuestToHostCommand, DecodeError>(
            DecodeError::UnsupportedCommand,
        ),
        parse_response(bytes) != Err::<GuestToHostResponseView, DecodeError>(
            DecodeError::UnsupportedCommand,
        ),
        parse_response_prefix(bytes) != Err::<GuestToHostResponseView, DecodeError>(
            DecodeError::UnsupportedCommand,
        ),
{
}

/// A command header with a number that names no command, and nothing after
/// it, is read as a command with the id `Unknown` and no payload: the header
/// fields are kept as they are.
pub proof fn law_unrecognized_id_reads_as_unknown(header: GuestToHostCommandSerializedHeader)
    requires
        header.command_id == 0 || header.command_id > 5,
    ensures
        parse_command(header.bytes()) == Ok::<GuestToHostCommand, DecodeError>(
            GuestToHostCommand {
                response_gpa: header.response_gpa,
                device_id: header.device_id,
                command_id: TdispCommandId::Unknown,
                payload: TdispCommandRequestPayload::Empty,
            },
        ),
{
    lemma_command_header_round_trip(header, Seq::empty());
    assert(header.bytes() + Seq::<u8>::empty() =~= header.bytes());
}

/// A response that is read from the start of a buffer is one that a page
/// carries.
pub proof fn law_decoded_prefix_is_encodable(bytes: Seq<u8>)
    ensures
        parse_response_prefix(bytes) matches Ok(response) ==> response_page_readable(response),
{
    if let Ok(len) = response_packet_len(bytes) {
        if len <= bytes.len() {
            let packet = bytes.subrange(0, len as int);
            assert(packet.subrange(0, 8) =~= bytes.subrange(0, 8));
            assert(packet.subrange(8, 16) =~= bytes.subrange(8, 16));
            assert(packet.subrange(16, 24) =~= bytes.subrange(16, 24));
            assert(packet.subrange(24, 32) =~= bytes.subrange(24, 32));
            if parse_response(packet) is Ok {
                law_decoded_response_fits_page(packet);
            }
        }
    }
}

/// The number of bytes of the response packet that stands at the start of a
/// buffer.
pub fn response_packet_length(bytes: &[u8]) -> (res: Result<usize, DecodeError>)
    ensures
        match res {
            Ok(len) => response_packet_len(bytes@) == Ok::<nat, DecodeError>(len as nat),
            Err(error) => response_packet_len(bytes@) == Err::<nat, DecodeError>(error),
        },
{
    let header = match GuestToHostResponseSerializedHeader::read_from(bytes) {
        Some(header) => header,
        None => {
            return Err(DecodeError::Truncated);
        },
    };
    let command_id = TdispCommandId::from(header.command_id);
    let result = match TdispGuestOperationError::from_code(header.result) {
        Some(result) => result,
        None => {
            return Err(DecodeError::MalformedHeader);
        },
    };
    if result != TdispGuestOperationError::Success {
        return Ok(RESPONSE_HEADER_LEN);
    }
    match command_id {
        TdispCommandId::GetDeviceInterfaceInfo => Ok(RESPONSE_HEADER_LEN + INTERFACE_INFO_LEN),
        TdispCommandId::GetTdiReport => {
            if bytes.len() < RESPONSE_HEADER_LEN + REPORT_PREFIX_LEN {
                return Err(DecodeError::Truncated);
            }
            let report_len = read_u64_at(bytes, 36);
            if report_len > TDISP_MAX_REPORT_LEN as u64 {
                return Err(DecodeError::PayloadMismatch);
            }
            Ok(RESPONSE_HEADER_LEN + REPORT_PREFIX_LEN + report_len as usize)
        },
        _ => Ok(RESPONSE_HEADER_LEN),
    }
}

/// Reads the response that stands at the start of a buffer, such as a
/// response page. What the buffer holds after the packet is not looked at.
pub fn deserialize_response_prefix(bytes: &[u8]) -> (res: Result<GuestToHostResponse, DecodeError>)
    ensures
        match res {
            Ok(response) => parse_response_prefix(bytes@) == Ok::<
                GuestToHostResponseView,
                DecodeError,
            >(response@),
            Err(error) => parse_response_prefix(bytes@) == Err::<
                GuestToHostResponseView,
                DecodeError,
            >(error),
        },
{
    let len = match response_packet_length(bytes) {
        Ok(len) => len,
        Err(error) => {
            return Err(error);
        },
    };
    if len > bytes.len() {
        return Err(DecodeError::Truncated);
    }
    GuestToHostResponse::deserialize_from_bytes(vstd::slice::slice_subrange(bytes, 0, len))
}

/// A packet that can be turned into bytes and read back from them.
pub trait SerializePacket: Sized {
    /// The bytes of the packet. This always succeeds.
    fn serialize_to_bytes(&self) -> Vec<u8>;

    /// Reads a packet from bytes that hold exactly one.
    fn deserialize_from_bytes(bytes: &[u8]) -> Result<Self, DecodeError>;
}

impl SerializePacket for GuestToHostCommand {
    /// Writes the header, then the payload.
    fn serialize_to_bytes(&self) -> (bytes: Vec<u8>)
        ensures
            bytes@ == command_bytes(*self),
            bytes@.len() == COMMAND_HEADER_LEN + command_payload_bytes(self.payload).len(),
    {
        let header = GuestToHostCommandSerializedHeader::from(*self);
        let mut bytes = Vec::new();
        header.write_to(&mut bytes);
        serialize_command_payload(&self.payload, &mut bytes);
        proof {
            lemma_command_header_round_trip(header, command_payload_bytes(self.payload));
            assert(bytes@ =~= command_bytes(*self));
        }
        bytes
    }

    /// Reads the header, then the payload whose shape the command id
    /// decides. See `parse_command` for the errors.
    fn deserialize_from_bytes(bytes: &[u8]) -> (res: Result<Self, DecodeError>)
        ensures
            res == parse_command(bytes@),
    {
        let header = match GuestToHostCommandSerializedHeader::read_from(bytes) {
            Some(header) => header,
            None => {
                return Err(DecodeError::Truncated);
            },
        };
        let payload_slice = vstd::slice::slice_subrange(bytes, COMMAND_HEADER_LEN, bytes.len());
        let mut packet = GuestToHostCommand::from(header);
        match deserialize_command_payload(packet.command_id, payload_slice) {
            Ok(payload) => {
                packet.payload = payload;
                Ok(packet)
            },
            Err(error) => Err(error),
        }
    }
}

impl SerializePacket for GuestToHostResponse {
    /// Writes the header, then the payload.
    fn serialize_to_bytes(&self) -> (bytes: Vec<u8>)
        ensures
            bytes@ == response_bytes(self@),
            bytes@.len() == RESPONSE_HEADER_LEN + response_payload_bytes(self@.payload).len(),
    {
        let header = GuestToHostResponseSerializedHeader::from(self);
        let mut bytes = Vec::new();
        header.write_to(&mut bytes);
        serialize_payload(&self.payload, &mut bytes);
        proof {
            lemma_response_header_round_trip(header, response_payload_bytes(self@.payload));
            assert(bytes@ =~= response_bytes(self@));
        }
        bytes
    }

    /// Reads the header, then the payload whose shape the command id and the
    /// result decide. See `parse_response` for the errors.
    fn deserialize_from_bytes(bytes: &[u8]) -> (res: Result<Self, DecodeError>)
        ensures
            match res {
                Ok(response) => parse_response(bytes@) == Ok::<
                    GuestToHostResponseView,
                    DecodeError,
                >(response@),
                Err(error) => parse_response(bytes@) == Err::<GuestToHostResponseView, DecodeError>(
                    error,
                ),
            },
    {
        let header = match GuestToHostResponseSerializedHeader::read_from(bytes) {
            Some(header) => header,
            None => {
                return Err(DecodeError::Truncated);
            },
        };
        let command_id = TdispCommandId::from(header.command_id);
        let result = match TdispGuestOperationError::from_code(header.result) {
            Some(result) => result,
            None => {
                return Err(DecodeError::MalformedHeader);
            },
        };
        let payload_slice = vstd::slice::slice_subrange(bytes, RESPONSE_HEADER_LEN, bytes.len());
        match deserialize_payload(command_id, result, payload_slice) {
            Ok(payload) => Ok(
                GuestToHostResponse {
                    command_id,
                    result,
                    tdi_state_before: TdispTdiState::from(header.tdi_state_before),
                    tdi_state_after: TdispTdiState::from(header.tdi_state_after),
                    payload,
                },
            ),
            Err(error) => Err(error),
        }
    }
}

} // verus!
