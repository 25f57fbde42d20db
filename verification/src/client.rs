//! The guest dispatcher: it turns a command into bytes, hands them to a
//! transport, and decodes the response that the transport brings back.
//!
//! Two kinds of transport carry the bytes: a hypercall, and a response page
//! that guest and host share. The dispatcher is the same for both, and so is
//! what it checks: that the response decodes, that it answers the command
//! that was sent, and that the device did not end in the `Error` state.
use crate::command::GuestToHostCommand;
use crate::command::GuestToHostResponse;
use crate::command::GuestToHostResponseView;
use crate::command::ResponsePayloadView;
use crate::command::TdispCommandId;
use crate::command::TdispCommandRequestGetTdiReport;
use crate::command::TdispCommandRequestPayload;
use crate::command::TdispCommandRequestUnbind;
use crate::command::TdispCommandResponseGetTdiReport;
use crate::command::TdispCommandResponsePayload;
use crate::command::TdispDeviceInterfaceInfo;
use crate::emulator::TdispHostDeviceTarget;
use crate::report::TdispDeviceReportType;
use crate::serialize::command_encodable;
use crate::serialize::deserialize_response_prefix;
use crate::serialize::law_response_prefix_round_trip;
use crate::serialize::parse_response_prefix;
use crate::serialize::response_bytes;
use crate::serialize::response_page_readable;
use crate::serialize::DecodeError;
use crate::serialize::SerializePacket;
use crate::serialize::RESPONSE_HEADER_LEN;
use crate::serialize::TDISP_MAX_REPORT_LEN;
use crate::serialize::TDISP_RESPONSE_PAGE_SIZE;
use crate::state::TdispGuestUnbindReason;
use crate::state::TdispTdiState;
use std::sync::Arc;
use vstd::prelude::*;

verus! {

/// Why a command brought no usable response.
#[derive(Debug)]
pub enum TdispClientError {
    /// The transport could not complete the round trip. The error of the
    /// system call behind it is kept.
    Transport(anyhow::Error),
    /// The bytes that came back are no response.
    Decode(DecodeError),
    /// The response answers another command than the one that was sent. Its
    /// payload is not handed out.
    ResponseMismatch,
    /// The bytes name the state `Uninitialized` as the state before the
    /// command. No device is ever in that state: the host did not write a
    /// response, as in a response page that is still zero.
    NoResponse,
    /// The device ended in the `Error` state.
    DeviceInErrorState,
    /// The response does not carry the payload that the caller asked for.
    UnexpectedPayload,
    /// The response page is smaller than `TDISP_RESPONSE_PAGE_SIZE`.
    ResponsePageTooSmall,
    /// The response page does not start at a page boundary.
    ResponsePageUnaligned,
}

impl TdispClientError {
    /// Whether this is an error that the round trip of one command through a
    /// transport can end in: the transport failed, the bytes that came back
    /// are no response, the response answers another command, or the host
    /// wrote none.
    pub open spec fn ends_round_trip(self) -> bool {
        self is Transport || self is Decode || self is ResponseMismatch || self is NoResponse
    }

    /// Whether this is an error that a command can end in: one of the round
    /// trip, or a device that ended in the `Error` state.
    pub open spec fn ends_command(self) -> bool {
        self.ends_round_trip() || self is DeviceInErrorState
    }

    /// Whether this is an error that a request for a certain payload can end
    /// in: one of the command, or a response with another payload.
    pub open spec fn ends_request(self) -> bool {
        self.ends_command() || self is UnexpectedPayload
    }
}

/// What carries the bytes of a command to the host and the bytes of the
/// response back. A call blocks until the host has answered; one command is
/// under way at a time.
pub trait TdispTransport: Send + Sync {
    /// Hands the bytes of one command to the host.
    fn send_command(&self, command: &[u8]) -> Result<(), anyhow::Error>;

    /// The bytes that the host answered the last command with. They start
    /// with the response and may go on after it.
    fn read_response(&self) -> Result<Vec<u8>, anyhow::Error>;
}

/// What the dispatcher makes of the bytes that a transport brought back for
/// the command `sent`: the response that stands at their start, unless it
/// does not decode, answers another command, or names `Uninitialized` as the
/// state before the command, in this order.
pub open spec fn decoded_response(sent: TdispCommandId, bytes: Seq<u8>) -> Result<
    GuestToHostResponseView,
    DecodeOutcome,
> {
    match parse_response_prefix(bytes) {
        Err(error) => Err(DecodeOutcome::Decode(error)),
        Ok(response) => if response.command_id != sent {
            Err(DecodeOutcome::ResponseMismatch)
        } else if response.tdi_state_before == TdispTdiState::Uninitialized {
            Err(DecodeOutcome::NoResponse)
        } else {
            Ok(response)
        },
    }
}

/// The ways in which bytes that a transport brought back are refused.
pub enum DecodeOutcome {
    /// The bytes are no response.
    Decode(DecodeError),
    /// The response answers another command.
    ResponseMismatch,
    /// The host wrote no response.
    NoResponse,
}

/// Whether an error of the dispatcher is the refusal `outcome`.
pub open spec fn is_refusal(error: TdispClientError, outcome: DecodeOutcome) -> bool {
    match outcome {
        DecodeOutcome::Decode(decode) => error matches TdispClientError::Decode(e) && e == decode,
        DecodeOutcome::ResponseMismatch => error is ResponseMismatch,
        DecodeOutcome::NoResponse => error is NoResponse,
    }
}

/// Whether a response is one that the dispatcher hands out for the command
/// `sent`: it answers that command, a device wrote it, and a page carries it.
pub open spec fn answers(response: GuestToHostResponseView, sent: TdispCommandId) -> bool {
    &&& response.command_id == sent
    &&& response.tdi_state_before != TdispTdiState::Uninitialized
    &&& response_page_readable(response)
}

/// Response identity. Of a buffer that starts with the bytes of a response,
/// the dispatcher hands out nothing but `ResponseMismatch` if the response
/// answers another command than the one that was sent. If it answers that
/// command, the dispatcher hands it out, unless it names `Uninitialized` as
/// the state before the command.
pub proof fn law_response_identity(
    sent: TdispCommandId,
    response: GuestToHostResponseView,
    rest: Seq<u8>,
)
    requires
        response_page_readable(response),
    ensures
        response.command_id != sent ==> decoded_response(sent, response_bytes(response) + rest)
            == Err::<GuestToHostResponseView, DecodeOutcome>(DecodeOutcome::ResponseMismatch),
        answers(response, sent) ==> decoded_response(sent, response_bytes(response) + rest)
            == Ok::<GuestToHostResponseView, DecodeOutcome>(response),
        response.command_id == sent && response.tdi_state_before == TdispTdiState::Uninitialized
            ==> decoded_response(sent, response_bytes(response) + rest) == Err::<
            GuestToHostResponseView,
            DecodeOutcome,
        >(DecodeOutcome::NoResponse),
{
    law_response_prefix_round_trip(response, rest);
}

/// A response page that the host never wrote to answers no command: a
/// buffer that starts with zeros is refused, whatever command was sent. It
/// reads as a response to `Unknown`, so it is refused with `ResponseMismatch`
/// for every other command, and with `NoResponse` for `Unknown` itself.
pub proof fn law_unanswered_page_is_refused(sent: TdispCommandId, bytes: Seq<u8>)
    requires
        bytes.len() >= RESPONSE_HEADER_LEN,
        forall|i: int| 0 <= i < RESPONSE_HEADER_LEN ==> bytes[i] == 0,
    ensures
        decoded_response(sent, bytes) == Err::<GuestToHostResponseView, DecodeOutcome>(
            if sent == TdispCommandId::Unknown {
                DecodeOutcome::NoResponse
            } else {
                DecodeOutcome::ResponseMismatch
            },
        ),
{
    crate::serialize::law_zeroed_buffer_reads_as_unknown(bytes);
}

/// Decodes the bytes that a transport brought back for the command `sent`,
/// and checks that the response answers that command. A response to another
/// command is refused with `ResponseMismatch`, and nothing of it is returned.
/// A response that names `Uninitialized` as the state before the command is
/// refused with `NoResponse`: the host never wrote it.
pub fn decode_response(sent: TdispCommandId, bytes: &[u8]) -> (res: Result<
    GuestToHostResponse,
    TdispClientError,
>)
    ensures
        match res {
            Ok(response) => decoded_response(sent, bytes@) == Ok::<
                GuestToHostResponseView,
                DecodeOutcome,
            >(response@),
            Err(error) => decoded_response(sent, bytes@) is Err && is_refusal(
                error,
                decoded_response(sent, bytes@)->Err_0,
            ),
        },
{
    match deserialize_response_prefix(bytes) {
        Err(error) => Err(TdispClientError::Decode(error)),
        Ok(response) => {
            if response.command_id != sent {
                return Err(TdispClientError::ResponseMismatch);
            }
            if response.tdi_state_before == TdispTdiState::Uninitialized {
                return Err(TdispClientError::NoResponse);
            }
            Ok(response)
        },
    }
}

/// What the dispatcher makes of the answer of a transport to the command
/// `sent`. A failure of the transport is passed on as `Transport`, with the
/// error of the transport in it; bytes are decoded as `decode_response` does.
pub fn response_from_transport(sent: TdispCommandId, answer: Result<Vec<u8>, anyhow::Error>) -> (res:
    Result<GuestToHostResponse, TdispClientError>)
    ensures
        match answer {
            Err(failure) => res matches Err(TdispClientError::Transport(error)) && error
                == failure,
            Ok(bytes) => match res {
                Ok(response) => decoded_response(sent, bytes@) == Ok::<
                    GuestToHostResponseView,
                    DecodeOutcome,
                >(response@),
                Err(error) => decoded_response(sent, bytes@) is Err && is_refusal(
                    error,
                    decoded_response(sent, bytes@)->Err_0,
                ),
            },
        },
        match res {
            Ok(response) => answers(response@, sent),
            Err(error) => error.ends_round_trip(),
        },
{
    match answer {
        Ok(bytes) => {
            proof {
                crate::serialize::law_decoded_prefix_is_encodable(bytes@);
            }
            decode_response(sent, bytes.as_slice())
        },
        Err(error) => Err(TdispClientError::Transport(error)),
    }
}

/// Refuses a response that says that the device ended in the `Error` state.
pub fn check_device_state(response: GuestToHostResponse) -> (res: Result<
    GuestToHostResponse,
    TdispClientError,
>)
    ensures
        response.tdi_state_after == TdispTdiState::Error ==> res matches Err(
            TdispClientError::DeviceInErrorState,
        ),
        response.tdi_state_after != TdispTdiState::Error ==> (res matches Ok(kept) && kept
            == response),
{
    if response.tdi_state_after == TdispTdiState::Error {
        return Err(TdispClientError::DeviceInErrorState);
    }
    Ok(response)
}

/// The interface information that a response carries. A response with any
/// other payload is refused with `UnexpectedPayload`.
pub fn interface_info_of(response: &GuestToHostResponse) -> (res: Result<
    TdispDeviceInterfaceInfo,
    TdispClientError,
>)
    ensures
        match response@.payload {
            ResponsePayloadView::GetDeviceInterfaceInfo(info) => res matches Ok(found) && found
                == info,
            _ => res matches Err(TdispClientError::UnexpectedPayload),
        },
{
    match &response.payload {
        TdispCommandResponsePayload::GetDeviceInterfaceInfo(info) => Ok(*info),
        _ => Err(TdispClientError::UnexpectedPayload),
    }
}

/// Accepts a response that carries no payload. A response with a payload is
/// refused with `UnexpectedPayload`.
pub fn expect_no_payload(response: &GuestToHostResponse) -> (res: Result<(), TdispClientError>)
    ensures
        match response@.payload {
            ResponsePayloadView::Empty => res is Ok,
            _ => res matches Err(TdispClientError::UnexpectedPayload),
        },
{
    match &response.payload {
        TdispCommandResponsePayload::Empty => Ok(()),
        _ => Err(TdispClientError::UnexpectedPayload),
    }
}

/// The report that a response carries. A response with any other payload is
/// refused with `UnexpectedPayload`.
pub fn report_of(response: GuestToHostResponse) -> (res: Result<
    TdispCommandResponseGetTdiReport,
    TdispClientError,
>)
    ensures
        match response@.payload {
            ResponsePayloadView::GetTdiReport { report_type, report_buffer } => res matches Ok(
                found,
            ) && found.report_type == report_type && found.report_buffer@ == report_buffer,
            _ => res matches Err(TdispClientError::UnexpectedPayload),
        },
{
    match response.payload {
        TdispCommandResponsePayload::GetTdiReport(report) => Ok(report),
        _ => Err(TdispClientError::UnexpectedPayload),
    }
}

/// Whether a buffer at `gpa` with `size` bytes can serve as a response page:
/// it starts at a page boundary and holds at least
/// `TDISP_RESPONSE_PAGE_SIZE` bytes.
pub open spec fn response_page_usable(gpa: u64, size: usize) -> bool {
    size >= TDISP_RESPONSE_PAGE_SIZE && gpa % (TDISP_RESPONSE_PAGE_SIZE as u64) == 0
}

/// The response page of a shared-page transport: where it lies in guest
/// physical memory and how many bytes it holds. One can only be made of a
/// buffer that can serve as a response page.
#[derive(Debug, Copy, Clone, PartialEq, Eq)]
pub struct TdispResponsePage {
    gpa: u64,
    size: usize,
}

impl TdispResponsePage {
    #[verifier::type_invariant]
    spec fn usable(self) -> bool {
        response_page_usable(self.gpa, self.size)
    }

    /// The guest physical address of the page, as a value.
    pub closed spec fn spec_gpa(self) -> u64 {
        self.gpa
    }

    /// The number of bytes of the page, as a value.
    pub closed spec fn spec_size(self) -> usize {
        self.size
    }

    /// Registers a buffer as a response page. A buffer that is smaller than
    /// `TDISP_RESPONSE_PAGE_SIZE` is refused, never cut short, and so is one
    /// that does not start at a page boundary.
    pub fn new(gpa: u64, size: usize) -> (res: Result<TdispResponsePage, TdispClientError>)
        ensures
            size < TDISP_RESPONSE_PAGE_SIZE ==> res matches Err(
                TdispClientError::ResponsePageTooSmall,
            ),
            size >= TDISP_RESPONSE_PAGE_SIZE && !response_page_usable(gpa, size) ==> res matches Err(
                TdispClientError::ResponsePageUnaligned,
            ),
            response_page_usable(gpa, size) ==> (res matches Ok(page) && page.spec_gpa() == gpa
                && page.spec_size() == size),
    {
        if size < TDISP_RESPONSE_PAGE_SIZE {
            return Err(TdispClientError::ResponsePageTooSmall);
        }
        if gpa % (TDISP_RESPONSE_PAGE_SIZE as u64) != 0 {
            return Err(TdispClientError::ResponsePageUnaligned);
        }
        Ok(TdispResponsePage { gpa, size })
    }

    /// The guest physical address of the page: what a command names as its
    /// response target.
    pub fn gpa(&self) -> (gpa: u64)
        ensures
            gpa == self.spec_gpa(),
            gpa % (TDISP_RESPONSE_PAGE_SIZE as u64) == 0,
    {
        proof {
            use_type_invariant(self);
        }
        self.gpa
    }

    /// The number of bytes of the page.
    pub fn size(&self) -> (size: usize)
        ensures
            size == self.spec_size(),
            size >= TDISP_RESPONSE_PAGE_SIZE,
    {
        proof {
            use_type_invariant(self);
        }
        self.size
    }
}

/// The response target that a command names: the address of the response
/// page, or zero where the transport uses none.
pub fn response_target(page: Option<TdispResponsePage>) -> (gpa: u64)
    ensures
        gpa == match page {
            Some(page) => page.spec_gpa(),
            None => 0,
        },
        gpa % (TDISP_RESPONSE_PAGE_SIZE as u64) == 0,
{
    match page {
        Some(page) => page.gpa(),
        None => 0,
    }
}

/// A response page as it is before its first use: `TDISP_RESPONSE_PAGE_SIZE`
/// bytes, all zero. It reads as a response to the command `Unknown` with the
/// state `Uninitialized`, so a response that never arrived is told from one
/// that did: see `law_unanswered_page_is_refused`.
pub fn zeroed_response_page() -> (page: Vec<u8>)
    ensures
        page@ == Seq::new(TDISP_RESPONSE_PAGE_SIZE as nat, |i: int| 0u8),
{
    let mut page: Vec<u8> = Vec::new();
    let mut index: usize = 0;
    while index < TDISP_RESPONSE_PAGE_SIZE
        invariant
            index <= TDISP_RESPONSE_PAGE_SIZE,
            page@ == Seq::new(index as nat, |i: int| 0u8),
        decreases TDISP_RESPONSE_PAGE_SIZE - index,
    {
        page.push(0u8);
        index = index + 1;
        assert(page@ =~= Seq::new(index as nat, |i: int| 0u8));
    }
    page
}

/// A device on the guest side that can send a command to the host.
pub trait TdispClientDevice: Send + Sync {
    /// Send a command to the host for this device.
    fn tdisp_command_to_host(&self, command: GuestToHostCommand) -> Result<(), anyhow::Error>;
}

/// A device assigned to a guest partition. Through it the guest sends
/// commands to the host.
pub trait ClientDevice: Send + Sync {
    /// Send a command to the host through the backing transport.
    fn tdisp_command_to_host(&self, command: GuestToHostCommand) -> Result<
        GuestToHostResponse,
        TdispClientError,
    >;

    /// Checks if the device is capable of the protocol and returns the device
    /// interface info if so.
    fn tdisp_get_device_interface_info(&self) -> Result<TdispDeviceInterfaceInfo, TdispClientError>;

    /// Bind the device to the current partition and transition to `Locked`.
    fn tdisp_bind_interface(&self) -> Result<(), TdispClientError>;
}

/// Where host devices that dispatch guest commands are registered.
pub trait RegisterTdisp: Send {
    /// Registers a capable device on the host.
    fn register(&mut self, target: Arc<dyn TdispHostDeviceTarget>);
}

/// A registry that keeps nothing.
pub struct TestTdispRegisterNoOp {}

impl RegisterTdisp for TestTdispRegisterNoOp {
    fn register(&mut self, target: Arc<dyn TdispHostDeviceTarget>) {
    }
}

/// The commands that are sent to a device through the virtual PCI channel.
pub trait VpciTdispInterface: Send + Sync {
    /// Sends a command to the device through the channel.
    fn send_tdisp_command(&self, payload: GuestToHostCommand) -> Result<
        GuestToHostResponse,
        anyhow::Error,
    >;

    /// Get the interface info for the device.
    fn tdisp_get_device_interface_info(&self) -> Result<TdispDeviceInterfaceInfo, anyhow::Error>;

    /// Request the device to bind to the current partition and transition to
    /// `Locked`.
    fn tdisp_bind_interface(&self) -> Result<(), anyhow::Error>;

    /// Request to unbind the device and return to the `Unlocked` state.
    fn tdisp_unbind(&self, reason: TdispGuestUnbindReason) -> Result<(), anyhow::Error>;
}

/// The command by which a guest asks for an unbind with `reason`.
pub fn unbind_command(reason: TdispGuestUnbindReason) -> (command: GuestToHostCommand)
    ensures
        command == (GuestToHostCommand {
            response_gpa: 0,
            device_id: 0,
            command_id: TdispCommandId::Unbind,
            payload: TdispCommandRequestPayload::Unbind(
                TdispCommandRequestUnbind { unbind_reason: reason.code() },
            ),
        }),
        command_encodable(command),
{
    GuestToHostCommand {
        response_gpa: 0,
        device_id: 0,
        command_id: TdispCommandId::Unbind,
        payload: TdispCommandRequestPayload::Unbind(
            TdispCommandRequestUnbind { unbind_reason: u64::from(reason) },
        ),
    }
}

/// The command by which a guest asks for the report `report_type`.
pub fn report_command(report_type: &TdispDeviceReportType) -> (command: GuestToHostCommand)
    ensures
        command == (GuestToHostCommand {
            response_gpa: 0,
            device_id: 0,
            command_id: TdispCommandId::GetTdiReport,
            payload: TdispCommandRequestPayload::GetTdiReport(
                TdispCommandRequestGetTdiReport { report_type: report_type.code() },
            ),
        }),
        command_encodable(command),
{
    GuestToHostCommand {
        response_gpa: 0,
        device_id: 0,
        command_id: TdispCommandId::GetTdiReport,
        payload: TdispCommandRequestPayload::GetTdiReport(
            TdispCommandRequestGetTdiReport { report_type: u32::from(report_type) },
        ),
    }
}

/// The guest dispatcher of one assigned device, over the transport `T`.
pub struct TdispOpenHclClientDevice<T: TdispTransport> {
    transport: T,
    response_page: Option<TdispResponsePage>,
}

impl<T: TdispTransport> TdispOpenHclClientDevice<T> {
    /// The transport that the dispatcher sends its commands through, as a
    /// value.
    pub closed spec fn spec_transport(self) -> T {
        self.transport
    }

    /// The response page that the transport has registered with the host, if
    /// it uses one, as a value.
    pub closed spec fn spec_response_page(self) -> Option<TdispResponsePage> {
        self.response_page
    }

    /// What the dispatcher names as the response target of every command:
    /// the address of its response page, or zero if it has none.
    pub open spec fn spec_response_target(self) -> u64 {
        match self.spec_response_page() {
            Some(page) => page.spec_gpa(),
            None => 0,
        }
    }

    /// A dispatcher that sends its commands through `transport`, whose
    /// responses come back in `response_page` if the transport uses one.
    pub fn new(transport: T, response_page: Option<TdispResponsePage>) -> (device: Self)
        ensures
            device.spec_transport() == transport,
            device.spec_response_page() == response_page,
    {
        Self { transport, response_page }
    }

    /// The response page of the dispatcher, if it has one.
    pub fn response_page(&self) -> (page: Option<TdispResponsePage>)
        ensures
            page == self.spec_response_page(),
    {
        self.response_page
    }

    /// The transport that the dispatcher sends its commands through.
    pub fn transport(&self) -> (transport: &T)
        ensures
            *transport == self.spec_transport(),
    {
        &self.transport
    }

    /// Sends a command to the host and returns the response that came back
    /// for it. The response target of the command is set to the address of
    /// the response page of the dispatcher, or to zero if it has none;
    /// nothing else of the command changes. A response that is returned
    /// answers the command that was sent.
    pub fn send_command_to_host(&self, command: &mut GuestToHostCommand) -> (res: Result<
        GuestToHostResponse,
        TdispClientError,
    >)
        ensures
            final(command).device_id == old(command).device_id,
            final(command).command_id == old(command).command_id,
            final(command).payload == old(command).payload,
            final(command).response_gpa == self.spec_response_target(),
            final(command).response_gpa % (TDISP_RESPONSE_PAGE_SIZE as u64) == 0,
            match res {
                Ok(response) => answers(response@, old(command).command_id),
                Err(error) => error.ends_round_trip(),
            },
    {
        command.response_gpa = response_target(self.response_page);
        let bytes = command.serialize_to_bytes();
        match self.transport.send_command(bytes.as_slice()) {
            Ok(()) => self.read_response(command),
            Err(error) => Err(TdispClientError::Transport(error)),
        }
    }

    /// Reads the response to a command that was sent from the transport,
    /// decodes it and checks that it answers that command: the result is what
    /// `response_from_transport` makes of the answer of the transport. A
    /// response that is returned answers the command and is one that the
    /// codec carries. The read fails only if the transport failed, if the
    /// bytes are no response, or, with `ResponseMismatch`, if the response
    /// answers another command.
    pub fn read_response(&self, command: &GuestToHostCommand) -> (res: Result<
        GuestToHostResponse,
        TdispClientError,
    >)
        ensures
            match res {
                Ok(response) => answers(response@, command.command_id),
                Err(error) => error.ends_round_trip(),
            },
    {
        response_from_transport(command.command_id, self.transport.read_response())
    }

    /// Sends a command that carries no payload, for device zero, as
    /// `tdisp_command_to_host` does. A response that is returned answers the
    /// command id that was given.
    pub fn tdisp_command_no_args(&self, command_id: TdispCommandId) -> (res: Result<
        GuestToHostResponse,
        TdispClientError,
    >)
        ensures
            match res {
                Ok(response) => answers(response@, command_id) && response.tdi_state_after
                    != TdispTdiState::Error,
                Err(error) => error.ends_command(),
            },
    {
        self.tdisp_command_to_host(
            GuestToHostCommand {
                // The transport fills in the response target.
                response_gpa: 0,
                device_id: 0,
                command_id,
                payload: TdispCommandRequestPayload::Empty,
            },
        )
    }

    /// Start the bound device: transition it to `Run`. The response must
    /// carry no payload; its result code is not looked at.
    pub fn tdisp_start_device(&self) -> (res: Result<(), TdispClientError>)
        ensures
            res matches Err(error) ==> error.ends_request(),
    {
        match self.tdisp_command_no_args(TdispCommandId::StartTdi) {
            Ok(response) => expect_no_payload(&response),
            Err(error) => Err(error),
        }
    }

    /// Unbind the device and return it to `Unlocked`. The response must carry
    /// no payload; its result code is not looked at.
    pub fn tdisp_unbind(&self, reason: TdispGuestUnbindReason) -> (res: Result<
        (),
        TdispClientError,
    >)
        ensures
            res matches Err(error) ==> error.ends_request(),
    {
        match self.tdisp_command_to_host(unbind_command(reason)) {
            Ok(response) => expect_no_payload(&response),
            Err(error) => Err(error),
        }
    }

    /// Get a report of the device from the host. The response must carry a
    /// report, which has at most `TDISP_MAX_REPORT_LEN` bytes.
    pub fn tdisp_get_tdi_report(&self, report_type: &TdispDeviceReportType) -> (res: Result<
        TdispCommandResponseGetTdiReport,
        TdispClientError,
    >)
        ensures
            match res {
                Ok(report) => report.report_buffer@.len() <= TDISP_MAX_REPORT_LEN,
                Err(error) => error.ends_request(),
            },
    {
        match self.tdisp_command_to_host(report_command(report_type)) {
            Ok(response) => report_of(response),
            Err(error) => Err(error),
        }
    }
}

impl<T: TdispTransport> ClientDevice for TdispOpenHclClientDevice<T> {
    /// Sends the command, reads the response that was written for it, and
    /// refuses a response that says that the device ended in the `Error`
    /// state. A response that is returned answers the command that was sent.
    fn tdisp_command_to_host(&self, command: GuestToHostCommand) -> (res: Result<
        GuestToHostResponse,
        TdispClientError,
    >)
        ensures
            match res {
                Ok(response) => answers(response@, command.command_id)
                    && response.tdi_state_after != TdispTdiState::Error,
                Err(error) => error.ends_command(),
            },
    {
        let mut command = command;
        match self.send_command_to_host(&mut command) {
            Ok(_) => {},
            Err(error) => {
                return Err(error);
            },
        }
        // The response has now been written to the response buffer.
        let response = match self.read_response(&command) {
            Ok(response) => response,
            Err(error) => {
                return Err(error);
            },
        };
        check_device_state(response)
    }

    /// Asks the device for its interface info. The response must carry it.
    fn tdisp_get_device_interface_info(&self) -> (res: Result<
        TdispDeviceInterfaceInfo,
        TdispClientError,
    >)
        ensures
            res matches Err(error) ==> error.ends_request(),
    {
        match self.tdisp_command_no_args(TdispCommandId::GetDeviceInterfaceInfo) {
            Ok(response) => interface_info_of(&response),
            Err(error) => Err(error),
        }
    }

    /// Asks the host to bind the device. The response must carry no payload;
    /// its result code is not looked at.
    fn tdisp_bind_interface(&self) -> (res: Result<(), TdispClientError>)
        ensures
            res matches Err(error) ==> error.ends_request(),
    {
        match self.tdisp_command_no_args(TdispCommandId::Bind) {
            Ok(response) => expect_no_payload(&response),
            Err(error) => Err(error),
        }
    }
}

} // verus!
