//! The commands that a guest sends to the host and the responses that come
//! back.
use crate::state::TdispGuestOperationError;
use crate::state::TdispTdiState;
use vstd::prelude::*;

verus! {

/// Major version of the guest-to-host interface.
pub const TDISP_INTERFACE_VERSION_MAJOR: u32 = 1;

/// Minor version of the guest-to-host interface.
pub const TDISP_INTERFACE_VERSION_MINOR: u32 = 0;

/// Names the operation that a command asks for.
#[derive(Debug, Copy, Clone, PartialEq, Eq, Structural)]
pub enum TdispCommandId {
    /// Invalid command id.
    Unknown,
    /// Request the device's interface information.
    GetDeviceInterfaceInfo,
    /// Bind the device to the current partition and transition to `Locked`.
    Bind,
    /// Get a report for attestation from the host for the device.
    GetTdiReport,
    /// Transition the device to the `Run` state after successful attestation.
    StartTdi,
    /// Unbind the device from the partition, reverting it to `Unlocked`.
    Unbind,
}

impl TdispCommandId {
    /// The number that stands for this command on the wire.
    pub open spec fn code(self) -> u64 {
        match self {
            TdispCommandId::Unknown => 0,
            TdispCommandId::GetDeviceInterfaceInfo => 1,
            TdispCommandId::Bind => 2,
            TdispCommandId::GetTdiReport => 3,
            TdispCommandId::StartTdi => 4,
            TdispCommandId::Unbind => 5,
        }
    }

    /// The command that a number on the wire stands for. Numbers that name no
    /// command stand for `Unknown`.
    pub open spec fn of_code(code: u64) -> TdispCommandId {
        if code == 1 {
            TdispCommandId::GetDeviceInterfaceInfo
        } else if code == 2 {
            TdispCommandId::Bind
        } else if code == 3 {
            TdispCommandId::GetTdiReport
        } else if code == 4 {
            TdispCommandId::StartTdi
        } else if code == 5 {
            TdispCommandId::Unbind
        } else {
            TdispCommandId::Unknown
        }
    }

    /// Every command id is found again from its own number.
    pub proof fn lemma_code_round_trip(self)
        ensures
            TdispCommandId::of_code(self.code()) == self,
    {
    }
}

impl vstd::std_specs::convert::FromSpecImpl<TdispCommandId> for u64 {
    open spec fn obeys_from_spec() -> bool {
        true
    }

    open spec fn from_spec(value: TdispCommandId) -> u64 {
        value.code()
    }
}

impl From<TdispCommandId> for u64 {
    fn from(value: TdispCommandId) -> (code: u64)
        ensures
            code == value.code(),
    {
        match value {
            TdispCommandId::Unknown => 0,
            TdispCommandId::GetDeviceInterfaceInfo => 1,
            TdispCommandId::Bind => 2,
            TdispCommandId::GetTdiReport => 3,
            TdispCommandId::StartTdi => 4,
            TdispCommandId::Unbind => 5,
        }
    }
}

impl vstd::std_specs::convert::FromSpecImpl<u64> for TdispCommandId {
    open spec fn obeys_from_spec() -> bool {
        true
    }

    open spec fn from_spec(value: u64) -> TdispCommandId {
        TdispCommandId::of_code(value)
    }
}

impl From<u64> for TdispCommandId {
    fn from(value: u64) -> (id: TdispCommandId)
        ensures
            id == TdispCommandId::of_code(value),
    {
        match value {
            0 => TdispCommandId::Unknown,
            1 => TdispCommandId::GetDeviceInterfaceInfo,
            2 => TdispCommandId::Bind,
            3 => TdispCommandId::GetTdiReport,
            4 => TdispCommandId::StartTdi,
            5 => TdispCommandId::Unbind,
            _ => TdispCommandId::Unknown,
        }
    }
}

/// The payload of an `Unbind` command.
#[derive(Debug, Copy, Clone, PartialEq, Eq, Structural)]
pub struct TdispCommandRequestUnbind {
    /// The number of the guest's reason for the unbind.
    pub unbind_reason: u64,
}

/// The payload of a `GetTdiReport` command.
#[derive(Debug, Copy, Clone, PartialEq, Eq, Structural)]
pub struct TdispCommandRequestGetTdiReport {
    /// The number of the report that is asked for.
    pub report_type: u32,
}

/// What a command carries besides its header.
#[derive(Debug, Copy, Clone, PartialEq, Eq, Structural)]
pub enum TdispCommandRequestPayload {
    /// The command carries nothing more.
    Empty,
    /// The payload of an `Unbind` command.
    Unbind(TdispCommandRequestUnbind),
    /// The payload of a `GetTdiReport` command.
    GetTdiReport(TdispCommandRequestGetTdiReport),
}

/// A command sent from the guest to the host.
#[derive(Debug, Copy, Clone, PartialEq, Eq, Structural)]
pub struct GuestToHostCommand {
    /// The guest physical address of the response page. What it means is up to
    /// the transport; zero where the transport has no use for it.
    pub response_gpa: u64,
    /// Device id of the target device.
    pub device_id: u64,
    /// The command id.
    pub command_id: TdispCommandId,
    /// The payload of the command.
    pub payload: TdispCommandRequestPayload,
}

impl GuestToHostCommand {
    /// Whether the payload has the one shape that the command id allows:
    /// `Unbind` carries an unbind reason, `GetTdiReport` a report type, and
    /// every other command nothing.
    pub open spec fn payload_matches(self) -> bool {
        match self.command_id {
            TdispCommandId::Unbind => self.payload is Unbind,
            TdispCommandId::GetTdiReport => self.payload is GetTdiReport,
            _ => self.payload is Empty,
        }
    }

    /// Tells whether the payload has the shape that the command id allows.
    pub fn has_matching_payload(&self) -> (matches: bool)
        ensures
            matches == self.payload_matches(),
    {
        match self.command_id {
            TdispCommandId::Unbind => match self.payload {
                TdispCommandRequestPayload::Unbind(_) => true,
                _ => false,
            },
            TdispCommandId::GetTdiReport => match self.payload {
                TdispCommandRequestPayload::GetTdiReport(_) => true,
                _ => false,
            },
            _ => match self.payload {
                TdispCommandRequestPayload::Empty => true,
                _ => false,
            },
        }
    }
}

/// The interface information of a device: the version of the interface and
/// the features it supports.
#[derive(Debug, Copy, Clone, PartialEq, Eq, Structural)]
pub struct TdispDeviceInterfaceInfo {
    /// The major version of the interface.
    pub interface_version_major: u32,
    /// The minor version of the interface.
    pub interface_version_minor: u32,
    /// Bits that advertise the features of the device.
    pub supported_features: u64,
    /// The id of the device interface.
    pub tdisp_device_id: u64,
}

/// The interface version that a guest speaks.
#[derive(Debug, Copy, Clone, PartialEq, Eq, Structural)]
pub struct TdispGuestInterfaceInfo {
    /// The major version of the interface. This does not necessarily match a
    /// TDISP specification version.
    pub interface_version_major: u32,
    /// The minor version of the interface. This does not necessarily match a
    /// TDISP specification version.
    pub interface_version_minor: u32,
}

/// The payload of a successful `GetTdiReport` response.
#[derive(Debug, Clone, PartialEq, Eq)]
pub struct TdispCommandResponseGetTdiReport {
    /// The number of the report.
    pub report_type: u32,
    /// The bytes of the report.
    pub report_buffer: Vec<u8>,
}

/// What a response carries besides its header.
#[derive(Debug, Clone, PartialEq, Eq)]
pub enum TdispCommandResponsePayload {
    /// The response carries nothing more.
    Empty,
    /// The answer to `GetDeviceInterfaceInfo`.
    GetDeviceInterfaceInfo(TdispDeviceInterfaceInfo),
    /// The answer to `GetTdiReport`.
    GetTdiReport(TdispCommandResponseGetTdiReport),
}

/// The mathematical value of a response payload: the report is a sequence of
/// bytes.
pub enum ResponsePayloadView {
    /// The response carries nothing more.
    Empty,
    /// The answer to `GetDeviceInterfaceInfo`.
    GetDeviceInterfaceInfo(TdispDeviceInterfaceInfo),
    /// The answer to `GetTdiReport`.
    GetTdiReport { report_type: u32, report_buffer: Seq<u8> },
}

impl View for TdispCommandResponsePayload {
    type V = ResponsePayloadView;

    open spec fn view(&self) -> ResponsePayloadView {
        match self {
            TdispCommandResponsePayload::Empty => ResponsePayloadView::Empty,
            TdispCommandResponsePayload::GetDeviceInterfaceInfo(info) => {
                ResponsePayloadView::GetDeviceInterfaceInfo(*info)
            },
            TdispCommandResponsePayload::GetTdiReport(report) => {
                ResponsePayloadView::GetTdiReport {
                    report_type: report.report_type,
                    report_buffer: report.report_buffer@,
                }
            },
        }
    }
}

impl vstd::std_specs::convert::FromSpecImpl<TdispDeviceInterfaceInfo> for TdispCommandResponsePayload {
    open spec fn obeys_from_spec() -> bool {
        true
    }

    open spec fn from_spec(value: TdispDeviceInterfaceInfo) -> TdispCommandResponsePayload {
        TdispCommandResponsePayload::GetDeviceInterfaceInfo(value)
    }
}

impl From<TdispDeviceInterfaceInfo> for TdispCommandResponsePayload {
    fn from(value: TdispDeviceInterfaceInfo) -> (payload: TdispCommandResponsePayload)
        ensures
            payload == TdispCommandResponsePayload::GetDeviceInterfaceInfo(value),
    {
        TdispCommandResponsePayload::GetDeviceInterfaceInfo(value)
    }
}

/// A response to a command that a guest sent to the host.
#[derive(Debug, Clone, PartialEq, Eq)]
pub struct GuestToHostResponse {
    /// The command id.
    pub command_id: TdispCommandId,
    /// The result status of the command.
    pub result: TdispGuestOperationError,
    /// The state of the TDI before the command was executed.
    pub tdi_state_before: TdispTdiState,
    /// The state of the TDI after the command was executed.
    pub tdi_state_after: TdispTdiState,
    /// The payload of the response if it has one.
    pub payload: TdispCommandResponsePayload,
}

/// The mathematical value of a response.
pub struct GuestToHostResponseView {
    /// The command id.
    pub command_id: TdispCommandId,
    /// The result status of the command.
    pub result: TdispGuestOperationError,
    /// The state of the TDI before the command was executed.
    pub tdi_state_before: TdispTdiState,
    /// The state of the TDI after the command was executed.
    pub tdi_state_after: TdispTdiState,
    /// The payload of the response.
    pub payload: ResponsePayloadView,
}

impl View for GuestToHostResponse {
    type V = GuestToHostResponseView;

    open spec fn view(&self) -> GuestToHostResponseView {
        GuestToHostResponseView {
            command_id: self.command_id,
            result: self.result,
            tdi_state_before: self.tdi_state_before,
            tdi_state_after: self.tdi_state_after,
            payload: self.payload@,
        }
    }
}

impl GuestToHostResponseView {
    /// Whether the payload has a shape that the command id allows. The
    /// interface information belongs to `GetDeviceInterfaceInfo` and a report
    /// to `GetTdiReport`, whatever the result is. A response to another
    /// command carries nothing, and so may a failed response to one of these
    /// two.
    pub open spec fn payload_matches(self) -> bool {
        match self.payload {
            ResponsePayloadView::Empty => self.result != TdispGuestOperationError::Success || (
            self.command_id != TdispCommandId::GetDeviceInterfaceInfo && self.command_id
                != TdispCommandId::GetTdiReport),
            ResponsePayloadView::GetDeviceInterfaceInfo(_) => self.command_id
                == TdispCommandId::GetDeviceInterfaceInfo,
            ResponsePayloadView::GetTdiReport { .. } => self.command_id
                == TdispCommandId::GetTdiReport,
        }
    }

    /// Whether the device changed its state while the command was executed.
    pub open spec fn transitioned(self) -> bool {
        self.tdi_state_before != self.tdi_state_after
    }
}

impl GuestToHostResponse {
    /// Tells whether the device changed its state while the command was
    /// executed. The result code alone does not say so: a command can succeed
    /// without a transition and fail with one.
    pub fn state_changed(&self) -> (changed: bool)
        ensures
            changed == self@.transitioned(),
    {
        self.tdi_state_before != self.tdi_state_after
    }
}

/// Reads the number that a hypercall carries for a state. Numbers that name no
/// state stand for `Uninitialized`.
pub fn tdisp_state_from_hvcall(tdi_state: u64) -> (state: TdispTdiState)
    ensures
        state == TdispTdiState::of_code(tdi_state),
{
    match tdi_state {
        0 => TdispTdiState::Uninitialized,
        1 => TdispTdiState::Unlocked,
        2 => TdispTdiState::Locked,
        3 => TdispTdiState::Run,
        4 => TdispTdiState::Error,
        _ => TdispTdiState::Uninitialized,
    }
}

/// The number that a hypercall carries for a state.
pub fn tdisp_state_to_hvcall(tdi_state: TdispTdiState) -> (code: u64)
    ensures
        code == tdi_state.code(),
        TdispTdiState::of_code(code) == tdi_state,
{
    match tdi_state {
        TdispTdiState::Uninitialized => 0,
        TdispTdiState::Unlocked => 1,
        TdispTdiState::Locked => 2,
        TdispTdiState::Run => 3,
        TdispTdiState::Error => 4,
    }
}

} // verus!
