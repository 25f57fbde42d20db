//! The host command router: it takes a decoded command, hands it to the state
//! machine by its command id, and assembles the response.
use crate::command::GuestToHostCommand;
use crate::command::GuestToHostResponse;
use crate::command::ResponsePayloadView;
use crate::command::TdispCommandId;
use crate::command::TdispCommandRequestGetTdiReport;
use crate::command::TdispCommandRequestPayload;
use crate::command::TdispCommandRequestUnbind;
use crate::command::TdispCommandResponseGetTdiReport;
use crate::command::TdispCommandResponsePayload;
use crate::command::TdispDeviceInterfaceInfo;
use crate::command::TDISP_INTERFACE_VERSION_MAJOR;
use crate::command::TDISP_INTERFACE_VERSION_MINOR;
use crate::host::error_from_message;
use crate::host::TdispHostDeviceInterface;
use crate::machine::StateMachineView;
use crate::machine::TdispGuestRequestInterface;
use crate::machine::TdispHostStateMachine;
use crate::report::TdispDeviceReportType;
use crate::serialize::response_page_readable;
use crate::report::TdispTdiReport;
use crate::state::TdispGuestOperationError;
use crate::state::TdispGuestUnbindReason;
use crate::state::TdispTdiState;
use vstd::prelude::*;

verus! {

/// What a host device offers so that commands of guests can be dispatched to
/// it.
pub trait TdispHostDeviceTarget: Send + Sync {
    /// Handles one command of a guest and gives the response to it. A device
    /// that does not dispatch commands fails.
    fn tdisp_handle_guest_command(&mut self, command: GuestToHostCommand) -> (res: Result<
        GuestToHostResponse,
        anyhow::Error,
    >)
        default_ensures
            res is Err,
    {
        Err(error_from_message("TdispHostDeviceTarget not implemented: tdisp_dispatch"))
    }
}

/// The interface information that the router answers with: the version of
/// this interface, no feature bits and device id zero.
pub open spec fn emulated_interface_info() -> TdispDeviceInterfaceInfo {
    TdispDeviceInterfaceInfo {
        interface_version_major: TDISP_INTERFACE_VERSION_MAJOR,
        interface_version_minor: TDISP_INTERFACE_VERSION_MINOR,
        supported_features: 0,
        tdisp_device_id: 0,
    }
}

/// The reason that an `Unbind` command asks with. A command without an unbind
/// payload gives no recognized reason.
pub open spec fn requested_unbind_reason(command: GuestToHostCommand) -> TdispGuestUnbindReason {
    match command.payload {
        TdispCommandRequestPayload::Unbind(payload) => TdispGuestUnbindReason::of_code(
            payload.unbind_reason,
        ),
        _ => TdispGuestUnbindReason::Unknown,
    }
}

/// The report that a `GetTdiReport` command asks for. A command without a
/// report payload asks for the invalid TDI report.
pub open spec fn requested_report_type(command: GuestToHostCommand) -> TdispDeviceReportType {
    match command.payload {
        TdispCommandRequestPayload::GetTdiReport(payload) => TdispDeviceReportType::of_code(
            payload.report_type,
        ),
        _ => TdispDeviceReportType::TdiReport(TdispTdiReport::TdiInfoInvalid),
    }
}

/// The result code that stands for the outcome of a request.
pub open spec fn result_code(outcome: Result<(), TdispGuestOperationError>)
    -> TdispGuestOperationError {
    match outcome {
        Ok(_) => TdispGuestOperationError::Success,
        Err(error) => error,
    }
}

/// The state machine after a command was routed, and the result code of the
/// response. `host_ok` says whether the host action that the command needed,
/// if it needed one, succeeded. `GetDeviceInterfaceInfo` and `Unknown` never
/// touch the machine.
pub open spec fn route_step(machine: StateMachineView, command: GuestToHostCommand, host_ok: bool)
    -> (StateMachineView, TdispGuestOperationError) {
    match command.command_id {
        TdispCommandId::GetDeviceInterfaceInfo => (machine, TdispGuestOperationError::Success),
        TdispCommandId::Bind => {
            let (next, outcome) = machine.lock_step(host_ok);
            (next, result_code(outcome))
        },
        TdispCommandId::StartTdi => {
            let (next, outcome) = machine.start_step(host_ok);
            (next, result_code(outcome))
        },
        TdispCommandId::Unbind => {
            let (next, outcome) = machine.unbind_step(requested_unbind_reason(command), host_ok);
            (next, result_code(outcome))
        },
        TdispCommandId::GetTdiReport => {
            let (next, error) = machine.report_step(requested_report_type(command), host_ok);
            (
                next,
                match error {
                    Some(error) => error,
                    None => TdispGuestOperationError::Success,
                },
            )
        },
        TdispCommandId::Unknown => (machine, TdispGuestOperationError::InvalidGuestCommandId),
    }
}

/// A device is never usable before it was locked. Whatever command is
/// routed and whatever the host does, the machine enters `Run` only from
/// `Locked`, by a `StartTdi` that the host carried out, and enters `Locked`
/// only from `Unlocked`, by a `Bind` that the host carried out. Every other
/// command leaves the state as it is or drives it to `Unlocked`.
pub proof fn law_no_run_before_lock(
    machine: StateMachineView,
    command: GuestToHostCommand,
    host_ok: bool,
)
    ensures
        ({
            let next = route_step(machine, command, host_ok).0;
            &&& next.state == TdispTdiState::Run && machine.state != TdispTdiState::Run ==> {
                &&& machine.state == TdispTdiState::Locked
                &&& command.command_id == TdispCommandId::StartTdi
                &&& host_ok
                &&& route_step(machine, command, host_ok).1 == TdispGuestOperationError::Success
            }
            &&& next.state == TdispTdiState::Locked && machine.state != TdispTdiState::Locked ==> {
                &&& machine.state == TdispTdiState::Unlocked
                &&& command.command_id == TdispCommandId::Bind
                &&& host_ok
                &&& route_step(machine, command, host_ok).1 == TdispGuestOperationError::Success
            }
            &&& next.state == machine.state || next.state == TdispTdiState::Unlocked || next.state
                == TdispTdiState::Locked || next.state == TdispTdiState::Run
        }),
{
}

/// A command that does not succeed never moves the machine forward: after it
/// the machine is where it was, or `Unlocked`.
pub proof fn law_failure_never_advances(
    machine: StateMachineView,
    command: GuestToHostCommand,
    host_ok: bool,
)
    requires
        route_step(machine, command, host_ok).1 != TdispGuestOperationError::Success,
    ensures
        route_step(machine, command, host_ok).0.state == machine.state || route_step(
            machine,
            command,
            host_ok,
        ).0.state == TdispTdiState::Unlocked,
{
}

/// Guest and host agree on what a command asks: the reason that a guest puts
/// into an `Unbind` command by its number is the reason that the router
/// reads, and so is the report type of a `GetTdiReport` command.
pub proof fn law_requests_are_understood(
    command: GuestToHostCommand,
    reason: TdispGuestUnbindReason,
    report_type: TdispDeviceReportType,
)
    ensures
        command.payload == TdispCommandRequestPayload::Unbind(
            TdispCommandRequestUnbind { unbind_reason: reason.code() },
        ) ==> requested_unbind_reason(command) == reason,
        command.payload == TdispCommandRequestPayload::GetTdiReport(
            TdispCommandRequestGetTdiReport { report_type: report_type.code() },
        ) ==> requested_report_type(command) == report_type,
{
    reason.lemma_code_round_trip();
    report_type.lemma_code_round_trip();
}

/// A report that the router hands out has the type that the command named:
/// the number in the response is the number in the command.
pub proof fn law_report_type_is_echoed(command: GuestToHostCommand, report_type: u32)
    requires
        command.payload == TdispCommandRequestPayload::GetTdiReport(
            TdispCommandRequestGetTdiReport { report_type },
        ),
        !requested_report_type(command).is_invalid(),
    ensures
        requested_report_type(command).code() == report_type,
{
    TdispDeviceReportType::lemma_invalid_codes(report_type);
}

/// The result code and the payload of the response to a `GetTdiReport`
/// command, once the state machine has answered. A report is handed out as
/// it was given, under the number of its type; a failed request carries its
/// error and no payload.
pub fn report_response(
    report_type: &TdispDeviceReportType,
    answer: Result<Vec<u8>, TdispGuestOperationError>,
) -> (response: (TdispGuestOperationError, TdispCommandResponsePayload))
    ensures
        match answer {
            Ok(report) => response.0 == TdispGuestOperationError::Success && response.1@
                == (ResponsePayloadView::GetTdiReport {
                report_type: report_type.code(),
                report_buffer: report@,
            }),
            Err(error) => response.0 == error && response.1@ == ResponsePayloadView::Empty,
        },
{
    match answer {
        Ok(report_buffer) => (
            TdispGuestOperationError::Success,
            TdispCommandResponsePayload::GetTdiReport(
                TdispCommandResponseGetTdiReport {
                    report_type: u32::from(report_type),
                    report_buffer,
                },
            ),
        ),
        Err(error) => (error, TdispCommandResponsePayload::Empty),
    }
}

/// An emulator which runs the state machine for a synthetic device.
pub struct TdispHostDeviceTargetEmulator<H: TdispHostDeviceInterface> {
    machine: TdispHostStateMachine<H>,
}

impl<H: TdispHostDeviceInterface> View for TdispHostDeviceTargetEmulator<H> {
    type V = StateMachineView;

    /// The value of an emulator is that of its state machine.
    closed spec fn view(&self) -> StateMachineView {
        self.machine@
    }
}

impl<H: TdispHostDeviceInterface> TdispHostDeviceTargetEmulator<H> {
    /// The handle through which the state machine of the emulator asks the
    /// host to act on the device, as a value.
    pub closed spec fn spec_host_interface(self) -> H {
        self.machine.spec_host_interface()
    }

    /// Create a new emulator which runs the state machine for a synthetic
    /// device. Its state machine keeps `host_interface` as its handle to the
    /// host.
    pub fn new(host_interface: H) -> (emulator: Self)
        ensures
            emulator@ == StateMachineView::initial(),
            emulator.spec_host_interface() == host_interface,
    {
        Self { machine: TdispHostStateMachine::new(host_interface) }
    }

    /// Set the device id that log messages name.
    pub fn set_debug_device_id(&mut self, debug_device_id: &str)
        ensures
            final(self)@ == (StateMachineView { debug_device_id: debug_device_id@, ..old(self)@ }),
            final(self).spec_host_interface() == old(self).spec_host_interface(),
    {
        self.machine.set_debug_device_id(debug_device_id.to_owned());
    }

    /// Reset the emulator. There is nothing to reset: the state of the device
    /// is left only by an unbind.
    pub fn reset(&self) {
    }

    /// The current state of the emulated device.
    pub fn state(&self) -> (state: TdispTdiState)
        ensures
            state == self@.state,
            self@.wf(),
    {
        self.machine.state()
    }

    /// The state machine that the emulator runs.
    pub fn machine(&self) -> (machine: &TdispHostStateMachine<H>)
        ensures
            machine@ == self@,
            machine.spec_host_interface() == self.spec_host_interface(),
    {
        &self.machine
    }

    /// Get the device interface info for this device.
    pub fn get_device_interface_info(&self) -> (info: TdispDeviceInterfaceInfo)
        ensures
            info == emulated_interface_info(),
    {
        TdispDeviceInterfaceInfo {
            interface_version_major: TDISP_INTERFACE_VERSION_MAJOR,
            interface_version_minor: TDISP_INTERFACE_VERSION_MINOR,
            supported_features: 0,
            tdisp_device_id: 0,
        }
    }
}

impl<H: TdispHostDeviceInterface> TdispHostDeviceTarget for TdispHostDeviceTargetEmulator<H> {
    /// Routes a command by its id and always gives a response. The response
    /// names the command, holds the state of the device before and after the
    /// command, also when the command failed, and carries a payload only when
    /// the command succeeded and has one. `GetDeviceInterfaceInfo` and
    /// `Unknown` never touch the state machine. Neither state of a response
    /// is `Uninitialized`. Every response is one that a response page
    /// carries, the one to `Unknown` too, unless the host gave a report that
    /// is too long for the page.
    fn tdisp_handle_guest_command(&mut self, command: GuestToHostCommand) -> (res: Result<
        GuestToHostResponse,
        anyhow::Error,
    >)
        ensures
            res is Ok,
            res->Ok_0.command_id == command.command_id,
            res->Ok_0.tdi_state_before == old(self)@.state,
            res->Ok_0.tdi_state_after == final(self)@.state,
            res->Ok_0.tdi_state_before != TdispTdiState::Uninitialized,
            res->Ok_0.tdi_state_after != TdispTdiState::Uninitialized,
            final(self)@ == route_step(
                old(self)@,
                command,
                res->Ok_0.result != TdispGuestOperationError::HostFailedToProcessCommand,
            ).0,
            res->Ok_0.result == route_step(
                old(self)@,
                command,
                res->Ok_0.result != TdispGuestOperationError::HostFailedToProcessCommand,
            ).1,
            res->Ok_0@.payload_matches(),
            res->Ok_0@.payload is GetTdiReport || response_page_readable(res->Ok_0@),
            res->Ok_0@.payload matches ResponsePayloadView::GetDeviceInterfaceInfo(info) ==> info
                == emulated_interface_info(),
            res->Ok_0@.payload matches ResponsePayloadView::GetTdiReport { report_type, .. }
                ==> report_type == requested_report_type(command).code(),
            final(self)@.wf(),
    {
        let mut error = TdispGuestOperationError::Success;
        let mut payload = TdispCommandResponsePayload::Empty;
        let state_before = self.machine.state();
        match command.command_id {
            TdispCommandId::GetDeviceInterfaceInfo => {
                let interface_info = self.get_device_interface_info();
                payload = TdispCommandResponsePayload::GetDeviceInterfaceInfo(interface_info);
            },
            TdispCommandId::Bind => {
                let bind_res = self.machine.request_lock_device_resources();
                if let Err(err) = bind_res {
                    error = err;
                }
            },
            TdispCommandId::StartTdi => {
                let start_tdi_res = self.machine.request_start_tdi();
                if let Err(err) = start_tdi_res {
                    error = err;
                }
            },
            TdispCommandId::Unbind => {
                let unbind_reason: TdispGuestUnbindReason = match command.payload {
                    TdispCommandRequestPayload::Unbind(payload) => TdispGuestUnbindReason::from(
                        payload.unbind_reason,
                    ),
                    _ => TdispGuestUnbindReason::Unknown,
                };
                let unbind_res = self.machine.request_unbind(unbind_reason);
                if let Err(err) = unbind_res {
                    error = err;
                }
            },
            TdispCommandId::GetTdiReport => {
                let report_type = match &command.payload {
                    TdispCommandRequestPayload::GetTdiReport(payload) => {
                        TdispDeviceReportType::from(payload.report_type)
                    },
                    _ => TdispDeviceReportType::TdiReport(TdispTdiReport::TdiInfoInvalid),
                };
                let report_buffer = self.machine.request_attestation_report(&report_type);
                let (result, report) = report_response(&report_type, report_buffer);
                error = result;
                payload = report;
            },
            TdispCommandId::Unknown => {
                error = TdispGuestOperationError::InvalidGuestCommandId;
            },
        }
        let state_after = self.machine.state();
        Ok(
            GuestToHostResponse {
                command_id: command.command_id,
                result: error,
                tdi_state_before: state_before,
                tdi_state_after: state_after,
                payload,
            },
        )
    }
}

} // verus!
