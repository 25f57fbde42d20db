//! The lifecycle states of a device interface, the reasons for an unbind and
//! the result codes that a guest sees, each with its stable numeric encoding.
use vstd::prelude::*;

verus! {

/// The trust lifecycle state of a TDI (trusted device interface).
#[derive(Debug, Copy, Clone, PartialEq, Eq, Structural)]
pub enum TdispTdiState {
    /// The state is not initialized or indeterminate. A state machine is never
    /// in this state.
    Uninitialized,
    /// `TDI.Unlocked`: the device is in its default "reset" state. Resources
    /// can be configured and no functionality can be used.
    Unlocked,
    /// `TDI.Locked`: the device resources have been locked and attestation can
    /// take place. The device is not functional yet.
    Locked,
    /// `TDI.Run`: the device is fully functional and its resources have been
    /// accepted into the guest context.
    Run,
    /// `TDI.Error`: the device reported an error while locked or running. The
    /// only way out is an unbind.
    Error,
}

impl TdispTdiState {
    /// The number that stands for this state on the wire.
    pub open spec fn code(self) -> u64 {
        match self {
            TdispTdiState::Uninitialized => 0,
            TdispTdiState::Unlocked => 1,
            TdispTdiState::Locked => 2,
            TdispTdiState::Run => 3,
            TdispTdiState::Error => 4,
        }
    }

    /// The state that a number on the wire stands for. Numbers that name no
    /// state stand for `Uninitialized`.
    pub open spec fn of_code(code: u64) -> TdispTdiState {
        if code == 1 {
            TdispTdiState::Unlocked
        } else if code == 2 {
            TdispTdiState::Locked
        } else if code == 3 {
            TdispTdiState::Run
        } else if code == 4 {
            TdispTdiState::Error
        } else {
            TdispTdiState::Uninitialized
        }
    }

    /// Every state is found again from its own number.
    pub proof fn lemma_code_round_trip(self)
        ensures
            TdispTdiState::of_code(self.code()) == self,
    {
    }
}

impl vstd::std_specs::convert::FromSpecImpl<TdispTdiState> for u64 {
    open spec fn obeys_from_spec() -> bool {
        true
    }

    open spec fn from_spec(value: TdispTdiState) -> u64 {
        value.code()
    }
}

impl From<TdispTdiState> for u64 {
    fn from(value: TdispTdiState) -> (code: u64)
        ensures
            code == value.code(),
    {
        match value {
            TdispTdiState::Uninitialized => 0,
            TdispTdiState::Unlocked => 1,
            TdispTdiState::Locked => 2,
            TdispTdiState::Run => 3,
            TdispTdiState::Error => 4,
        }
    }
}

impl vstd::std_specs::convert::FromSpecImpl<u64> for TdispTdiState {
    open spec fn obeys_from_spec() -> bool {
        true
    }

    open spec fn from_spec(value: u64) -> TdispTdiState {
        TdispTdiState::of_code(value)
    }
}

impl From<u64> for TdispTdiState {
    fn from(value: u64) -> (state: TdispTdiState)
        ensures
            state == TdispTdiState::of_code(value),
    {
        match value {
            0 => TdispTdiState::Uninitialized,
            1 => TdispTdiState::Unlocked,
            2 => TdispTdiState::Locked,
            3 => TdispTdiState::Run,
            4 => TdispTdiState::Error,
            _ => TdispTdiState::Uninitialized,
        }
    }
}

/// Why a guest asks for an unbind.
#[derive(Debug, Copy, Clone, PartialEq, Eq, Structural)]
pub enum TdispGuestUnbindReason {
    /// The guest gave no reason that this protocol knows.
    Unknown,
    /// The device is being detached or deactivated in an orderly way.
    Graceful,
}

impl TdispGuestUnbindReason {
    /// The number that stands for this reason on the wire.
    pub open spec fn code(self) -> u64 {
        match self {
            TdispGuestUnbindReason::Unknown => 0,
            TdispGuestUnbindReason::Graceful => 1,
        }
    }

    /// The reason that a number on the wire stands for. Every number but that
    /// of `Graceful` stands for `Unknown`.
    pub open spec fn of_code(code: u64) -> TdispGuestUnbindReason {
        if code == 1 {
            TdispGuestUnbindReason::Graceful
        } else {
            TdispGuestUnbindReason::Unknown
        }
    }

    /// Whether a guest may give this reason. `Unknown` is the one reason that
    /// is not recognized.
    pub open spec fn is_recognized(self) -> bool {
        self != TdispGuestUnbindReason::Unknown
    }

    /// Every reason is found again from its own number.
    pub proof fn lemma_code_round_trip(self)
        ensures
            TdispGuestUnbindReason::of_code(self.code()) == self,
    {
    }
}

impl vstd::std_specs::convert::FromSpecImpl<TdispGuestUnbindReason> for u64 {
    open spec fn obeys_from_spec() -> bool {
        true
    }

    open spec fn from_spec(value: TdispGuestUnbindReason) -> u64 {
        value.code()
    }
}

impl From<TdispGuestUnbindReason> for u64 {
    fn from(value: TdispGuestUnbindReason) -> (code: u64)
        ensures
            code == value.code(),
    {
        match value {
            TdispGuestUnbindReason::Unknown => 0,
            TdispGuestUnbindReason::Graceful => 1,
        }
    }
}

impl vstd::std_specs::convert::FromSpecImpl<u64> for TdispGuestUnbindReason {
    open spec fn obeys_from_spec() -> bool {
        true
    }

    open spec fn from_spec(value: u64) -> TdispGuestUnbindReason {
        TdispGuestUnbindReason::of_code(value)
    }
}

impl From<u64> for TdispGuestUnbindReason {
    fn from(value: u64) -> (reason: TdispGuestUnbindReason)
        ensures
            reason == TdispGuestUnbindReason::of_code(value),
    {
        match value {
            1 => TdispGuestUnbindReason::Graceful,
            _ => TdispGuestUnbindReason::Unknown,
        }
    }
}

/// Why a device was driven back to `Unlocked`, as the state machine records it
/// in its history.
#[derive(Debug, Copy, Clone, PartialEq, Eq, Structural)]
pub enum TdispUnbindReason {
    /// No reason is known.
    Unknown,
    /// The guest asked for the unbind and gave a recognized reason.
    GuestInitiated(TdispGuestUnbindReason),
    /// The state machine itself tried a transition that its table forbids.
    ImpossibleStateTransition,
    /// The guest asked to lock the device while it was not `Unlocked`.
    InvalidGuestTransitionToLocked,
    /// The guest asked to start the device while it was not `Locked`.
    InvalidGuestTransitionToRun,
    /// The guest asked for an attestation report while the device was neither
    /// `Locked` nor `Run`.
    InvalidGuestGetAttestationReportState,
    /// The guest accepted an attestation report while the device was not
    /// `Locked`.
    InvalidGuestAcceptAttestationReportState,
    /// The guest asked for the unbind with a reason that is not recognized.
    /// The unbind is carried out all the same; the reason that was given is
    /// kept here in place of a `GuestInitiated` entry.
    InvalidGuestUnbindReason(TdispGuestUnbindReason),
}

impl TdispUnbindReason {
    /// Whether the state machine itself forced this unbind because a request
    /// came in a state that does not allow it.
    pub open spec fn is_forced(self) -> bool {
        self == TdispUnbindReason::InvalidGuestTransitionToLocked
            || self == TdispUnbindReason::InvalidGuestTransitionToRun
            || self == TdispUnbindReason::InvalidGuestGetAttestationReportState
    }
}

/// The result code of an operation that a guest dispatched.
#[derive(Debug, Copy, Clone, PartialEq, Eq, Structural)]
pub enum TdispGuestOperationError {
    /// The operation was successful.
    Success,
    /// The current TDI state is incorrect for this operation.
    InvalidDeviceState,
    /// The reason for this unbind is invalid.
    InvalidGuestUnbindReason,
    /// Invalid TDI command ID.
    InvalidGuestCommandId,
    /// The operation requested was not implemented.
    NotImplemented,
    /// The host failed to process the command.
    HostFailedToProcessCommand,
    /// The device was not in the `Locked` or `Run` state when the attestation
    /// report was requested.
    InvalidGuestAttestationReportState,
    /// An invalid attestation report type was requested.
    InvalidGuestAttestationReportType,
}

impl TdispGuestOperationError {
    /// The number that stands for this result on the wire.
    pub open spec fn code(self) -> u64 {
        match self {
            TdispGuestOperationError::Success => 0,
            TdispGuestOperationError::InvalidDeviceState => 1,
            TdispGuestOperationError::InvalidGuestUnbindReason => 2,
            TdispGuestOperationError::InvalidGuestCommandId => 3,
            TdispGuestOperationError::NotImplemented => 4,
            TdispGuestOperationError::HostFailedToProcessCommand => 5,
            TdispGuestOperationError::InvalidGuestAttestationReportState => 6,
            TdispGuestOperationError::InvalidGuestAttestationReportType => 7,
        }
    }

    /// The result that a number on the wire stands for, if it stands for one.
    pub open spec fn of_code(code: u64) -> Option<TdispGuestOperationError> {
        if code == 0 {
            Some(TdispGuestOperationError::Success)
        } else if code == 1 {
            Some(TdispGuestOperationError::InvalidDeviceState)
        } else if code == 2 {
            Some(TdispGuestOperationError::InvalidGuestUnbindReason)
        } else if code == 3 {
            Some(TdispGuestOperationError::InvalidGuestCommandId)
        } else if code == 4 {
            Some(TdispGuestOperationError::NotImplemented)
        } else if code == 5 {
            Some(TdispGuestOperationError::HostFailedToProcessCommand)
        } else if code == 6 {
            Some(TdispGuestOperationError::InvalidGuestAttestationReportState)
        } else if code == 7 {
            Some(TdispGuestOperationError::InvalidGuestAttestationReportType)
        } else {
            None
        }
    }

    /// Every result is found again from its own number.
    pub proof fn lemma_code_round_trip(self)
        ensures
            TdispGuestOperationError::of_code(self.code()) == Some(self),
    {
    }

    /// Reads a result code. Numbers above 7 name no result.
    pub fn from_code(code: u64) -> (result: Option<TdispGuestOperationError>)
        ensures
            result == TdispGuestOperationError::of_code(code),
    {
        match code {
            0 => Some(TdispGuestOperationError::Success),
            1 => Some(TdispGuestOperationError::InvalidDeviceState),
            2 => Some(TdispGuestOperationError::InvalidGuestUnbindReason),
            3 => Some(TdispGuestOperationError::InvalidGuestCommandId),
            4 => Some(TdispGuestOperationError::NotImplemented),
            5 => Some(TdispGuestOperationError::HostFailedToProcessCommand),
            6 => Some(TdispGuestOperationError::InvalidGuestAttestationReportState),
            7 => Some(TdispGuestOperationError::InvalidGuestAttestationReportType),
            _ => None,
        }
    }

    /// The text that describes this result.
    pub fn message(&self) -> (text: &'static str)
        ensures
            text@ == self.message_text(),
    {
        match self {
            TdispGuestOperationError::Success => "the operation was successful",
            TdispGuestOperationError::InvalidDeviceState => {
                "the current TDI state is incorrect for this operation"
            },
            TdispGuestOperationError::InvalidGuestUnbindReason => {
                "the reason for this unbind is invalid"
            },
            TdispGuestOperationError::InvalidGuestCommandId => "invalid TDI command ID",
            TdispGuestOperationError::NotImplemented => {
                "operation requested was not implemented"
            },
            TdispGuestOperationError::HostFailedToProcessCommand => {
                "host failed to process command"
            },
            TdispGuestOperationError::InvalidGuestAttestationReportState => {
                "the device was not in the Locked or Run state when the attestation report was requested"
            },
            TdispGuestOperationError::InvalidGuestAttestationReportType => {
                "invalid attestation report type requested"
            },
        }
    }

    /// The characters of the text that describes this result.
    pub open spec fn message_text(self) -> Seq<char> {
        match self {
            TdispGuestOperationError::Success => "the operation was successful"@,
            TdispGuestOperationError::InvalidDeviceState => {
                "the current TDI state is incorrect for this operation"@
            },
            TdispGuestOperationError::InvalidGuestUnbindReason => {
                "the reason for this unbind is invalid"@
            },
            TdispGuestOperationError::InvalidGuestCommandId => "invalid TDI command ID"@,
            TdispGuestOperationError::NotImplemented => {
                "operation requested was not implemented"@
            },
            TdispGuestOperationError::HostFailedToProcessCommand => {
                "host failed to process command"@
            },
            TdispGuestOperationError::InvalidGuestAttestationReportState => {
                "the device was not in the Locked or Run state when the attestation report was requested"@
            },
            TdispGuestOperationError::InvalidGuestAttestationReportType => {
                "invalid attestation report type requested"@
            },
        }
    }
}

impl vstd::std_specs::convert::FromSpecImpl<TdispGuestOperationError> for u64 {
    open spec fn obeys_from_spec() -> bool {
        true
    }

    open spec fn from_spec(value: TdispGuestOperationError) -> u64 {
        value.code()
    }
}

impl From<TdispGuestOperationError> for u64 {
    fn from(value: TdispGuestOperationError) -> (code: u64)
        ensures
            code == value.code(),
    {
        match value {
            TdispGuestOperationError::Success => 0,
            TdispGuestOperationError::InvalidDeviceState => 1,
            TdispGuestOperationError::InvalidGuestUnbindReason => 2,
            TdispGuestOperationError::InvalidGuestCommandId => 3,
            TdispGuestOperationError::NotImplemented => 4,
            TdispGuestOperationError::HostFailedToProcessCommand => 5,
            TdispGuestOperationError::InvalidGuestAttestationReportState => 6,
            TdispGuestOperationError::InvalidGuestAttestationReportType => 7,
        }
    }
}

} // verus!
